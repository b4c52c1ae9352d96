//! The session manager: a registry of loaded graphs, a registry of
//! execution contexts, and the operations that a caller drives them with.
use vstd::prelude::*;
use std::collections::HashMap;
use crate::backends::Backend;
use crate::descriptor::decode_tensor;
use crate::errno::ErrNo;
use crate::memory::ForeignBuffer;
use crate::session::{
    spec_compute_input, spec_get_output, spec_init_execution_context, spec_load, spec_set_input,
    spec_store_output, ContextState, ContextView, ModelKind, Outcome, SessionView, Tag,
    MAX_HANDLE, SUPPORTED_ENCODING,
};
use crate::squeezenet::{SqueezenetContext, SqueezenetModel, INPUT_DIM, INPUT_INDEX, OUTPUT_DIM};
use crate::tensor::Tensor;
use crate::whisper::{WhisperContext, WhisperModel};

verus! {

broadcast use vstd::std_specs::hash::group_hash_axioms;

/// A loaded model, by kind.
pub enum Graph {
    Squeezenet(SqueezenetModel),
    Whisper(WhisperModel),
}

impl Graph {
    /// The kind of the model.
    pub open spec fn spec_kind(self) -> ModelKind {
        match self {
            Graph::Squeezenet(_) => ModelKind::Squeezenet,
            Graph::Whisper(_) => ModelKind::Whisper,
        }
    }

    /// Returns the kind of the model.
    pub fn kind(&self) -> (kind: ModelKind)
        ensures
            kind == self.spec_kind(),
    {
        match self {
            Graph::Squeezenet(_) => ModelKind::Squeezenet,
            Graph::Whisper(_) => ModelKind::Whisper,
        }
    }
}

/// A loaded model together with the backend that it runs on.
pub enum GraphWithBackend {
    WithWgpu(Graph),
    WithNdArray(Graph),
}

impl GraphWithBackend {
    /// Backend and kind of the graph.
    pub open spec fn spec_tag(self) -> Tag {
        match self {
            GraphWithBackend::WithWgpu(graph) => Tag {
                backend: Backend::Wgpu,
                kind: graph.spec_kind(),
            },
            GraphWithBackend::WithNdArray(graph) => Tag {
                backend: Backend::NdArray,
                kind: graph.spec_kind(),
            },
        }
    }

    /// Puts `graph` under `backend`.
    pub fn new(backend: Backend, graph: Graph) -> (entry: GraphWithBackend)
        ensures
            entry.spec_tag() == (Tag { backend, kind: graph.spec_kind() }),
    {
        match backend {
            Backend::Wgpu => GraphWithBackend::WithWgpu(graph),
            Backend::NdArray => GraphWithBackend::WithNdArray(graph),
        }
    }

    /// Returns backend and kind of the graph.
    pub fn tag(&self) -> (tag: Tag)
        ensures
            tag == self.spec_tag(),
    {
        match self {
            GraphWithBackend::WithWgpu(graph) => Tag { backend: Backend::Wgpu, kind: graph.kind() },
            GraphWithBackend::WithNdArray(graph) => Tag {
                backend: Backend::NdArray,
                kind: graph.kind(),
            },
        }
    }
}

/// The state of an execution context, by kind of model.
pub enum Context {
    Squeezenet(SqueezenetContext),
    Whisper(WhisperContext),
}

impl Context {
    /// What the context holds.
    pub open spec fn state(self) -> ContextState {
        match self {
            Context::Squeezenet(context) => ContextState::Squeezenet(context@),
            Context::Whisper(_) => ContextState::Whisper,
        }
    }
}

/// The state of an execution context together with the backend that it
/// runs on.
pub enum ContextWithBackend {
    WithWgpu(Context),
    WithNdArray(Context),
}

impl ContextWithBackend {
    /// The backend of the context.
    pub open spec fn spec_backend(self) -> Backend {
        match self {
            ContextWithBackend::WithWgpu(_) => Backend::Wgpu,
            ContextWithBackend::WithNdArray(_) => Backend::NdArray,
        }
    }

    /// What the context holds.
    pub open spec fn state(self) -> ContextState {
        match self {
            ContextWithBackend::WithWgpu(context) => context.state(),
            ContextWithBackend::WithNdArray(context) => context.state(),
        }
    }

    /// Puts `context` under `backend`.
    pub fn new(backend: Backend, context: Context) -> (entry: ContextWithBackend)
        ensures
            entry.spec_backend() == backend,
            entry.state() == context.state(),
    {
        match backend {
            Backend::Wgpu => ContextWithBackend::WithWgpu(context),
            Backend::NdArray => ContextWithBackend::WithNdArray(context),
        }
    }

    /// Returns the backend of the context.
    pub fn backend(&self) -> (backend: Backend)
        ensures
            backend == self.spec_backend(),
    {
        match self {
            ContextWithBackend::WithWgpu(_) => Backend::Wgpu,
            ContextWithBackend::WithNdArray(_) => Backend::NdArray,
        }
    }

    /// The state of the context, whatever its backend.
    pub fn context(&self) -> (context: &Context)
        ensures
            context.state() == self.state(),
    {
        match self {
            ContextWithBackend::WithWgpu(context) => context,
            ContextWithBackend::WithNdArray(context) => context,
        }
    }

    /// Gives up the state of the context.
    pub fn into_context(self) -> (context: Context)
        ensures
            context.state() == self.state(),
    {
        match self {
            ContextWithBackend::WithWgpu(context) => context,
            ContextWithBackend::WithNdArray(context) => context,
        }
    }
}

/// What a registered context stands for in the model of the session.
pub open spec fn context_view(entry: (ContextWithBackend, u32)) -> ContextView {
    ContextView { backend: entry.0.spec_backend(), state: entry.0.state(), graph: entry.1 }
}

/// `compute` on `before` with the forward pass `forward` may report `status`
/// and leave `after`: where it cannot run, it reports why and changes
/// nothing; where it can, it succeeds, and the output that it appends is an
/// answer of `forward` to the context's backend and bound input.
pub open spec fn computed<F: Fn(Backend, &Tensor<INPUT_DIM>) -> Tensor<OUTPUT_DIM>>(
    before: SessionView,
    ctx_handle: u32,
    forward: F,
    status: ErrNo,
    after: SessionView,
) -> bool {
    match spec_compute_input(before, ctx_handle) {
        Err(expected) => status == expected && after == before,
        Ok((backend, expected_input)) => status == ErrNo::Success && exists|
            input: Tensor<INPUT_DIM>,
            output: Tensor<OUTPUT_DIM>,
        |
            input@ == expected_input && #[trigger] forward.ensures((backend, &input), output)
                && after == before.with_output(ctx_handle, output@),
    }
}

/// The graph that `entry` belongs to is registered in `graphs`, with the
/// backend and the kind of `entry`.
pub open spec fn fits(graphs: Map<u32, GraphWithBackend>, entry: (ContextWithBackend, u32)) -> bool {
    graphs.contains_key(entry.1) && graphs[entry.1].spec_tag() == context_view(entry).tag()
}

/// The session manager.
pub struct WasiNN {
    next_id: u32,
    graphs: HashMap<u32, GraphWithBackend>,
    contexts: HashMap<u32, (ContextWithBackend, u32)>,
}

impl View for WasiNN {
    type V = SessionView;

    closed spec fn view(&self) -> SessionView {
        SessionView {
            next_id: self.next_id as nat,
            graphs: Map::new(
                |h: u32| self.graphs@.contains_key(h),
                |h: u32| self.graphs@[h].spec_tag(),
            ),
            contexts: Map::new(
                |h: u32| self.contexts@.contains_key(h),
                |h: u32| context_view(self.contexts@[h]),
            ),
        }
    }
}

impl WasiNN {
    /// What holds of every session manager: each handle in use was issued,
    /// and each context belongs to a registered graph of its own backend
    /// and kind.
    #[verifier::type_invariant]
    pub closed spec fn well_formed(self) -> bool {
        &&& self.next_id <= MAX_HANDLE + 1
        &&& forall|h: u32| #[trigger] self.graphs@.contains_key(h) ==> h < self.next_id
        &&& forall|h: u32| #[trigger]
            self.contexts@.contains_key(h) ==> h < self.next_id && fits(
                self.graphs@,
                self.contexts@[h],
            )
    }

    /// The session of a well-formed manager is well-formed and consistent.
    pub proof fn lemma_well_formed(self)
        requires
            self.well_formed(),
        ensures
            self@.wf(),
            self@.consistent(),
    {
    }

    /// A session manager with nothing loaded.
    pub fn new() -> (manager: WasiNN)
        ensures
            manager@ == SessionView::empty(),
    {
        let manager = WasiNN { next_id: 0, graphs: HashMap::new(), contexts: HashMap::new() };
        assert(manager@.graphs =~= Map::empty());
        assert(manager@.contexts =~= Map::empty());
        manager
    }

    /// Loads a model.
    ///
    /// `data_ptr` and `data_len` locate the model bytes, which are not
    /// parsed. `encoding` must be the supported one and `target` must select
    /// a backend. The handle of the new graph is written at
    /// `graph_handle_ptr`.
    pub fn load(
        &mut self,
        data_ptr: u32,
        data_len: u32,
        encoding: u32,
        target: u32,
        graph_handle_ptr: u32,
        memory: &mut ForeignBuffer,
    ) -> (status: ErrNo)
        ensures
            (Outcome { status, session: final(self)@, memory: final(memory)@ }) == spec_load(
                old(self)@,
                old(memory)@,
                data_ptr,
                data_len,
                encoding,
                target,
                graph_handle_ptr,
            ),
            final(self)@.wf(),
            final(self)@.consistent(),
    {
        proof {
            use_type_invariant(&*self);
        }
        if encoding != SUPPORTED_ENCODING {
            return ErrNo::InvalidEncoding;
        }
        let backend = match Backend::from_target(target) {
            Some(backend) => backend,
            None => {
                return ErrNo::InvalidArgument;
            },
        };
        if !memory.contains_range(data_ptr as usize, data_len as usize) || !memory.contains_range(
            graph_handle_ptr as usize,
            4,
        ) {
            return ErrNo::MissingMemory;
        }
        if self.next_id > MAX_HANDLE {
            return ErrNo::TooLarge;
        }
        let graph = GraphWithBackend::new(backend, Graph::Squeezenet(SqueezenetModel::new()));
        let id: u32 = self.register_graph(graph);
        let _ = memory.write_u32(graph_handle_ptr as usize, id);
        ErrNo::Success
    }

    /// Registers `graph` under the next handle and returns the handle.
    fn register_graph(&mut self, graph: GraphWithBackend) -> (id: u32)
        requires
            old(self)@.has_free_handle(),
        ensures
            id == old(self)@.next_id,
            final(self)@ == old(self)@.with_graph(graph.spec_tag()),
    {
        proof {
            use_type_invariant(&*self);
        }
        let id: u32 = self.next_id;
        let mut contexts: HashMap<u32, (ContextWithBackend, u32)> = HashMap::new();
        let mut graphs: HashMap<u32, GraphWithBackend> = HashMap::new();
        core::mem::swap(&mut self.contexts, &mut contexts);
        core::mem::swap(&mut self.graphs, &mut graphs);
        graphs.insert(id, graph);
        self.next_id = id + 1;
        core::mem::swap(&mut self.graphs, &mut graphs);
        assert forall|h: u32| #[trigger] contexts@.contains_key(h) implies fits(
            self.graphs@,
            contexts@[h],
        ) by {
            assert(fits(old(self).graphs@, old(self).contexts@[h]));
        }
        core::mem::swap(&mut self.contexts, &mut contexts);
        proof {
            assert(self@.graphs =~= old(self)@.graphs.insert(id, graph.spec_tag()));
            assert(self@.contexts =~= old(self)@.contexts);
        }
        id
    }

    /// Registers `entry` under the next handle and returns the handle.
    fn register_context(&mut self, entry: (ContextWithBackend, u32)) -> (id: u32)
        requires
            old(self)@.has_free_handle(),
            fits(old(self).graphs@, entry),
        ensures
            id == old(self)@.next_id,
            final(self).next_id == old(self).next_id + 1,
            final(self).graphs@ == old(self).graphs@,
            final(self).contexts@ == old(self).contexts@.insert(id, entry),
    {
        proof {
            use_type_invariant(&*self);
        }
        let id: u32 = self.next_id;
        let mut contexts: HashMap<u32, (ContextWithBackend, u32)> = HashMap::new();
        core::mem::swap(&mut self.contexts, &mut contexts);
        contexts.insert(id, entry);
        self.next_id = id + 1;
        core::mem::swap(&mut self.contexts, &mut contexts);
        id
    }

    /// Takes the context registered under `handle` out of the registry.
    fn take_context(&mut self, handle: u32) -> (entry: Option<(ContextWithBackend, u32)>)
        ensures
            final(self).next_id == old(self).next_id,
            final(self).graphs@ == old(self).graphs@,
            final(self).contexts@ == old(self).contexts@.remove(handle),
            entry is Some <==> old(self).contexts@.contains_key(handle),
            entry matches Some(e) ==> e == old(self).contexts@[handle],
    {
        proof {
            use_type_invariant(&*self);
        }
        let mut contexts: HashMap<u32, (ContextWithBackend, u32)> = HashMap::new();
        core::mem::swap(&mut self.contexts, &mut contexts);
        let entry = contexts.remove(&handle);
        core::mem::swap(&mut self.contexts, &mut contexts);
        entry
    }

    /// Registers `entry` under `handle`, which was issued before.
    fn put_context(&mut self, handle: u32, entry: (ContextWithBackend, u32))
        requires
            handle < old(self).next_id,
            fits(old(self).graphs@, entry),
        ensures
            final(self).next_id == old(self).next_id,
            final(self).graphs@ == old(self).graphs@,
            final(self).contexts@ == old(self).contexts@.insert(handle, entry),
    {
        proof {
            use_type_invariant(&*self);
        }
        let mut contexts: HashMap<u32, (ContextWithBackend, u32)> = HashMap::new();
        core::mem::swap(&mut self.contexts, &mut contexts);
        contexts.insert(handle, entry);
        core::mem::swap(&mut self.contexts, &mut contexts);
    }

    /// Opens an execution context on a loaded graph.
    ///
    /// The context gets the backend and the kind of the graph, and remembers
    /// the graph's handle. The handle of the new context is written at
    /// `ctx_handle_ptr`.
    pub fn init_execution_context(
        &mut self,
        graph_handle: u32,
        ctx_handle_ptr: u32,
        memory: &mut ForeignBuffer,
    ) -> (status: ErrNo)
        ensures
            (Outcome { status, session: final(self)@, memory: final(memory)@ }) == spec_init_execution_context(
                old(self)@,
                old(memory)@,
                graph_handle,
                ctx_handle_ptr,
            ),
            final(self)@.wf(),
            final(self)@.consistent(),
    {
        proof {
            use_type_invariant(&*self);
        }
        let tag = match self.graphs.get(&graph_handle) {
            Some(graph) => graph.tag(),
            None => {
                return ErrNo::NotFound;
            },
        };
        let context = match tag.kind {
            ModelKind::Squeezenet => Context::Squeezenet(SqueezenetContext::new()),
            ModelKind::Whisper => {
                return ErrNo::UnsupportedOperation;
            },
        };
        if !memory.contains_range(ctx_handle_ptr as usize, 4) {
            return ErrNo::MissingMemory;
        }
        if self.next_id > MAX_HANDLE {
            return ErrNo::TooLarge;
        }
        let entry = (ContextWithBackend::new(tag.backend, context), graph_handle);
        let id: u32 = self.register_context(entry);
        let _ = memory.write_u32(ctx_handle_ptr as usize, id);
        proof {
            use_type_invariant(&*self);
            assert(self@.graphs =~= old(self)@.graphs);
            assert(self@.contexts =~= old(self)@.with_context(graph_handle).contexts);
        }
        ErrNo::Success
    }

    /// Binds an input tensor of a context.
    ///
    /// The tensor is described by the descriptor at `input_tensor_ptr`. It
    /// replaces any tensor bound at `input_index` before.
    pub fn set_input(
        &mut self,
        ctx_handle: u32,
        input_index: u32,
        input_tensor_ptr: u32,
        memory: &ForeignBuffer,
    ) -> (status: ErrNo)
        ensures
            (Outcome { status, session: final(self)@, memory: memory@ }) == spec_set_input(
                old(self)@,
                memory@,
                ctx_handle,
                input_index,
                input_tensor_ptr,
            ),
            final(self)@.wf(),
            final(self)@.consistent(),
    {
        proof {
            use_type_invariant(&*self);
        }
        let decoded = match decode_tensor(memory, input_tensor_ptr, INPUT_DIM) {
            Ok(decoded) => decoded,
            Err(_) => {
                return ErrNo::MissingMemory;
            },
        };
        let dimensions: [usize; INPUT_DIM] = [
            decoded.shape[0],
            decoded.shape[1],
            decoded.shape[2],
            decoded.shape[3],
        ];
        assert(dimensions@ =~= decoded.shape@);
        let (context, graph) = match self.take_context(ctx_handle) {
            Some(entry) => entry,
            None => {
                proof {
                    assert(self@.contexts =~= old(self)@.contexts);
                    assert(self@.graphs =~= old(self)@.graphs);
                }
                return ErrNo::NotFound;
            },
        };
        let backend = context.backend();
        let (status, context) = match context.into_context() {
            Context::Squeezenet(mut squeezenet_context) => {
                let bound = squeezenet_context.set_input(
                    input_index,
                    decoded.data.as_slice(),
                    dimensions,
                );
                let status = if bound {
                    ErrNo::Success
                } else {
                    ErrNo::InvalidArgument
                };
                (status, Context::Squeezenet(squeezenet_context))
            },
            Context::Whisper(whisper_context) => (
                ErrNo::UnsupportedOperation,
                Context::Whisper(whisper_context),
            ),
        };
        let entry = (ContextWithBackend::new(backend, context), graph);
        self.put_context(ctx_handle, entry);
        proof {
            use_type_invariant(&*self);
            let expected = spec_set_input(
                old(self)@,
                memory@,
                ctx_handle,
                input_index,
                input_tensor_ptr,
            );
            assert(self@.graphs =~= expected.session.graphs);
            assert(context_view(entry) == expected.session.contexts[ctx_handle]);
            assert(self@.contexts =~= expected.session.contexts);
        }
        status
    }

    /// Resolves what a forward pass for context `ctx_handle` runs on: the
    /// backend, the model and the bound input.
    fn resolve(&self, ctx_handle: u32) -> (request: Result<
        (Backend, &SqueezenetModel, &Tensor<INPUT_DIM>),
        ErrNo,
    >)
        ensures
            match (request, spec_compute_input(self@, ctx_handle)) {
                (Ok((backend, _, input)), Ok((expected_backend, expected_input))) => backend
                    == expected_backend && input@ == expected_input,
                (Err(status), Err(expected)) => status == expected,
                _ => false,
            },
    {
        let (context, graph_handle) = match self.contexts.get(&ctx_handle) {
            Some(entry) => (&entry.0, entry.1),
            None => {
                return Err(ErrNo::NotFound);
            },
        };
        let graph = match self.graphs.get(&graph_handle) {
            Some(graph) => graph,
            None => {
                return Err(ErrNo::NotFound);
            },
        };
        match (context, graph) {
            (
                ContextWithBackend::WithNdArray(Context::Squeezenet(squeezenet_context)),
                GraphWithBackend::WithNdArray(Graph::Squeezenet(squeezenet_model)),
            ) => match squeezenet_context.input(INPUT_INDEX) {
                Some(input) => Ok((Backend::NdArray, squeezenet_model, input)),
                None => Err(ErrNo::InvalidArgument),
            },
            (
                ContextWithBackend::WithWgpu(Context::Squeezenet(squeezenet_context)),
                GraphWithBackend::WithWgpu(Graph::Squeezenet(squeezenet_model)),
            ) => match squeezenet_context.input(INPUT_INDEX) {
                Some(input) => Ok((Backend::Wgpu, squeezenet_model, input)),
                None => Err(ErrNo::InvalidArgument),
            },
            _ => Err(ErrNo::UnsupportedOperation),
        }
    }

    /// Tells what a forward pass for context `ctx_handle` would run on: the
    /// backend and the bound input, or the status with which `compute` fails.
    pub fn compute_input(&self, ctx_handle: u32) -> (request: Result<
        (Backend, &Tensor<INPUT_DIM>),
        ErrNo,
    >)
        ensures
            match (request, spec_compute_input(self@, ctx_handle)) {
                (Ok((backend, input)), Ok((expected_backend, expected_input))) => backend
                    == expected_backend && input@ == expected_input,
                (Err(status), Err(expected)) => status == expected,
                _ => false,
            },
    {
        match self.resolve(ctx_handle) {
            Ok((backend, _, input)) => Ok((backend, input)),
            Err(status) => Err(status),
        }
    }

    /// Appends `output`, the model's answer for the bound input, to the
    /// outputs of context `ctx_handle`. Where `compute` could not run for
    /// the context, nothing is stored and the status says why.
    pub fn store_output(&mut self, ctx_handle: u32, output: Tensor<OUTPUT_DIM>) -> (status: ErrNo)
        ensures
            status == spec_store_output(old(self)@, ctx_handle, output@).0,
            final(self)@ == spec_store_output(old(self)@, ctx_handle, output@).1,
            final(self)@.wf(),
            final(self)@.consistent(),
    {
        proof {
            use_type_invariant(&*self);
        }
        match self.resolve(ctx_handle) {
            Ok(_) => {},
            Err(status) => {
                return status;
            },
        }
        let (context, graph) = match self.take_context(ctx_handle) {
            Some(entry) => entry,
            None => {
                proof {
                    assert(self@.contexts =~= old(self)@.contexts);
                    assert(self@.graphs =~= old(self)@.graphs);
                }
                return ErrNo::NotFound;
            },
        };
        let backend = context.backend();
        let (status, context) = match context.into_context() {
            Context::Squeezenet(mut squeezenet_context) => {
                squeezenet_context.push_output(output);
                (ErrNo::Success, Context::Squeezenet(squeezenet_context))
            },
            Context::Whisper(whisper_context) => (
                ErrNo::UnsupportedOperation,
                Context::Whisper(whisper_context),
            ),
        };
        let entry = (ContextWithBackend::new(backend, context), graph);
        self.put_context(ctx_handle, entry);
        proof {
            use_type_invariant(&*self);
            let expected = spec_store_output(old(self)@, ctx_handle, output@).1;
            assert(self@.graphs =~= expected.graphs);
            assert(context_view(entry) == expected.contexts[ctx_handle]);
            assert(self@.contexts =~= expected.contexts);
        }
        status
    }

    /// Runs inference for a context.
    ///
    /// The context and its graph are resolved, in this order; both must be
    /// of the same backend and kind. The input bound at `INPUT_INDEX` is
    /// handed to `forward` together with the backend, and what `forward`
    /// answers is appended to the outputs of the context.
    pub fn compute<F: Fn(Backend, &Tensor<INPUT_DIM>) -> Tensor<OUTPUT_DIM>>(
        &mut self,
        ctx_handle: u32,
        forward: F,
    ) -> (status: ErrNo)
        requires
            forall|backend: Backend, input: Tensor<INPUT_DIM>|
                input@.wf() ==> forward.requires((backend, &input)),
        ensures
            computed(old(self)@, ctx_handle, forward, status, final(self)@),
            final(self)@.wf(),
            final(self)@.consistent(),
    {
        let output = match self.resolve(ctx_handle) {
            Ok((backend, model, input)) => {
                proof {
                    use_type_invariant(input);
                    input.lemma_well_formed();
                }
                model.compute(backend, input, forward)
            },
            Err(status) => {
                proof {
                    use_type_invariant(&*self);
                }
                return status;
            },
        };
        self.store_output(ctx_handle, output)
    }

    /// Backend and kind of the graph registered under `graph_handle`, if
    /// there is one.
    pub fn graph_tag(&self, graph_handle: u32) -> (tag: Option<Tag>)
        ensures
            tag is Some <==> self@.graphs.contains_key(graph_handle),
            tag matches Some(t) ==> t == self@.graphs[graph_handle],
            self@.wf(),
            self@.consistent(),
    {
        proof {
            use_type_invariant(self);
        }
        match self.graphs.get(&graph_handle) {
            Some(graph) => Some(graph.tag()),
            None => None,
        }
    }

    /// Backend and kind of the context registered under `ctx_handle`, and
    /// the handle of the graph that it was created from, if there is such a
    /// context.
    pub fn context_tag(&self, ctx_handle: u32) -> (found: Option<(Tag, u32)>)
        ensures
            found is Some <==> self@.contexts.contains_key(ctx_handle),
            found matches Some((tag, graph)) ==> tag == self@.contexts[ctx_handle].tag() && graph
                == self@.contexts[ctx_handle].graph,
    {
        match self.contexts.get(&ctx_handle) {
            Some(entry) => {
                let kind = match entry.0.context() {
                    Context::Squeezenet(_) => ModelKind::Squeezenet,
                    Context::Whisper(_) => ModelKind::Whisper,
                };
                Some((Tag { backend: entry.0.backend(), kind }, entry.1))
            },
            None => None,
        }
    }

    /// Copies an output tensor of a context into the caller's memory.
    ///
    /// The elements of the output at `output_index` are written at
    /// `output_ptr`, four little-endian bytes each, unless they take more
    /// than `output_max_size` bytes. The number of bytes written is stored
    /// at `output_written_len_ptr`. A call that fails writes nothing.
    pub fn get_output(
        &self,
        ctx_handle: u32,
        output_index: u32,
        output_ptr: u32,
        output_max_size: u32,
        output_written_len_ptr: u32,
        memory: &mut ForeignBuffer,
    ) -> (status: ErrNo)
        ensures
            (Outcome { status, session: self@, memory: final(memory)@ }) == spec_get_output(
                self@,
                old(memory)@,
                ctx_handle,
                output_index,
                output_ptr,
                output_max_size,
                output_written_len_ptr,
            ),
    {
        let context = match self.contexts.get(&ctx_handle) {
            Some(entry) => entry.0.context(),
            None => {
                return ErrNo::NotFound;
            },
        };
        let squeezenet_context = match context {
            Context::Squeezenet(squeezenet_context) => squeezenet_context,
            Context::Whisper(_) => {
                return ErrNo::UnsupportedOperation;
            },
        };
        let tensor = match squeezenet_context.output(output_index as usize) {
            Some(tensor) => tensor,
            None => {
                return ErrNo::NotFound;
            },
        };
        let count: usize = tensor.len();
        if count > (output_max_size / 4) as usize {
            return ErrNo::TooLarge;
        }
        let size: usize = 4 * count;
        if !memory.contains_range(output_ptr as usize, size) || !memory.contains_range(
            output_written_len_ptr as usize,
            4,
        ) {
            return ErrNo::MissingMemory;
        }
        let bytes = tensor.to_bytes();
        let _ = memory.write_bytes(output_ptr as usize, bytes.as_slice());
        let _ = memory.write_u32(output_written_len_ptr as usize, size as u32);
        ErrNo::Success
    }
}

} // verus!
