//! The mathematical model of a session: what the registries hold, and what
//! each operation makes of a session and of the caller's memory.
use vstd::prelude::*;
use crate::backends::Backend;
use crate::bytes::{bytes_of, word_bytes};
use crate::descriptor::spec_decode_tensor;
use crate::errno::ErrNo;
use crate::memory::{in_range, overwrite};
use crate::squeezenet::{SqueezenetView, INPUT_DIM, INPUT_INDEX};
use crate::tensor::TensorView;

verus! {

/// The one model encoding that `load` accepts.
pub const SUPPORTED_ENCODING: u32 = 8;

/// The largest handle that is ever issued. Handles stay non-negative when a
/// caller reads them as signed 32-bit integers.
pub const MAX_HANDLE: u32 = 0x7fff_ffff;

/// The kinds of model.
#[derive(Clone, Copy, Debug, PartialEq, Eq, Structural)]
pub enum ModelKind {
    /// The image-classification model.
    Squeezenet,
    /// The speech model, for which nothing is implemented.
    Whisper,
}

/// The backend and the kind of model that a graph or a context is for.
#[derive(Clone, Copy, Debug, PartialEq, Eq, Structural)]
pub struct Tag {
    pub backend: Backend,
    pub kind: ModelKind,
}

/// What a context holds, by kind of model.
pub enum ContextState {
    Squeezenet(SqueezenetView),
    Whisper,
}

/// An execution context: its backend, its state, and the handle of the
/// graph that it was created from.
pub struct ContextView {
    pub backend: Backend,
    pub state: ContextState,
    pub graph: u32,
}

impl ContextView {
    /// The kind of model that the context is for.
    pub open spec fn kind(self) -> ModelKind {
        match self.state {
            ContextState::Squeezenet(_) => ModelKind::Squeezenet,
            ContextState::Whisper => ModelKind::Whisper,
        }
    }

    /// Backend and kind of the context.
    pub open spec fn tag(self) -> Tag {
        Tag { backend: self.backend, kind: self.kind() }
    }

    /// The inputs bound in the context; none for a kind that binds none.
    pub open spec fn inputs(self) -> Map<u32, TensorView> {
        match self.state {
            ContextState::Squeezenet(state) => state.inputs,
            ContextState::Whisper => Map::empty(),
        }
    }

    /// The outputs computed in the context, oldest first.
    pub open spec fn outputs(self) -> Seq<TensorView> {
        match self.state {
            ContextState::Squeezenet(state) => state.outputs,
            ContextState::Whisper => Seq::empty(),
        }
    }
}

/// A session: the next handle to issue, the graphs by handle and the
/// contexts by handle. Both registries draw their handles from one counter.
pub struct SessionView {
    pub next_id: nat,
    pub graphs: Map<u32, Tag>,
    pub contexts: Map<u32, ContextView>,
}

impl SessionView {
    /// A session in which nothing is loaded.
    pub open spec fn empty() -> SessionView {
        SessionView { next_id: 0, graphs: Map::empty(), contexts: Map::empty() }
    }

    /// Every handle in use was issued: it lies below the next one, and the
    /// next one is at most one past the largest.
    pub open spec fn wf(self) -> bool {
        &&& self.next_id <= MAX_HANDLE + 1
        &&& forall|h: u32| #[trigger] self.graphs.contains_key(h) ==> h < self.next_id
        &&& forall|h: u32| #[trigger] self.contexts.contains_key(h) ==> h < self.next_id
    }

    /// Every context belongs to a graph that is loaded, and has that graph's
    /// backend and kind.
    pub open spec fn consistent(self) -> bool {
        forall|h: u32| #[trigger]
            self.contexts.contains_key(h) ==> self.graphs.contains_key(self.contexts[h].graph)
                && self.graphs[self.contexts[h].graph] == self.contexts[h].tag()
    }

    /// A handle is left to issue.
    pub open spec fn has_free_handle(self) -> bool {
        self.next_id <= MAX_HANDLE
    }

    /// The session after a graph with `tag` is registered under the next
    /// handle.
    pub open spec fn with_graph(self, tag: Tag) -> SessionView {
        SessionView {
            next_id: self.next_id + 1,
            graphs: self.graphs.insert(self.next_id as u32, tag),
            contexts: self.contexts,
        }
    }

    /// The session after an empty context of graph `graph` is registered
    /// under the next handle.
    pub open spec fn with_context(self, graph: u32) -> SessionView {
        SessionView {
            next_id: self.next_id + 1,
            graphs: self.graphs,
            contexts: self.contexts.insert(
                self.next_id as u32,
                ContextView {
                    backend: self.graphs[graph].backend,
                    state: ContextState::Squeezenet(SqueezenetView::empty()),
                    graph,
                },
            ),
        }
    }

    /// The session after context `ctx` has bound `tensor` at `index`.
    pub open spec fn with_input(self, ctx: u32, index: u32, tensor: TensorView) -> SessionView {
        let context = self.contexts[ctx];
        SessionView {
            next_id: self.next_id,
            graphs: self.graphs,
            contexts: self.contexts.insert(
                ctx,
                ContextView {
                    backend: context.backend,
                    state: ContextState::Squeezenet(
                        (SqueezenetView {
                            inputs: context.inputs(),
                            outputs: context.outputs(),
                        }).with_input(index, tensor),
                    ),
                    graph: context.graph,
                },
            ),
        }
    }

    /// The session after context `ctx` has got `tensor` as its newest
    /// output.
    pub open spec fn with_output(self, ctx: u32, tensor: TensorView) -> SessionView {
        let context = self.contexts[ctx];
        SessionView {
            next_id: self.next_id,
            graphs: self.graphs,
            contexts: self.contexts.insert(
                ctx,
                ContextView {
                    backend: context.backend,
                    state: ContextState::Squeezenet(
                        (SqueezenetView {
                            inputs: context.inputs(),
                            outputs: context.outputs(),
                        }).with_output(tensor),
                    ),
                    graph: context.graph,
                },
            ),
        }
    }
}

/// How an operation ends: the status it reports, the session it leaves and
/// the caller's memory it leaves.
pub struct Outcome {
    pub status: ErrNo,
    pub session: SessionView,
    pub memory: Seq<u8>,
}

/// The outcome of an operation that fails with `status`: nothing changes.
pub open spec fn failed(status: ErrNo, session: SessionView, memory: Seq<u8>) -> Outcome {
    Outcome { status, session, memory }
}

/// `load`: the encoding is checked first, the target second, the two
/// locations in memory third, the room for a handle last. On success a graph
/// of the image model for the selected backend is registered and its handle
/// is written at `graph_handle_ptr`.
pub open spec fn spec_load(
    session: SessionView,
    memory: Seq<u8>,
    data_ptr: u32,
    data_len: u32,
    encoding: u32,
    target: u32,
    graph_handle_ptr: u32,
) -> Outcome {
    if encoding != SUPPORTED_ENCODING {
        failed(ErrNo::InvalidEncoding, session, memory)
    } else if Backend::spec_from_target(target) is None {
        failed(ErrNo::InvalidArgument, session, memory)
    } else if !in_range(memory.len(), data_ptr as int, data_len as int) || !in_range(
        memory.len(),
        graph_handle_ptr as int,
        4,
    ) {
        failed(ErrNo::MissingMemory, session, memory)
    } else if !session.has_free_handle() {
        failed(ErrNo::TooLarge, session, memory)
    } else {
        Outcome {
            status: ErrNo::Success,
            session: session.with_graph(
                Tag {
                    backend: Backend::spec_from_target(target)->Some_0,
                    kind: ModelKind::Squeezenet,
                },
            ),
            memory: overwrite(memory, graph_handle_ptr as int, word_bytes(session.next_id as u32)),
        }
    }
}

/// `init_execution_context`: the graph must be loaded and of a kind that
/// has contexts; the location for the handle must lie in memory; a handle
/// must be left. On success an empty context of the graph's backend and
/// kind is registered and its handle is written at `ctx_handle_ptr`.
pub open spec fn spec_init_execution_context(
    session: SessionView,
    memory: Seq<u8>,
    graph_handle: u32,
    ctx_handle_ptr: u32,
) -> Outcome {
    if !session.graphs.contains_key(graph_handle) {
        failed(ErrNo::NotFound, session, memory)
    } else if session.graphs[graph_handle].kind != ModelKind::Squeezenet {
        failed(ErrNo::UnsupportedOperation, session, memory)
    } else if !in_range(memory.len(), ctx_handle_ptr as int, 4) {
        failed(ErrNo::MissingMemory, session, memory)
    } else if !session.has_free_handle() {
        failed(ErrNo::TooLarge, session, memory)
    } else {
        Outcome {
            status: ErrNo::Success,
            session: session.with_context(graph_handle),
            memory: overwrite(memory, ctx_handle_ptr as int, word_bytes(session.next_id as u32)),
        }
    }
}

/// `set_input`: the tensor is decoded first, and any failure to decode it
/// is reported as missing memory; the context must exist and be of a kind
/// that binds inputs; the elements must fill the declared shape. On success
/// the tensor is bound at `input_index`. The memory is only read.
pub open spec fn spec_set_input(
    session: SessionView,
    memory: Seq<u8>,
    ctx_handle: u32,
    input_index: u32,
    input_tensor_ptr: u32,
) -> Outcome {
    match spec_decode_tensor(memory, input_tensor_ptr as int, INPUT_DIM as int) {
        Err(_) => failed(ErrNo::MissingMemory, session, memory),
        Ok(tensor) => {
            if !session.contexts.contains_key(ctx_handle) {
                failed(ErrNo::NotFound, session, memory)
            } else if session.contexts[ctx_handle].kind() != ModelKind::Squeezenet {
                failed(ErrNo::UnsupportedOperation, session, memory)
            } else if !tensor.wf() {
                failed(ErrNo::InvalidArgument, session, memory)
            } else {
                Outcome {
                    status: ErrNo::Success,
                    session: session.with_input(ctx_handle, input_index, tensor),
                    memory,
                }
            }
        },
    }
}

/// What `compute` runs the model on: the context must exist, and so must
/// its graph; both must be of the same backend and of the image model; the
/// input at `INPUT_INDEX` must be bound.
pub open spec fn spec_compute_input(session: SessionView, ctx_handle: u32) -> Result<
    (Backend, TensorView),
    ErrNo,
> {
    if !session.contexts.contains_key(ctx_handle) {
        Err(ErrNo::NotFound)
    } else {
        let context = session.contexts[ctx_handle];
        if !session.graphs.contains_key(context.graph) {
            Err(ErrNo::NotFound)
        } else if session.graphs[context.graph] != context.tag() || context.kind()
            != ModelKind::Squeezenet {
            Err(ErrNo::UnsupportedOperation)
        } else if !context.inputs().contains_key(INPUT_INDEX) {
            Err(ErrNo::InvalidArgument)
        } else {
            Ok((context.backend, context.inputs()[INPUT_INDEX]))
        }
    }
}

/// The session once the model has answered `output` for context
/// `ctx_handle`: the output is appended where `compute` could run, and
/// nothing changes where it could not.
pub open spec fn spec_store_output(session: SessionView, ctx_handle: u32, output: TensorView) -> (
    ErrNo,
    SessionView,
) {
    match spec_compute_input(session, ctx_handle) {
        Err(status) => (status, session),
        Ok(_) => (ErrNo::Success, session.with_output(ctx_handle, output)),
    }
}

/// `get_output`: the context must exist, be of a kind that has outputs, and
/// have an output at `output_index`; the output must fit in
/// `output_max_size` bytes; the destination and the location of the byte
/// count must lie in memory. On success the elements are written at
/// `output_ptr`, four bytes each, and after them their size in bytes at
/// `output_written_len_ptr`. The session is only read.
pub open spec fn spec_get_output(
    session: SessionView,
    memory: Seq<u8>,
    ctx_handle: u32,
    output_index: u32,
    output_ptr: u32,
    output_max_size: u32,
    output_written_len_ptr: u32,
) -> Outcome {
    if !session.contexts.contains_key(ctx_handle) {
        failed(ErrNo::NotFound, session, memory)
    } else if session.contexts[ctx_handle].kind() != ModelKind::Squeezenet {
        failed(ErrNo::UnsupportedOperation, session, memory)
    } else if output_index >= session.contexts[ctx_handle].outputs().len() {
        failed(ErrNo::NotFound, session, memory)
    } else {
        let data = session.contexts[ctx_handle].outputs()[output_index as int].data;
        if 4 * data.len() > output_max_size {
            failed(ErrNo::TooLarge, session, memory)
        } else if !in_range(memory.len(), output_ptr as int, (4 * data.len()) as int) || !in_range(
            memory.len(),
            output_written_len_ptr as int,
            4,
        ) {
            failed(ErrNo::MissingMemory, session, memory)
        } else {
            Outcome {
                status: ErrNo::Success,
                session,
                memory: overwrite(
                    overwrite(memory, output_ptr as int, bytes_of(data)),
                    output_written_len_ptr as int,
                    word_bytes((4 * data.len()) as u32),
                ),
            }
        }
    }
}

} // verus!
