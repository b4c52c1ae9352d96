//! What holds of the operations on every session and every memory.
use vstd::prelude::*;
use crate::backends::Backend;
use crate::bytes::{bytes_of, lemma_word_roundtrip, word_at, word_bytes};
use crate::descriptor::spec_decode_tensor;
use crate::errno::ErrNo;
use crate::host::{called, HostCall, WasmArg};
use crate::memory::{in_range, overwrite};
use crate::session::{
    spec_compute_input, spec_get_output, spec_init_execution_context, spec_load, spec_set_input,
    spec_store_output, ContextState, ModelKind, Outcome, SessionView, MAX_HANDLE,
    SUPPORTED_ENCODING,
};
use crate::squeezenet::{SqueezenetView, INPUT_DIM, INPUT_INDEX, OUTPUT_DIM};
use crate::tensor::{Tensor, TensorView};

verus! {

/// `load` with any encoding but the supported one reports an invalid
/// encoding, whatever the other arguments are, and changes neither the
/// session nor the memory.
pub proof fn law_load_rejects_other_encodings(
    session: SessionView,
    memory: Seq<u8>,
    data_ptr: u32,
    data_len: u32,
    encoding: u32,
    target: u32,
    graph_handle_ptr: u32,
)
    requires
        encoding != SUPPORTED_ENCODING,
    ensures
        spec_load(session, memory, data_ptr, data_len, encoding, target, graph_handle_ptr) == (
        Outcome { status: ErrNo::InvalidEncoding, session, memory }),
{
}

/// `load` with the supported encoding and a target that selects no backend
/// reports an invalid argument, and changes neither the session nor the
/// memory.
pub proof fn law_load_rejects_other_targets(
    session: SessionView,
    memory: Seq<u8>,
    data_ptr: u32,
    data_len: u32,
    target: u32,
    graph_handle_ptr: u32,
)
    requires
        target != 0,
        target != 1,
    ensures
        spec_load(
            session,
            memory,
            data_ptr,
            data_len,
            SUPPORTED_ENCODING,
            target,
            graph_handle_ptr,
        ) == (Outcome { status: ErrNo::InvalidArgument, session, memory }),
{
}

/// The arguments of one call of `load`.
pub struct LoadCall {
    pub data_ptr: u32,
    pub data_len: u32,
    pub encoding: u32,
    pub target: u32,
    pub graph_handle_ptr: u32,
}

impl LoadCall {
    /// The arguments are valid for a memory of `size` bytes: the encoding is
    /// the supported one, the target selects a backend, and both locations
    /// lie inside the memory.
    pub open spec fn valid(self, size: nat) -> bool {
        &&& self.encoding == SUPPORTED_ENCODING
        &&& Backend::spec_from_target(self.target) is Some
        &&& in_range(size, self.data_ptr as int, self.data_len as int)
        &&& in_range(size, self.graph_handle_ptr as int, 4)
    }

    /// The outcome of the call on `session` and `memory`.
    pub open spec fn outcome(self, session: SessionView, memory: Seq<u8>) -> Outcome {
        spec_load(
            session,
            memory,
            self.data_ptr,
            self.data_len,
            self.encoding,
            self.target,
            self.graph_handle_ptr,
        )
    }
}

/// The outcome of making `calls` one after the other, starting from
/// `session` and `memory`; the status is that of the last call.
pub open spec fn spec_load_all(session: SessionView, memory: Seq<u8>, calls: Seq<LoadCall>) -> Outcome
    decreases calls.len(),
{
    if calls.len() == 0 {
        Outcome { status: ErrNo::Success, session, memory }
    } else {
        let before = spec_load_all(session, memory, calls.drop_last());
        calls.last().outcome(before.session, before.memory)
    }
}

/// Valid calls of `load` made one after the other all succeed while handles
/// are left: the counter advances by one for each, the graphs are those
/// loaded before together with one for each handle issued, and nothing else
/// changes but the bytes of the memory.
pub proof fn lemma_loads_succeed(session: SessionView, memory: Seq<u8>, calls: Seq<LoadCall>)
    requires
        session.wf(),
        session.next_id + calls.len() <= MAX_HANDLE + 1,
        forall|i: int| 0 <= i < calls.len() ==> (#[trigger] calls[i]).valid(memory.len()),
    ensures
        spec_load_all(session, memory, calls).status == ErrNo::Success,
        spec_load_all(session, memory, calls).session.wf(),
        spec_load_all(session, memory, calls).session.next_id == session.next_id + calls.len(),
        spec_load_all(session, memory, calls).session.contexts == session.contexts,
        spec_load_all(session, memory, calls).memory.len() == memory.len(),
        forall|h: u32|
            #![trigger spec_load_all(session, memory, calls).session.graphs.contains_key(h)]
            spec_load_all(session, memory, calls).session.graphs.contains_key(h) <==> (
            session.graphs.contains_key(h) || session.next_id <= h < session.next_id + calls.len()),
    decreases calls.len(),
{
    if calls.len() > 0 {
        let init = calls.drop_last();
        lemma_loads_succeed(session, memory, init);
        let before = spec_load_all(session, memory, init);
        assert(calls[calls.len() - 1].valid(memory.len()));
        let after = calls.last().outcome(before.session, before.memory);
        assert(after.status == ErrNo::Success);
        assert(after.session == before.session.with_graph(after.session.graphs[before.session.next_id as u32]));
        assert forall|h: u32| after.session.graphs.contains_key(h) <==> (
        session.graphs.contains_key(h) || session.next_id <= h < session.next_id + calls.len()) by {
            assert(before.session.graphs.contains_key(h) <==> (session.graphs.contains_key(h)
                || session.next_id <= h < session.next_id + init.len()));
        }
    }
}

/// Any number of valid calls of `load`, in whatever order they take their
/// turn, all succeed while handles are left. Call `i` gets the handle
/// `next_id + i`, which named no graph before, so no two calls get the same
/// handle; every one of these handles names a graph afterwards; and every
/// graph loaded before is still there.
pub proof fn law_loads_issue_distinct_handles(
    session: SessionView,
    memory: Seq<u8>,
    calls: Seq<LoadCall>,
    i: int,
)
    requires
        session.wf(),
        session.next_id + calls.len() <= MAX_HANDLE + 1,
        forall|k: int| 0 <= k < calls.len() ==> (#[trigger] calls[k]).valid(memory.len()),
        0 <= i < calls.len(),
    ensures
        ({
            let before = spec_load_all(session, memory, calls.take(i));
            let after = calls[i].outcome(before.session, before.memory);
            let finally = spec_load_all(session, memory, calls).session;
            let handle = (session.next_id + i) as u32;
            &&& after.status == ErrNo::Success
            &&& word_at(after.memory, calls[i].graph_handle_ptr as int) == handle
            &&& !before.session.graphs.contains_key(handle)
            &&& after.session.graphs.contains_key(handle)
            &&& finally.graphs.contains_key(handle)
            &&& forall|h: u32| #[trigger]
                session.graphs.contains_key(h) ==> finally.graphs.contains_key(h)
        }),
{
    let prefix = calls.take(i);
    assert forall|k: int| 0 <= k < prefix.len() implies (#[trigger] prefix[k]).valid(
        memory.len(),
    ) by {
        assert(prefix[k] == calls[k]);
    }
    lemma_loads_succeed(session, memory, prefix);
    lemma_loads_succeed(session, memory, calls);
    let before = spec_load_all(session, memory, prefix);
    assert(calls[i].valid(memory.len()));
    lemma_word_roundtrip(before.session.next_id as u32);
    let finally = spec_load_all(session, memory, calls).session;
    let handle = (session.next_id + i) as u32;
    assert(finally.graphs.contains_key(handle));
    assert(!before.session.graphs.contains_key(handle));
}

/// `init_execution_context` on a handle that names no graph reports that
/// nothing was found, and changes neither the session nor the memory.
pub proof fn law_context_needs_a_loaded_graph(
    session: SessionView,
    memory: Seq<u8>,
    graph_handle: u32,
    ctx_handle_ptr: u32,
)
    requires
        !session.graphs.contains_key(graph_handle),
    ensures
        spec_init_execution_context(session, memory, graph_handle, ctx_handle_ptr) == (Outcome {
            status: ErrNo::NotFound,
            session,
            memory,
        }),
{
}

/// A successful `load` adds the graph whose handle it issues and no other;
/// a failed one changes nothing.
pub proof fn law_load_adds_one_graph(
    session: SessionView,
    memory: Seq<u8>,
    data_ptr: u32,
    data_len: u32,
    encoding: u32,
    target: u32,
    graph_handle_ptr: u32,
)
    requires
        session.wf(),
    ensures
        ({
            let outcome = spec_load(
                session,
                memory,
                data_ptr,
                data_len,
                encoding,
                target,
                graph_handle_ptr,
            );
            let handle = session.next_id as u32;
            if outcome.status == ErrNo::Success {
                &&& !session.graphs.contains_key(handle)
                &&& outcome.session.graphs.dom() == session.graphs.dom().insert(handle)
                &&& outcome.session.graphs[handle].backend.spec_target() == target
                &&& outcome.session.contexts == session.contexts
                &&& word_at(outcome.memory, graph_handle_ptr as int) == handle
            } else {
                outcome.session == session && outcome.memory == memory
            }
        }),
{
    lemma_word_roundtrip(session.next_id as u32);
}

/// Graphs come from `load` alone: no other operation adds, removes or
/// changes a graph.
pub proof fn law_only_load_changes_graphs(
    session: SessionView,
    memory: Seq<u8>,
    handle: u32,
    index: u32,
    first_ptr: u32,
    max_size: u32,
    second_ptr: u32,
    output: TensorView,
)
    ensures
        spec_init_execution_context(session, memory, handle, first_ptr).session.graphs
            == session.graphs,
        spec_set_input(session, memory, handle, index, first_ptr).session.graphs == session.graphs,
        spec_store_output(session, handle, output).1.graphs == session.graphs,
        spec_get_output(
            session,
            memory,
            handle,
            index,
            first_ptr,
            max_size,
            second_ptr,
        ).session == session,
{
}

/// A context that `init_execution_context` creates has the backend and the
/// kind of its graph, remembers the graph's handle, and is registered under
/// the handle that is written to memory.
pub proof fn law_context_matches_its_graph(
    session: SessionView,
    memory: Seq<u8>,
    graph_handle: u32,
    ctx_handle_ptr: u32,
)
    requires
        session.wf(),
        spec_init_execution_context(session, memory, graph_handle, ctx_handle_ptr).status
            == ErrNo::Success,
    ensures
        ({
            let outcome = spec_init_execution_context(
                session,
                memory,
                graph_handle,
                ctx_handle_ptr,
            );
            let handle = session.next_id as u32;
            &&& word_at(outcome.memory, ctx_handle_ptr as int) == handle
            &&& !session.contexts.contains_key(handle)
            &&& outcome.session.contexts.contains_key(handle)
            &&& outcome.session.contexts[handle].tag() == session.graphs[graph_handle]
            &&& outcome.session.contexts[handle].graph == graph_handle
            &&& outcome.session.contexts[handle].state == ContextState::Squeezenet(
                SqueezenetView::empty(),
            )
        }),
{
    lemma_word_roundtrip(session.next_id as u32);
}

/// Every operation keeps a session well-formed, never lowers the next
/// handle, and keeps every context with a loaded graph of its own backend
/// and kind.
pub proof fn law_operations_keep_sessions_sound(
    session: SessionView,
    memory: Seq<u8>,
    load: LoadCall,
    handle: u32,
    index: u32,
    pointer: u32,
    output: TensorView,
)
    requires
        session.wf(),
    ensures
        ({
            let loaded = load.outcome(session, memory).session;
            let opened = spec_init_execution_context(session, memory, handle, pointer).session;
            let bound = spec_set_input(session, memory, handle, index, pointer).session;
            let stored = spec_store_output(session, handle, output).1;
            &&& loaded.wf() && opened.wf() && bound.wf() && stored.wf()
            &&& loaded.next_id >= session.next_id && opened.next_id >= session.next_id
            &&& bound.next_id == session.next_id && stored.next_id == session.next_id
            &&& session.consistent() ==> loaded.consistent() && opened.consistent()
                && bound.consistent() && stored.consistent()
        }),
{
    let loaded = load.outcome(session, memory).session;
    if session.consistent() {
        assert forall|h: u32| #[trigger] loaded.contexts.contains_key(h) implies {
            loaded.graphs.contains_key(loaded.contexts[h].graph) && loaded.graphs[loaded.contexts[h].graph]
                == loaded.contexts[h].tag()
        } by {
            assert(session.contexts.contains_key(h));
            assert(session.graphs.contains_key(session.contexts[h].graph));
        }
    }
}

/// Binding an input, computing and reading the output back succeed at every
/// step on a freshly created context of a sound session, where the tensor
/// decodes and fills its shape, the output fits in the room offered, and
/// the destination and the location of the byte count lie in memory apart
/// from each other. The bytes read back are the elements of the model's
/// output, four bytes each, and the count is their number.
pub proof fn law_bind_compute_read(
    session: SessionView,
    memory: Seq<u8>,
    ctx_handle: u32,
    input_tensor_ptr: u32,
    output: TensorView,
    output_ptr: u32,
    output_max_size: u32,
    output_written_len_ptr: u32,
)
    requires
        session.wf(),
        session.consistent(),
        session.contexts.contains_key(ctx_handle),
        session.contexts[ctx_handle].state == ContextState::Squeezenet(SqueezenetView::empty()),
        spec_decode_tensor(memory, input_tensor_ptr as int, INPUT_DIM as int) is Ok,
        spec_decode_tensor(memory, input_tensor_ptr as int, INPUT_DIM as int)->Ok_0.wf(),
        4 * output.data.len() <= output_max_size,
        in_range(memory.len(), output_ptr as int, (4 * output.data.len()) as int),
        in_range(memory.len(), output_written_len_ptr as int, 4),
        output_written_len_ptr + 4 <= output_ptr || output_ptr + 4 * output.data.len()
            <= output_written_len_ptr,
    ensures
        ({
            let tensor = spec_decode_tensor(memory, input_tensor_ptr as int, INPUT_DIM as int)->Ok_0;
            let bound = spec_set_input(session, memory, ctx_handle, INPUT_INDEX, input_tensor_ptr);
            let stored = spec_store_output(bound.session, ctx_handle, output);
            let read = spec_get_output(
                stored.1,
                bound.memory,
                ctx_handle,
                0,
                output_ptr,
                output_max_size,
                output_written_len_ptr,
            );
            &&& bound.status == ErrNo::Success
            &&& spec_compute_input(bound.session, ctx_handle) == Ok::<(Backend, TensorView), ErrNo>(
                (session.contexts[ctx_handle].backend, tensor),
            )
            &&& stored.0 == ErrNo::Success
            &&& read.status == ErrNo::Success
            &&& read.memory.len() == memory.len()
            &&& read.memory.subrange(output_ptr as int, output_ptr + 4 * output.data.len())
                == bytes_of(output.data)
            &&& word_at(read.memory, output_written_len_ptr as int) == 4 * output.data.len()
        }),
{
    let size = (4 * output.data.len()) as u32;
    let bound = spec_set_input(session, memory, ctx_handle, INPUT_INDEX, input_tensor_ptr);
    let stored = spec_store_output(bound.session, ctx_handle, output);
    let read = spec_get_output(
        stored.1,
        bound.memory,
        ctx_handle,
        0,
        output_ptr,
        output_max_size,
        output_written_len_ptr,
    );
    assert(session.graphs.contains_key(session.contexts[ctx_handle].graph));
    assert(bound.session.contexts[ctx_handle].inputs().contains_key(INPUT_INDEX));
    assert(stored.1.contexts[ctx_handle].outputs() =~= seq![output]);
    lemma_word_roundtrip(size);
    let filled = overwrite(memory, output_ptr as int, bytes_of(output.data));
    assert(read.memory == overwrite(filled, output_written_len_ptr as int, word_bytes(size)));
    assert(read.memory.subrange(output_ptr as int, output_ptr + 4 * output.data.len()) =~= bytes_of(
        output.data,
    ));
}

/// A failed `get_output` leaves the destination as it was; one whose
/// output is larger than the room offered reports so.
pub proof fn law_output_must_fit(
    session: SessionView,
    memory: Seq<u8>,
    ctx_handle: u32,
    output_index: u32,
    output_ptr: u32,
    output_max_size: u32,
    output_written_len_ptr: u32,
)
    ensures
        ({
            let read = spec_get_output(
                session,
                memory,
                ctx_handle,
                output_index,
                output_ptr,
                output_max_size,
                output_written_len_ptr,
            );
            &&& read.status != ErrNo::Success ==> read.memory == memory
            &&& (session.contexts.contains_key(ctx_handle) && session.contexts[ctx_handle].kind()
                == ModelKind::Squeezenet && output_index
                < session.contexts[ctx_handle].outputs().len() && 4
                * session.contexts[ctx_handle].outputs()[output_index as int].data.len()
                > output_max_size) ==> read.status == ErrNo::TooLarge
        }),
{
}

/// An operation that is not implemented reports so whatever its arguments
/// are, well-formed or not, and changes nothing.
pub proof fn law_unimplemented_operations_report_unsupported<
    F: Fn(Backend, &Tensor<INPUT_DIM>) -> Tensor<OUTPUT_DIM>,
>(
    before: SessionView,
    memory_before: Seq<u8>,
    operation: HostCall,
    args: Seq<WasmArg>,
    forward: F,
    status: ErrNo,
    after: SessionView,
    memory_after: Seq<u8>,
)
    requires
        operation == HostCall::LoadByName || operation == HostCall::LoadByNameWithConfig
            || operation == HostCall::Unload || operation == HostCall::ComputeSingle || operation
            == HostCall::FiniSingle || operation == HostCall::GetOutputSingle,
        called(before, memory_before, operation, args, forward, status, after, memory_after),
    ensures
        status == ErrNo::UnsupportedOperation,
        after == before,
        memory_after == memory_before,
{
}

/// Only `load`, `init_execution_context` and `get_output` ever write to the
/// caller's memory, and no operation changes its size.
pub proof fn law_memory_is_written_by_three_operations<
    F: Fn(Backend, &Tensor<INPUT_DIM>) -> Tensor<OUTPUT_DIM>,
>(
    before: SessionView,
    memory_before: Seq<u8>,
    operation: HostCall,
    args: Seq<WasmArg>,
    forward: F,
    status: ErrNo,
    after: SessionView,
    memory_after: Seq<u8>,
)
    requires
        called(before, memory_before, operation, args, forward, status, after, memory_after),
    ensures
        !operation.spec_writes_memory() ==> memory_after == memory_before,
        memory_after.len() == memory_before.len(),
{
}

} // verus!
