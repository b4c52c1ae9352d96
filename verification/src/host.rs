//! The operations that a host offers to its callers by name, and the
//! dispatch of one call with its raw arguments.
use vstd::prelude::*;
use crate::backends::Backend;
use crate::errno::ErrNo;
use crate::memory::ForeignBuffer;
use crate::session::{
    spec_get_output, spec_init_execution_context, spec_load, spec_set_input, SessionView,
};
use crate::squeezenet::{INPUT_DIM, OUTPUT_DIM};
use crate::tensor::Tensor;
use crate::wasi_nn::{computed, WasiNN};

verus! {

/// An operation of the interface.
#[derive(Clone, Copy, Debug, PartialEq, Eq, Structural)]
pub enum HostCall {
    Load,
    Unload,
    LoadByName,
    LoadByNameWithConfig,
    InitExecutionContext,
    SetInput,
    Compute,
    ComputeSingle,
    FiniSingle,
    GetOutput,
    GetOutputSingle,
}

impl HostCall {
    /// The operation does something; the others only report that they are
    /// not supported.
    pub open spec fn is_implemented(self) -> bool {
        self == HostCall::Load || self == HostCall::InitExecutionContext || self
            == HostCall::SetInput || self == HostCall::Compute || self == HostCall::GetOutput
    }

    /// The operation may write to the caller's memory.
    pub open spec fn spec_writes_memory(self) -> bool {
        self == HostCall::Load || self == HostCall::InitExecutionContext || self
            == HostCall::GetOutput
    }

    /// Number of 32-bit arguments that the operation takes.
    pub open spec fn spec_param_count(self) -> nat {
        match self {
            HostCall::Load => 5,
            HostCall::Unload => 1,
            HostCall::LoadByName => 3,
            HostCall::LoadByNameWithConfig => 5,
            HostCall::InitExecutionContext => 2,
            HostCall::SetInput => 3,
            HostCall::Compute => 1,
            HostCall::ComputeSingle => 1,
            HostCall::FiniSingle => 1,
            HostCall::GetOutput => 5,
            HostCall::GetOutputSingle => 5,
        }
    }

    /// The name under which the operation is offered.
    pub open spec fn spec_name(self) -> Seq<char> {
        match self {
            HostCall::Load => "load"@,
            HostCall::Unload => "unload"@,
            HostCall::LoadByName => "load_by_name"@,
            HostCall::LoadByNameWithConfig => "load_by_name_with_config"@,
            HostCall::InitExecutionContext => "init_execution_context"@,
            HostCall::SetInput => "set_input"@,
            HostCall::Compute => "compute"@,
            HostCall::ComputeSingle => "compute_single"@,
            HostCall::FiniSingle => "fini_single"@,
            HostCall::GetOutput => "get_output"@,
            HostCall::GetOutputSingle => "get_output_single"@,
        }
    }

    /// Tells whether the operation is implemented.
    pub fn implemented(self) -> (implemented: bool)
        ensures
            implemented == self.is_implemented(),
    {
        match self {
            HostCall::Load => true,
            HostCall::InitExecutionContext => true,
            HostCall::SetInput => true,
            HostCall::Compute => true,
            HostCall::GetOutput => true,
            _ => false,
        }
    }

    /// Tells whether the operation may write to the caller's memory. A call
    /// of any other operation leaves every byte as it was.
    pub fn writes_memory(self) -> (writes: bool)
        ensures
            writes == self.spec_writes_memory(),
    {
        match self {
            HostCall::Load => true,
            HostCall::InitExecutionContext => true,
            HostCall::GetOutput => true,
            _ => false,
        }
    }

    /// Returns the number of 32-bit arguments that the operation takes.
    pub fn param_count(self) -> (count: usize)
        ensures
            count == self.spec_param_count(),
    {
        match self {
            HostCall::Load => 5,
            HostCall::Unload => 1,
            HostCall::LoadByName => 3,
            HostCall::LoadByNameWithConfig => 5,
            HostCall::InitExecutionContext => 2,
            HostCall::SetInput => 3,
            HostCall::Compute => 1,
            HostCall::ComputeSingle => 1,
            HostCall::FiniSingle => 1,
            HostCall::GetOutput => 5,
            HostCall::GetOutputSingle => 5,
        }
    }

    /// Returns the name under which the operation is offered.
    pub fn name(self) -> (name: &'static str)
        ensures
            name@ == self.spec_name(),
    {
        match self {
            HostCall::Load => "load",
            HostCall::Unload => "unload",
            HostCall::LoadByName => "load_by_name",
            HostCall::LoadByNameWithConfig => "load_by_name_with_config",
            HostCall::InitExecutionContext => "init_execution_context",
            HostCall::SetInput => "set_input",
            HostCall::Compute => "compute",
            HostCall::ComputeSingle => "compute_single",
            HostCall::FiniSingle => "fini_single",
            HostCall::GetOutput => "get_output",
            HostCall::GetOutputSingle => "get_output_single",
        }
    }
}

/// A value that a caller passes: a 32-bit integer, or a value of any other
/// type.
#[derive(Clone, Copy, Debug, PartialEq, Eq, Structural)]
pub enum WasmArg {
    I32(i32),
    Other,
}

/// The 32-bit word that a signed integer stands for: pointers, lengths,
/// handles and tags are unsigned, and a caller passes every one of them as
/// the signed integer with the same bits.
pub open spec fn spec_word(value: i32) -> u32 {
    if value >= 0 {
        value as u32
    } else {
        (value + 0x1_0000_0000) as u32
    }
}

/// Returns the 32-bit word with the bits of `value`.
pub fn word(value: i32) -> (word: u32)
    ensures
        word == spec_word(value),
{
    if value >= 0 {
        value as u32
    } else {
        (value as i64 + 0x1_0000_0000) as u32
    }
}

/// Every argument is a 32-bit integer.
pub open spec fn all_words(args: Seq<WasmArg>) -> bool {
    forall|i: int| 0 <= i < args.len() ==> #[trigger] args[i] is I32
}

/// The words that the arguments stand for, where each is a 32-bit integer.
pub open spec fn spec_words(args: Seq<WasmArg>) -> Seq<u32> {
    Seq::new(args.len(), |i: int| spec_word(args[i]->I32_0))
}

/// The arguments fit an operation that takes `count` 32-bit integers.
pub open spec fn well_formed_args(args: Seq<WasmArg>, count: nat) -> bool {
    args.len() == count && all_words(args)
}

/// Reads the arguments of an operation that takes `count` 32-bit integers;
/// `None` where their number or the type of one of them is wrong.
pub fn decode_args(args: &Vec<WasmArg>, count: usize) -> (words: Option<Vec<u32>>)
    ensures
        words is Some <==> well_formed_args(args@, count as nat),
        words matches Some(w) ==> w@ == spec_words(args@),
{
    if args.len() != count {
        return None;
    }
    let mut words: Vec<u32> = Vec::new();
    let mut i: usize = 0;
    while i < args.len()
        invariant
            i <= args.len(),
            words@.len() == i,
            forall|j: int| 0 <= j < i ==> #[trigger] args@[j] is I32,
            forall|j: int| 0 <= j < i ==> words@[j] == spec_word(args@[j]->I32_0),
        decreases args.len() - i,
    {
        match args[i] {
            WasmArg::I32(value) => {
                words.push(word(value));
            },
            WasmArg::Other => {
                assert(!(args@[i as int] is I32));
                return None;
            },
        }
        i += 1;
    }
    assert(words@ =~= spec_words(args@));
    Some(words)
}

/// One call of `operation` with `args` on `before` and `memory_before` may
/// report `status` and leave `after` and `memory_after`.
///
/// An operation that is not implemented reports so, whatever the arguments.
/// An implemented one rejects arguments of the wrong number or type as
/// invalid. In both cases nothing changes. Otherwise the operation runs on
/// the words of its arguments, in the order of its parameters.
pub open spec fn called<F: Fn(Backend, &Tensor<INPUT_DIM>) -> Tensor<OUTPUT_DIM>>(
    before: SessionView,
    memory_before: Seq<u8>,
    operation: HostCall,
    args: Seq<WasmArg>,
    forward: F,
    status: ErrNo,
    after: SessionView,
    memory_after: Seq<u8>,
) -> bool {
    let w = spec_words(args);
    if !operation.is_implemented() {
        status == ErrNo::UnsupportedOperation && after == before && memory_after == memory_before
    } else if !well_formed_args(args, operation.spec_param_count()) {
        status == ErrNo::InvalidArgument && after == before && memory_after == memory_before
    } else if operation == HostCall::Load {
        let outcome = spec_load(before, memory_before, w[0], w[1], w[2], w[3], w[4]);
        status == outcome.status && after == outcome.session && memory_after == outcome.memory
    } else if operation == HostCall::InitExecutionContext {
        let outcome = spec_init_execution_context(before, memory_before, w[0], w[1]);
        status == outcome.status && after == outcome.session && memory_after == outcome.memory
    } else if operation == HostCall::SetInput {
        let outcome = spec_set_input(before, memory_before, w[0], w[1], w[2]);
        status == outcome.status && after == outcome.session && memory_after == outcome.memory
    } else if operation == HostCall::Compute {
        computed(before, w[0], forward, status, after) && memory_after == memory_before
    } else {
        let outcome = spec_get_output(before, memory_before, w[0], w[1], w[2], w[3], w[4]);
        status == outcome.status && after == outcome.session && memory_after == outcome.memory
    }
}

impl WasiNN {
    /// Performs one call of the interface: `operation` with the raw
    /// arguments `args`, on the caller's `memory`, with `forward` as the
    /// model's forward pass.
    pub fn call<F: Fn(Backend, &Tensor<INPUT_DIM>) -> Tensor<OUTPUT_DIM>>(
        &mut self,
        operation: HostCall,
        args: &Vec<WasmArg>,
        memory: &mut ForeignBuffer,
        forward: F,
    ) -> (status: ErrNo)
        requires
            forall|backend: Backend, input: Tensor<INPUT_DIM>|
                input@.wf() ==> forward.requires((backend, &input)),
        ensures
            called(
                old(self)@,
                old(memory)@,
                operation,
                args@,
                forward,
                status,
                final(self)@,
                final(memory)@,
            ),
            final(self)@.wf(),
            final(self)@.consistent(),
    {
        if !operation.implemented() {
            proof {
                use_type_invariant(&*self);
                self.lemma_well_formed();
            }
            return ErrNo::UnsupportedOperation;
        }
        let words = match decode_args(args, operation.param_count()) {
            Some(words) => words,
            None => {
                proof {
                    use_type_invariant(&*self);
                self.lemma_well_formed();
                }
                return ErrNo::InvalidArgument;
            },
        };
        match operation {
            HostCall::Load => self.load(words[0], words[1], words[2], words[3], words[4], memory),
            HostCall::InitExecutionContext => self.init_execution_context(
                words[0],
                words[1],
                memory,
            ),
            HostCall::SetInput => self.set_input(words[0], words[1], words[2], memory),
            HostCall::Compute => self.compute(words[0], forward),
            HostCall::GetOutput => {
                proof {
                    use_type_invariant(&*self);
                self.lemma_well_formed();
                }
                self.get_output(words[0], words[1], words[2], words[3], words[4], memory)
            },
            _ => ErrNo::UnsupportedOperation,
        }
    }
}

} // verus!
