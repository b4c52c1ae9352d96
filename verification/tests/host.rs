use wasi_nn_burn::backends::Backend;
use wasi_nn_burn::errno::ErrNo;
use wasi_nn_burn::host::{decode_args, word, HostCall, WasmArg};
use wasi_nn_burn::memory::ForeignBuffer;
use wasi_nn_burn::squeezenet::{INPUT_DIM, OUTPUT_DIM};
use wasi_nn_burn::tensor::Tensor;
use wasi_nn_burn::wasi_nn::WasiNN;

const ALL: [HostCall; 11] = [
    HostCall::Load,
    HostCall::Unload,
    HostCall::LoadByName,
    HostCall::LoadByNameWithConfig,
    HostCall::InitExecutionContext,
    HostCall::SetInput,
    HostCall::Compute,
    HostCall::ComputeSingle,
    HostCall::FiniSingle,
    HostCall::GetOutput,
    HostCall::GetOutputSingle,
];

const STUBS: [HostCall; 6] = [
    HostCall::LoadByName,
    HostCall::LoadByNameWithConfig,
    HostCall::Unload,
    HostCall::ComputeSingle,
    HostCall::FiniSingle,
    HostCall::GetOutputSingle,
];

fn row(_backend: Backend, input: &Tensor<INPUT_DIM>) -> Tensor<OUTPUT_DIM> {
    Tensor::new([1, input.len()], input.data().clone()).unwrap()
}

fn ints(values: &[i32]) -> Vec<WasmArg> {
    values.iter().map(|v| WasmArg::I32(*v)).collect()
}

/// Descriptor at 32, dimensions [1, 1, 1, 2] at 64, elements 7 and 9 at 96.
fn memory() -> ForeignBuffer {
    let mut bytes = vec![0u8; 256];
    let layout: [(usize, u32); 11] = [
        (32, 64),
        (36, 4),
        (40, 1),
        (44, 96),
        (48, 8),
        (64, 1),
        (68, 1),
        (72, 1),
        (76, 2),
        (96, 7),
        (100, 9),
    ];
    for (offset, value) in layout {
        bytes[offset..offset + 4].copy_from_slice(&value.to_le_bytes());
    }
    ForeignBuffer::new(bytes)
}

#[test]
fn operations_have_their_names_and_arities() {
    let expected = [
        ("load", 5),
        ("unload", 1),
        ("load_by_name", 3),
        ("load_by_name_with_config", 5),
        ("init_execution_context", 2),
        ("set_input", 3),
        ("compute", 1),
        ("compute_single", 1),
        ("fini_single", 1),
        ("get_output", 5),
        ("get_output_single", 5),
    ];
    for (operation, (name, count)) in ALL.iter().zip(expected.iter()) {
        assert_eq!(operation.name(), *name);
        assert_eq!(operation.param_count(), *count);
        assert_eq!(operation.implemented(), !STUBS.contains(operation));
        let writes = [HostCall::Load, HostCall::InitExecutionContext, HostCall::GetOutput];
        assert_eq!(operation.writes_memory(), writes.contains(operation));
    }
}

#[test]
fn a_signed_argument_stands_for_the_word_with_its_bits() {
    assert_eq!(word(0), 0);
    assert_eq!(word(1), 1);
    assert_eq!(word(i32::MAX), 0x7fff_ffff);
    assert_eq!(word(-1), u32::MAX);
    assert_eq!(word(i32::MIN), 0x8000_0000);
    assert_eq!(word(-2), (-2i32) as u32);
}

#[test]
fn arguments_must_match_in_number_and_type() {
    assert_eq!(decode_args(&ints(&[1, -1, 3]), 3), Some(vec![1, u32::MAX, 3]));
    assert_eq!(decode_args(&ints(&[1, 2, 3]), 2), None);
    assert_eq!(decode_args(&ints(&[1, 2, 3]), 4), None);
    assert_eq!(decode_args(&vec![], 0), Some(vec![]));
    assert_eq!(decode_args(&vec![WasmArg::I32(1), WasmArg::Other], 2), None);
    assert_eq!(decode_args(&vec![WasmArg::Other], 1), None);
}

#[test]
fn stub_operations_are_unsupported_whatever_the_arguments() {
    let mut nn = WasiNN::new();
    let mut memory = memory();
    let before = memory.as_bytes().clone();
    let argument_lists = [
        vec![],
        ints(&[0]),
        ints(&[0, 0, 0]),
        ints(&[1, 2, 3, 4, 5]),
        ints(&[-1, -1, -1, -1, -1, -1, -1]),
        vec![WasmArg::Other],
        vec![WasmArg::I32(0), WasmArg::Other, WasmArg::I32(3)],
    ];
    for operation in STUBS {
        for args in argument_lists.iter() {
            assert_eq!(
                nn.call(operation, args, &mut memory, row),
                ErrNo::UnsupportedOperation
            );
        }
        let exact = ints(&vec![0; operation.param_count()]);
        assert_eq!(nn.call(operation, &exact, &mut memory, row), ErrNo::UnsupportedOperation);
    }
    assert_eq!(memory.as_bytes(), &before);
    assert_eq!(nn.graph_tag(0), None);
}

#[test]
fn implemented_operations_reject_malformed_arguments() {
    let mut nn = WasiNN::new();
    let mut memory = memory();
    let before = memory.as_bytes().clone();
    for operation in ALL {
        if !operation.implemented() {
            continue;
        }
        let count = operation.param_count();
        let short = ints(&vec![0; count - 1]);
        let long = ints(&vec![0; count + 1]);
        let mut mistyped = ints(&vec![0; count]);
        mistyped[count - 1] = WasmArg::Other;
        assert_eq!(nn.call(operation, &short, &mut memory, row), ErrNo::InvalidArgument);
        assert_eq!(nn.call(operation, &long, &mut memory, row), ErrNo::InvalidArgument);
        assert_eq!(nn.call(operation, &mistyped, &mut memory, row), ErrNo::InvalidArgument);
    }
    assert_eq!(memory.as_bytes(), &before);
    assert_eq!(nn.graph_tag(0), None);
}

#[test]
fn a_whole_session_runs_through_calls() {
    let mut nn = WasiNN::new();
    let mut memory = memory();
    assert_eq!(
        nn.call(HostCall::Load, &ints(&[0, 3, 8, 0, 16]), &mut memory, row),
        ErrNo::Success
    );
    assert_eq!(memory.read_u32(16), Ok(0));
    assert_eq!(
        nn.call(HostCall::InitExecutionContext, &ints(&[0, 20]), &mut memory, row),
        ErrNo::Success
    );
    assert_eq!(memory.read_u32(20), Ok(1));
    assert_eq!(
        nn.call(HostCall::SetInput, &ints(&[1, 0, 32]), &mut memory, row),
        ErrNo::Success
    );
    assert_eq!(nn.call(HostCall::Compute, &ints(&[1]), &mut memory, row), ErrNo::Success);
    assert_eq!(
        nn.call(HostCall::GetOutput, &ints(&[1, 0, 128, 8, 24]), &mut memory, row),
        ErrNo::Success
    );
    assert_eq!(memory.read_u32(24), Ok(8));
    assert_eq!(memory.read_bytes(128, 8), Ok(vec![7, 0, 0, 0, 9, 0, 0, 0]));
    assert_eq!(
        nn.call(HostCall::GetOutput, &ints(&[1, 0, 128, 7, 24]), &mut memory, row),
        ErrNo::TooLarge
    );
    assert_eq!(nn.call(HostCall::Compute, &ints(&[0]), &mut memory, row), ErrNo::NotFound);
}

#[test]
fn calls_report_what_the_operations_report() {
    let mut nn = WasiNN::new();
    let mut memory = memory();
    assert_eq!(
        nn.call(HostCall::Load, &ints(&[0, 3, 7, 0, 16]), &mut memory, row),
        ErrNo::InvalidEncoding
    );
    assert_eq!(
        nn.call(HostCall::Load, &ints(&[0, 3, 8, 2, 16]), &mut memory, row),
        ErrNo::InvalidArgument
    );
    assert_eq!(
        nn.call(HostCall::Load, &ints(&[0, 3, 8, -1, 16]), &mut memory, row),
        ErrNo::InvalidArgument
    );
    assert_eq!(
        nn.call(HostCall::Load, &ints(&[-4, 3, 8, 0, 16]), &mut memory, row),
        ErrNo::MissingMemory
    );
    assert_eq!(
        nn.call(HostCall::Load, &ints(&[0, 3, 8, 1, -4]), &mut memory, row),
        ErrNo::MissingMemory
    );
    assert_eq!(
        nn.call(HostCall::InitExecutionContext, &ints(&[-1, 20]), &mut memory, row),
        ErrNo::NotFound
    );
    assert_eq!(
        nn.call(HostCall::SetInput, &ints(&[0, 0, 32]), &mut memory, row),
        ErrNo::NotFound
    );
    assert_eq!(
        nn.call(HostCall::SetInput, &ints(&[0, 0, 250]), &mut memory, row),
        ErrNo::MissingMemory
    );
    assert_eq!(
        nn.call(HostCall::GetOutput, &ints(&[0, 0, 128, 8, 24]), &mut memory, row),
        ErrNo::NotFound
    );
}

#[test]
fn a_negative_index_names_the_input_with_its_bits() {
    let mut nn = WasiNN::new();
    let mut memory = memory();
    assert_eq!(
        nn.call(HostCall::Load, &ints(&[0, 3, 8, 1, 16]), &mut memory, row),
        ErrNo::Success
    );
    assert_eq!(
        nn.call(HostCall::InitExecutionContext, &ints(&[0, 20]), &mut memory, row),
        ErrNo::Success
    );
    assert_eq!(
        nn.call(HostCall::SetInput, &ints(&[1, -1, 32]), &mut memory, row),
        ErrNo::Success
    );
    assert_eq!(nn.call(HostCall::Compute, &ints(&[1]), &mut memory, row), ErrNo::InvalidArgument);
}
