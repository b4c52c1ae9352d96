use wasi_nn_burn::backends::{backend_has_devices, Backend, MAX_TYPE_IDS, TARGET_CPU, TARGET_GPU};
use wasi_nn_burn::bytes::{decode_words, encode_word, encode_words, push_word, read_word};
use wasi_nn_burn::descriptor::{
    decode_tensor, DecodeError, TensorDescriptor, DESCRIPTOR_SIZE,
};
use wasi_nn_burn::memory::{ForeignBuffer, OutOfRange};
use wasi_nn_burn::squeezenet::{SqueezenetContext, INPUT_DIM, INPUT_INDEX, OUTPUT_DIM};
use wasi_nn_burn::tensor::{element_count, Tensor};

fn buffer_with(size: usize, parts: &[(usize, Vec<u8>)]) -> ForeignBuffer {
    let mut bytes = vec![0u8; size];
    for (offset, part) in parts {
        bytes[*offset..*offset + part.len()].copy_from_slice(part);
    }
    ForeignBuffer::new(bytes)
}

fn words(values: &[u32]) -> Vec<u8> {
    encode_words(&values.to_vec())
}

#[test]
fn a_word_is_stored_lowest_byte_first() {
    assert_eq!(encode_word(0x1234_5678), vec![0x78, 0x56, 0x34, 0x12]);
    assert_eq!(encode_word(0), vec![0, 0, 0, 0]);
    assert_eq!(encode_word(u32::MAX), vec![0xff, 0xff, 0xff, 0xff]);
    assert_eq!(encode_word(1), 1u32.to_le_bytes().to_vec());
}

#[test]
fn a_word_is_read_where_it_starts() {
    let bytes = vec![0xaa, 0x78, 0x56, 0x34, 0x12, 0xbb];
    assert_eq!(read_word(&bytes, 1), 0x1234_5678);
    assert_eq!(read_word(&bytes, 0), 0x3456_78aa);
    assert_eq!(read_word(&bytes, 2), 0xbb12_3456);
}

#[test]
fn push_word_appends_four_bytes() {
    let mut out = vec![9u8];
    push_word(&mut out, 0x0102_0304);
    assert_eq!(out, vec![9, 4, 3, 2, 1]);
}

#[test]
fn words_survive_a_round_trip() {
    let values = vec![0u32, 1, 255, 256, 65535, 65536, 0x8000_0000, u32::MAX, 0xdead_beef];
    let bytes = encode_words(&values);
    assert_eq!(bytes.len(), 4 * values.len());
    assert_eq!(decode_words(&bytes), values);
    for (i, value) in values.iter().enumerate() {
        assert_eq!(&bytes[4 * i..4 * i + 4], &value.to_le_bytes());
    }
}

#[test]
fn bytes_of_whole_words_survive_a_round_trip() {
    let bytes: Vec<u8> = (0u8..16).collect();
    assert_eq!(encode_words(&decode_words(&bytes)), bytes);
}

#[test]
fn decode_words_leaves_a_partial_word_out() {
    let bytes = vec![1, 0, 0, 0, 2, 0, 0, 0, 7, 7];
    assert_eq!(decode_words(&bytes), vec![1, 2]);
    assert_eq!(decode_words(&vec![1, 2, 3]), Vec::<u32>::new());
    assert_eq!(decode_words(&Vec::new()), Vec::<u32>::new());
}

#[test]
fn the_bits_of_a_float_are_its_word() {
    let bytes = encode_words(&vec![2.0f32.to_bits()]);
    assert_eq!(bytes, vec![0x00, 0x00, 0x00, 0x40]);
    assert_eq!(f32::from_bits(decode_words(&bytes)[0]), 2.0f32);
}

#[test]
fn reads_are_bounds_checked() {
    let buffer = ForeignBuffer::new(vec![10, 11, 12, 13, 14]);
    assert_eq!(buffer.len(), 5);
    assert_eq!(buffer.read_bytes(1, 3), Ok(vec![11, 12, 13]));
    assert_eq!(buffer.read_bytes(0, 5), Ok(vec![10, 11, 12, 13, 14]));
    assert_eq!(buffer.read_bytes(5, 0), Ok(vec![]));
    assert_eq!(buffer.read_bytes(3, 3), Err(OutOfRange));
    assert_eq!(buffer.read_bytes(6, 0), Err(OutOfRange));
    assert_eq!(buffer.read_bytes(usize::MAX, 2), Err(OutOfRange));
    assert_eq!(buffer.read_bytes(2, usize::MAX), Err(OutOfRange));
    assert!(buffer.contains_range(0, 5));
    assert!(!buffer.contains_range(1, 5));
}

#[test]
fn writes_are_bounds_checked_and_all_or_nothing() {
    let mut buffer = ForeignBuffer::new(vec![0; 6]);
    assert_eq!(buffer.write_bytes(2, &[7, 8, 9]), Ok(()));
    assert_eq!(buffer.as_bytes(), &vec![0, 0, 7, 8, 9, 0]);
    assert_eq!(buffer.write_bytes(4, &[1, 2, 3]), Err(OutOfRange));
    assert_eq!(buffer.as_bytes(), &vec![0, 0, 7, 8, 9, 0]);
    assert_eq!(buffer.write_bytes(6, &[]), Ok(()));
    assert_eq!(buffer.write_bytes(7, &[]), Err(OutOfRange));
    assert_eq!(buffer.write_bytes(3, &[1, 2, 3]), Ok(()));
    assert_eq!(buffer.into_bytes(), vec![0, 0, 7, 1, 2, 3]);
}

#[test]
fn a_written_word_is_read_back() {
    let mut buffer = ForeignBuffer::new(vec![0xee; 8]);
    assert_eq!(buffer.write_u32(3, 0x0a0b_0c0d), Ok(()));
    assert_eq!(buffer.as_bytes(), &vec![0xee, 0xee, 0xee, 0x0d, 0x0c, 0x0b, 0x0a, 0xee]);
    assert_eq!(buffer.read_u32(3), Ok(0x0a0b_0c0d));
    assert_eq!(buffer.read_u32(5), Err(OutOfRange));
    assert_eq!(buffer.write_u32(5, 1), Err(OutOfRange));
    assert_eq!(buffer.read_u32(4), Ok(0xee0a_0b0c));
}

#[test]
fn element_count_is_the_product_of_the_dimensions() {
    assert_eq!(element_count(&[1, 3, 224, 224]), Some(150528));
    assert_eq!(element_count(&[1, 1000]), Some(1000));
    assert_eq!(element_count(&[]), Some(1));
    assert_eq!(element_count(&[7]), Some(7));
    assert_eq!(element_count(&[2, 0, 5]), Some(0));
}

#[test]
fn element_count_reports_what_does_not_fit() {
    assert_eq!(element_count(&[usize::MAX, 2]), None);
    assert_eq!(element_count(&[usize::MAX, 1, 1]), Some(usize::MAX));
    assert_eq!(element_count(&[usize::MAX, usize::MAX, 0]), Some(0));
    assert_eq!(element_count(&[0, usize::MAX, usize::MAX]), Some(0));
    assert_eq!(element_count(&[1 << 32, 1 << 32]), None);
}

#[test]
fn a_tensor_needs_as_many_elements_as_its_shape() {
    let tensor = Tensor::<OUTPUT_DIM>::new([2, 3], vec![1, 2, 3, 4, 5, 6]).unwrap();
    assert_eq!(tensor.shape(), &[2, 3]);
    assert_eq!(tensor.data(), &vec![1, 2, 3, 4, 5, 6]);
    assert_eq!(tensor.len(), 6);
    assert!(Tensor::<OUTPUT_DIM>::new([2, 3], vec![1, 2, 3, 4, 5]).is_none());
    assert!(Tensor::<OUTPUT_DIM>::new([2, 3], vec![0; 7]).is_none());
    assert!(Tensor::<OUTPUT_DIM>::new([usize::MAX, 2], vec![0; 2]).is_none());
    assert!(Tensor::<OUTPUT_DIM>::new([0, 3], vec![]).is_some());
    assert_eq!(tensor.into_data(), vec![1, 2, 3, 4, 5, 6]);
}

#[test]
fn a_tensor_serialises_four_bytes_for_each_element() {
    let tensor =
        Tensor::<OUTPUT_DIM>::new([1, 2], vec![1.5f32.to_bits(), (-2.0f32).to_bits()]).unwrap();
    assert_eq!(tensor.to_bytes(), vec![0x00, 0x00, 0xc0, 0x3f, 0x00, 0x00, 0x00, 0xc0]);
}

#[test]
fn a_descriptor_is_five_words() {
    let descriptor = TensorDescriptor {
        dimens_ptr: 64,
        dimens_length: 4,
        tensor_type: 1,
        tensor_ptr: 0x0001_0000,
        tensor_length: 602112,
    };
    let bytes = descriptor.encode();
    assert_eq!(bytes.len(), DESCRIPTOR_SIZE);
    assert_eq!(
        bytes,
        vec![64, 0, 0, 0, 4, 0, 0, 0, 1, 0, 0, 0, 0, 0, 1, 0, 0x00, 0x30, 0x09, 0x00]
    );
    assert_eq!(TensorDescriptor::decode(&bytes), Some(descriptor));
    assert_eq!(TensorDescriptor::decode(&bytes[..19].to_vec()), None);
    assert_eq!(TensorDescriptor::decode(&vec![0; 21]), None);
}

fn descriptor_bytes(dimens_ptr: u32, tensor_ptr: u32, tensor_length: u32) -> Vec<u8> {
    TensorDescriptor { dimens_ptr, dimens_length: 4, tensor_type: 1, tensor_ptr, tensor_length }
        .encode()
}

#[test]
fn a_tensor_is_decoded_through_its_descriptor() {
    let buffer = buffer_with(
        128,
        &[
            (8, descriptor_bytes(40, 64, 16)),
            (40, words(&[1, 1, 2, 2])),
            (64, words(&[10, 20, 30, 40])),
        ],
    );
    let decoded = decode_tensor(&buffer, 8, INPUT_DIM).ok().unwrap();
    assert_eq!(decoded.shape, vec![1, 1, 2, 2]);
    assert_eq!(decoded.data, vec![10, 20, 30, 40]);
}

#[test]
fn decoding_reads_exactly_the_asked_rank() {
    let mut descriptor = TensorDescriptor {
        dimens_ptr: 40,
        dimens_length: 9,
        tensor_type: 77,
        tensor_ptr: 64,
        tensor_length: 8,
    };
    let parts = [(40, words(&[3, 4, 5, 6])), (64, words(&[1, 2]))];
    let buffer = buffer_with(128, &[(0, descriptor.encode()), parts[0].clone(), parts[1].clone()]);
    let two = decode_tensor(&buffer, 0, 2).ok().unwrap();
    assert_eq!(two.shape, vec![3, 4]);
    assert_eq!(two.data, vec![1, 2]);
    descriptor.dimens_length = 0;
    let buffer = buffer_with(128, &[(0, descriptor.encode()), parts[0].clone(), parts[1].clone()]);
    let four = decode_tensor(&buffer, 0, 4).ok().unwrap();
    assert_eq!(four.shape, vec![3, 4, 5, 6]);
}

#[test]
fn a_descriptor_outside_memory_is_missing_memory() {
    let buffer = buffer_with(64, &[(44, descriptor_bytes(0, 0, 0))]);
    assert!(decode_tensor(&buffer, 44, INPUT_DIM).is_ok());
    assert_eq!(decode_tensor(&buffer, 45, INPUT_DIM).err(), Some(DecodeError::MissingMemory));
    assert_eq!(decode_tensor(&buffer, 64, INPUT_DIM).err(), Some(DecodeError::MissingMemory));
    assert_eq!(decode_tensor(&buffer, u32::MAX, INPUT_DIM).err(), Some(DecodeError::MissingMemory));
}

#[test]
fn dimensions_or_elements_outside_memory_are_out_of_bounds() {
    let dims_outside = buffer_with(64, &[(0, descriptor_bytes(49, 32, 4))]);
    assert_eq!(decode_tensor(&dims_outside, 0, INPUT_DIM).err(), Some(DecodeError::OutOfBounds));
    let dims_inside = buffer_with(64, &[(0, descriptor_bytes(48, 32, 4))]);
    assert!(decode_tensor(&dims_inside, 0, INPUT_DIM).is_ok());
    let data_outside = buffer_with(64, &[(0, descriptor_bytes(32, 60, 8))]);
    assert_eq!(decode_tensor(&data_outside, 0, INPUT_DIM).err(), Some(DecodeError::OutOfBounds));
    let far = buffer_with(64, &[(0, descriptor_bytes(0xffff_fff0, 32, 4))]);
    assert_eq!(decode_tensor(&far, 0, INPUT_DIM).err(), Some(DecodeError::OutOfBounds));
    let huge_rank = buffer_with(64, &[(0, descriptor_bytes(32, 32, 4))]);
    assert_eq!(decode_tensor(&huge_rank, 0, usize::MAX).err(), Some(DecodeError::OutOfBounds));
}

#[test]
fn elements_must_be_whole() {
    let buffer = buffer_with(64, &[(0, descriptor_bytes(32, 48, 6))]);
    assert_eq!(decode_tensor(&buffer, 0, INPUT_DIM).err(), Some(DecodeError::PartialElement));
}

#[test]
fn targets_select_backends() {
    assert_eq!(Backend::from_target(0), Some(Backend::NdArray));
    assert_eq!(Backend::from_target(1), Some(Backend::Wgpu));
    assert_eq!(Backend::from_target(2), None);
    assert_eq!(Backend::from_target(u32::MAX), None);
    assert_eq!(Backend::NdArray.target(), TARGET_CPU);
    assert_eq!(Backend::Wgpu.target(), TARGET_GPU);
    assert_eq!(TARGET_CPU, 0);
    assert_eq!(TARGET_GPU, 1);
}

#[test]
fn a_backend_has_devices_if_any_family_has_one() {
    assert_eq!(MAX_TYPE_IDS, 4);
    assert!(!backend_has_devices(&vec![0, 0, 0, 0]));
    assert!(backend_has_devices(&vec![0, 0, 0, 1]));
    assert!(backend_has_devices(&vec![2, 0, 0, 0]));
    assert!(!backend_has_devices(&vec![]));
}

#[test]
fn a_context_binds_and_replaces_inputs() {
    let mut context = SqueezenetContext::new();
    assert!(context.input(INPUT_INDEX).is_none());
    assert!(context.set_input(0, &[1, 2, 3, 4], [1, 1, 2, 2]));
    assert_eq!(context.input(0).unwrap().data(), &vec![1, 2, 3, 4]);
    assert_eq!(context.input(0).unwrap().shape(), &[1, 1, 2, 2]);
    assert!(!context.set_input(0, &[1, 2, 3], [1, 1, 2, 2]));
    assert_eq!(context.input(0).unwrap().data(), &vec![1, 2, 3, 4]);
    assert!(context.set_input(0, &[9, 8], [1, 2, 1, 1]));
    assert_eq!(context.input(0).unwrap().data(), &vec![9, 8]);
    assert!(context.set_input(5, &[7], [1, 1, 1, 1]));
    assert_eq!(context.input(5).unwrap().data(), &vec![7]);
    assert!(context.input(1).is_none());
}

#[test]
fn a_context_keeps_its_outputs_in_order() {
    let mut context = SqueezenetContext::new();
    assert_eq!(context.get_output(0), None);
    context.push_output(Tensor::<OUTPUT_DIM>::new([1, 2], vec![5, 6]).unwrap());
    context.push_output(Tensor::<OUTPUT_DIM>::new([1, 1], vec![7]).unwrap());
    assert_eq!(context.get_output(0), Some(vec![5, 6]));
    assert_eq!(context.get_output(1), Some(vec![7]));
    assert_eq!(context.get_output(2), None);
    assert_eq!(context.output(1).unwrap().shape(), &[1, 1]);
    assert!(context.output(2).is_none());
}
