use std::borrow::Cow;
use std::sync::Arc;

use web_rwkv::tensor::device::{COPY_DST, COPY_SRC, STORAGE};
use web_rwkv::tensor::{
    Buffer, CommandEncoder, CopyTensor, Scalar, TensorBuffer, TensorCpu, TensorError, TensorGpu,
    TensorShape,
};

fn shape(axes: [usize; 4]) -> TensorShape {
    let mut shape = TensorShape::default();
    for (axis, extent) in axes.into_iter().enumerate() {
        *shape.index_mut(axis) = extent;
    }
    shape
}

fn buffer(handle: &'static str, size: u64, offset: u64) -> TensorBuffer<&'static str> {
    TensorBuffer { buffer: Arc::new(Buffer { handle, size }), offset }
}

fn gpu(
    handle: &'static str,
    size: u64,
    offset: u64,
    axes: [usize; 4],
) -> Result<TensorGpu<'static, u8, &'static str, u32>, TensorError> {
    TensorGpu::new(1, shape(axes), Some("tensor"), buffer(handle, size, offset))
}

#[test]
fn shape_starts_empty_and_is_set_by_axis() {
    let mut shape = TensorShape::default();
    assert_eq!(shape.len(), 0);
    assert_eq!((shape[0], shape[1], shape[2], shape[3]), (0, 0, 0, 0));
    *shape.index_mut(2) = 7;
    assert_eq!((shape[0], shape[1], shape[2], shape[3]), (0, 0, 7, 0));
    assert_eq!(shape.to_string(), "(0, 0, 7, 0)");
}

#[test]
fn shape_len_is_the_product_of_the_axes() {
    assert_eq!(shape([2, 3, 5, 7]).len(), 210);
    assert_eq!(shape([2, 3, 0, 7]).len(), 0);
    assert_eq!(shape([usize::MAX, 1, 1, 1]).len(), usize::MAX);
    assert_eq!(shape([usize::MAX, 2, 0, 1]).len(), 0);
}

#[test]
fn shape_checked_len_refuses_what_is_no_usize() {
    assert_eq!(shape([2, 3, 5, 7]).checked_len(), Some(210));
    assert_eq!(shape([usize::MAX, 2, 1, 1]).checked_len(), None);
    assert_eq!(shape([usize::MAX, 1, 2, 1]).checked_len(), None);
    assert_eq!(shape([usize::MAX, 1, 1, 2]).checked_len(), None);
    assert_eq!(shape([usize::MAX, usize::MAX, 3, 0]).checked_len(), Some(0));
}

#[test]
fn shapes_are_equal_where_all_axes_are() {
    assert_eq!(shape([1, 2, 3, 4]), shape([1, 2, 3, 4]));
    assert_ne!(shape([0, 2, 3, 4]), shape([1, 2, 3, 4]));
    assert_ne!(shape([1, 0, 3, 4]), shape([1, 2, 3, 4]));
    assert_ne!(shape([1, 2, 0, 4]), shape([1, 2, 3, 4]));
    assert_ne!(shape([1, 2, 3, 0]), shape([1, 2, 3, 4]));
}

#[test]
fn scalars_have_their_sizes() {
    assert_eq!(u8::byte_size(), 1);
    assert_eq!(u16::byte_size(), std::mem::size_of::<half::f16>());
    assert_eq!(u32::byte_size(), std::mem::size_of::<f32>());
}

#[test]
fn scalars_are_cast_as_memory() {
    assert_eq!(u8::cast_to_bytes(&[1, 2, 250]), vec![1, 2, 250]);
    assert_eq!(u8::cast_from_bytes(&[1, 2, 250]), vec![1, 2, 250]);

    let words: [u32; 2] = [0x0102_0304, 0xa0b0_c0d0];
    let bytes = [words[0].to_ne_bytes(), words[1].to_ne_bytes()].concat();
    assert_eq!(u32::cast_to_bytes(&words), bytes);
    assert_eq!(u32::cast_from_bytes(&bytes), words.to_vec());
    // One byte further on no alignment can be relied on.
    let shifted = [&[0u8][..], &bytes[..]].concat();
    assert_eq!(u32::cast_from_bytes(&shifted[1..]), words.to_vec());

    let halves: [u16; 2] = [0x0102, 0xa0b0];
    let bytes = [halves[0].to_ne_bytes(), halves[1].to_ne_bytes()].concat();
    assert_eq!(u16::cast_to_bytes(&halves), bytes);
    assert_eq!(u16::cast_from_bytes(&bytes), halves.to_vec());
}

#[test]
fn floats_are_cast_as_their_bits() {
    let floats: [f32; 3] = [1.0, -0.5, 3.25e7];
    let bits: Vec<u32> = floats.iter().map(|x| x.to_bits()).collect();
    assert_eq!(u32::cast_to_bytes(&bits), bytemuck::cast_slice::<f32, u8>(&floats).to_vec());

    let floats = [half::f16::from_f32(1.0), half::f16::from_f32(-0.5)];
    let bits: Vec<u16> = floats.iter().map(|x| x.to_bits()).collect();
    assert_eq!(u16::cast_to_bytes(&bits), bytemuck::cast_slice::<half::f16, u8>(&floats).to_vec());
}

#[test]
fn cpu_tensor_keeps_what_it_is_made_of() {
    let t = TensorCpu::<u8, u32>::new(9, shape([2, 3, 1, 1]), Some("w"), vec![1, 2, 3, 4, 5, 6])
        .unwrap();
    assert_eq!(*t.context(), 9);
    assert_eq!(*t.shape(), shape([2, 3, 1, 1]));
    assert_eq!(*t.name(), Some("w"));
    assert_eq!(**t.data(), [1, 2, 3, 4, 5, 6]);
    assert_eq!(t.as_slice(), [1, 2, 3, 4, 5, 6]);
    assert!(matches!(&*t, Cow::Owned(v) if v.len() == 6));
    assert_eq!(t[4], 5);
    assert_eq!(t[1..4], [2, 3, 4]);
    assert_eq!(t[6..6], []);
    assert_eq!(t.byte_size(), 24);
}

#[test]
fn cpu_tensor_refuses_another_number_of_elements() {
    let few = TensorCpu::<(), u8>::new((), shape([2, 3, 1, 1]), None, vec![1, 2, 3, 4, 5]);
    assert!(matches!(few, Err(TensorError::Size(6, 5))));
    let many = TensorCpu::<(), u8>::new((), shape([2, 3, 0, 1]), None, vec![1]);
    assert!(matches!(many, Err(TensorError::Size(0, 1))));
    assert!(TensorCpu::<(), u8>::new((), shape([2, 3, 0, 1]), None, vec![]).is_ok());
}

#[test]
fn byte_offset_counts_bytes() {
    assert_eq!(TensorCpu::<(), u8>::byte_offset(5), 5);
    assert_eq!(TensorCpu::<(), u16>::byte_offset(5), 10);
    assert_eq!(TensorGpu::<(), (), u32>::byte_offset(5), 20);
}

#[test]
fn lowest_axis_moves_fastest() {
    let axes = [4, 3, 2, 5];
    let t = TensorCpu::<(), u8>::new((), shape(axes), None, vec![0; 120]).unwrap();
    assert_eq!(t.shape_index(shape([0, 0, 0, 0])), 0);
    assert_eq!(t.shape_index(shape([1, 0, 0, 0])), 1);
    assert_eq!(t.shape_index(shape([0, 1, 0, 0])), 4);
    assert_eq!(t.shape_index(shape([0, 0, 1, 0])), 12);
    assert_eq!(t.shape_index(shape([0, 0, 0, 1])), 24);
    assert_eq!(t.shape_index(shape([3, 2, 1, 4])), 119);
    // Indices beyond an axis are counted on.
    assert_eq!(t.shape_index(shape([4, 0, 0, 0])), 4);
}

#[test]
fn every_place_is_that_of_one_element() {
    let axes = [4, 3, 2, 5];
    let t = TensorCpu::<(), u8>::new((), shape(axes), None, vec![0; 120]).unwrap();
    let mut places = vec![0; 120];
    for l in 0..5 {
        for k in 0..2 {
            for j in 0..3 {
                for i in 0..4 {
                    places[t.shape_index(shape([i, j, k, l]))] += 1;
                }
            }
        }
    }
    assert_eq!(places, vec![1; 120]);
}

#[test]
fn gpu_tensor_fits_its_buffer() {
    let t = gpu("b", 64, 16, [4, 2, 1, 1]).unwrap();
    assert_eq!(t.data().buffer.handle, "b");
    assert_eq!(t.offset, 16);
    assert_eq!(*t.name(), Some("tensor"));
    assert_eq!(*t.context(), 1);
    assert_eq!(t.byte_size(), 32);
    assert_eq!(t.range(), 16..48);
}

#[test]
fn gpu_tensor_may_end_where_the_buffer_ends() {
    assert!(gpu("b", 48, 16, [4, 2, 1, 1]).is_ok());
    assert!(gpu("b", 0, 0, [0, 1, 1, 1]).is_ok());
}

#[test]
fn gpu_tensor_refuses_to_overflow_its_buffer() {
    let refused = |r| match r {
        Err(TensorError::Overflow { buffer_size, offset, size }) => (buffer_size, offset, size),
        _ => panic!("not refused"),
    };
    assert_eq!(refused(gpu("b", 47, 16, [4, 2, 1, 1])), (47, 16, 32));
    assert_eq!(refused(gpu("b", 48, 17, [4, 2, 1, 1])), (48, 17, 32));
    assert_eq!(refused(gpu("b", 4, 5, [0, 1, 1, 1])), (4, 5, 0));
    assert_eq!(refused(gpu("b", u64::MAX, u64::MAX, [1, 1, 1, 1])), (u64::MAX, u64::MAX, 4));
}

#[test]
fn gpu_tensor_is_initialized_in_a_buffer_of_its_size() {
    let d = TensorGpu::<(), u8, u16>::init_descriptor(shape([5, 2, 1, 1]), Some("n"), STORAGE);
    assert_eq!(d.label, Some("n"));
    assert_eq!(d.size, 20);
    assert_eq!(d.usage, STORAGE);
    assert!(!d.mapped_at_creation);
    let t = TensorGpu::<(), u8, u16>::init(
        (),
        shape([5, 2, 1, 1]),
        Some("n"),
        Buffer { handle: 8, size: d.size },
    );
    assert_eq!((t.buffer.handle, t.buffer.size, t.offset), (8, 20, 0));
    assert_eq!(*t.name(), Some("n"));
    // Its own parts are accepted again.
    let again = TensorGpu::<(), u8, u16>::new((), *t.shape(), *t.name(), t.data().clone());
    assert!(again.is_ok());
}

#[test]
fn usages_are_those_of_the_device() {
    assert_eq!(COPY_SRC, wgpu::BufferUsages::COPY_SRC.bits());
    assert_eq!(COPY_DST, wgpu::BufferUsages::COPY_DST.bits());
    assert_eq!(STORAGE, wgpu::BufferUsages::STORAGE.bits());
}

#[test]
fn binding_covers_the_tensor() {
    let t = gpu("b", 64, 16, [4, 2, 1, 1]).unwrap();
    let b = t.binding();
    assert_eq!((b.buffer.handle, b.offset, b.size), ("b", 16, Some(32)));
    let t = gpu("b", 64, 16, [0, 2, 1, 1]).unwrap();
    assert_eq!(t.binding().size, None);
}

#[test]
fn what_was_uploaded_comes_back() {
    let elements: Vec<u32> = [1.5f32, -2.0, 0.0, f32::NAN].iter().map(|x| x.to_bits()).collect();
    let cpu =
        TensorCpu::<u8, u32>::new(3, shape([2, 2, 1, 1]), Some("w"), elements.clone()).unwrap();
    let upload = cpu.upload();
    assert_eq!(upload.label, Some("w"));
    assert_eq!(upload.usage, 0x8c);
    assert_eq!(upload.contents.len(), 16);
    assert_eq!(upload.contents[4..8], elements[1].to_ne_bytes());

    // A device may pad.
    let mut memory = upload.contents;
    memory.extend([0xff; 5]);
    let gpu = TensorGpu::from_cpu(cpu, Buffer { handle: "b", size: memory.len() as u64 });
    let range = gpu.range();
    assert_eq!(range, 0..16);
    let bytes = &memory[range.start as usize..range.end as usize];
    let back = TensorCpu::from_gpu(gpu, bytes);
    assert_eq!(back.as_slice(), elements);
    assert_eq!(*back.shape(), shape([2, 2, 1, 1]));
    assert_eq!(*back.name(), Some("w"));
    assert_eq!(*back.context(), 3);
}

#[test]
fn uploaded_element_lies_at_its_byte_offset() {
    let data: Vec<u16> = (0..24).collect();
    let cpu = TensorCpu::<(), u16>::new((), shape([4, 3, 2, 1]), None, data).unwrap();
    let contents = cpu.upload().contents;
    let start = TensorCpu::<(), u16>::byte_offset(cpu.shape_index(shape([1, 2, 1, 0])));
    assert_eq!(start, 42);
    assert_eq!(contents[start..start + 2], 21u16.to_ne_bytes());
}

#[test]
fn copy_is_requested_between_equal_shapes() {
    let mut encoder = CommandEncoder { copies: vec![] };
    let src = gpu("src", 40, 8, [4, 2, 1, 1]).unwrap();
    let dst = gpu("dst", 64, 16, [4, 2, 1, 1]).unwrap();
    assert!(encoder.copy_tensor(&src, &dst).is_ok());
    assert_eq!(encoder.copies.len(), 1);
    let c = &encoder.copies[0];
    assert_eq!((c.source.handle, c.source_offset), ("src", 8));
    assert_eq!((c.destination.handle, c.destination_offset), ("dst", 16));
    assert_eq!(c.size, 32);

    // Serving the request leaves the elements of the source in the destination.
    let source: Vec<u8> = (0..40).collect();
    let mut destination = vec![0xffu8; 64];
    let (from, to, n) =
        (c.source_offset as usize, c.destination_offset as usize, c.size as usize);
    destination[to..to + n].copy_from_slice(&source[from..from + n]);
    let read = |t: TensorGpu<'static, u8, &'static str, u32>, memory: &[u8]| {
        let range = t.range();
        let bytes = &memory[range.start as usize..range.end as usize];
        TensorCpu::from_gpu(t, bytes).as_slice().to_vec()
    };
    assert_eq!(read(dst, &destination), read(src, &source));
}

#[test]
fn copy_is_refused_between_unequal_shapes() {
    let mut encoder = CommandEncoder { copies: vec![] };
    let src = gpu("src", 64, 0, [4, 2, 1, 1]).unwrap();
    let dst = gpu("dst", 64, 0, [2, 4, 1, 1]).unwrap();
    match encoder.copy_tensor(&src, &dst) {
        Err(TensorError::Shape(a, b)) => {
            assert_eq!((a, b), (shape([4, 2, 1, 1]), shape([2, 4, 1, 1])))
        }
        _ => panic!("not refused"),
    }
    assert!(encoder.copies.is_empty());
    // Shapes are compared before sizes are counted.
    let huge = TensorGpu::<u8, &str, u32>::new(1, shape([usize::MAX, 0, 1, 1]), None, buffer("b", 0, 0));
    assert!(encoder.copy_tensor(&huge.unwrap(), &dst).is_err());
    assert!(encoder.copies.is_empty());
}

#[test]
fn tensor_errors_have_messages() {
    assert_eq!(TensorError::Size(10, 305).to_string(), "Data size not match: 10 vs. 305");
    assert_eq!(
        TensorError::Shape(shape([1, 2, 3, 4]), shape([10, 20, 30, 40])).to_string(),
        "Tensor shape not match: (1, 2, 3, 4) vs. (10, 20, 30, 40)"
    );
    assert_eq!(
        TensorError::Overflow { buffer_size: 0, offset: u64::MAX, size: 99 }.to_string(),
        "Buffer overflow with buffer size: 0, slice offset: 18446744073709551615 and size: 99"
    );
    assert_eq!(TensorError::DeviceError.to_string(), "Tensor not on the same device");
}
