# web-rwkv

Tensors on the host and on a GPU, and the descriptions from which RWKV models and their states are
built, verified with [Verus](https://github.com/verus-lang/verus).

- `src/tensor/` holds shapes and the order of the elements (`shape.rs`), elements and their bytes
  in memory (`scalar.rs`), devices and buffers (`device.rs`), tensors (`mod.rs`), what moves them
  between host, device and buffers (`transfer.rs`), and what holds of them as a whole (`laws.rs`).
- `src/model/` holds sets of layers (`flags.rs`), sizes and errors of models (`info.rs`), LoRA
  blending (`lora.rs`), and the builders with the traits that models and states implement
  (`builder.rs`).
- `src/text.rs` writes numbers into messages.
- `app/` runs the requests of the library on `wgpu` and converts `f32` and `f16`.

The library knows floating-point numbers by their bit patterns, the device by a context of any
type, and a buffer of the device by a handle of any type and its size. What it asks of the device
it states as plain values, and it takes back what the device answered. It calls `bytemuck` to cast
elements to bytes and back, and `regex` to compile patterns; what it takes for granted of these
calls is written above the functions that make them.
