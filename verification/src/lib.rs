//! Session core of a WASI-NN style inference host.
//!
//! A caller loads a model for a compute backend, opens an execution context
//! on it, binds input tensors, runs inference and reads the outputs back.
//! Every operation reports one status code of [`errno::ErrNo`] and reaches
//! the caller's memory only through a bounds-checked
//! [`memory::ForeignBuffer`].
//!
//! [`wasi_nn::WasiNN`] is the session manager. [`session`] is the
//! mathematical model that its contracts are stated over, and [`laws`] holds
//! what follows from them for every session. [`host`] dispatches one call of
//! the interface by name and raw arguments.
//!
//! Tensor elements are 32-bit floating-point numbers. The session core
//! never computes with them: it carries each element as the 32-bit word of
//! its bit pattern, and the forward pass of a model is handed to
//! [`wasi_nn::WasiNN::compute`] by the caller.
pub mod backends;
pub mod bytes;
pub mod descriptor;
pub mod errno;
pub mod host;
pub mod laws;
pub mod memory;
pub mod session;
pub mod squeezenet;
pub mod tensor;
pub mod wasi_nn;
pub mod whisper;
