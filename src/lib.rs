//! Host side of a GPU inverse-square-root compute dispatch: the byte layout
//! of the data crossing the host/device boundary, the kernel's binding
//! interface, the command sequence of one dispatch and the readback state
//! machine. The device calls themselves are made by the program around it.
pub mod codec;
pub mod kernel;
pub mod error;
pub mod device;
pub mod pipeline;
pub mod dispatch;
pub mod readback;
