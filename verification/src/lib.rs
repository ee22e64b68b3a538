//! Cycle-stepped simulator for a small 16-bit-instruction, 8-bit-datapath
//! processor: a 3-stage overlapped pipeline (fetch, decode, execute), seven
//! general-purpose registers plus a hardwired zero register, a 16-byte data
//! memory, and two memory-mapped single-slot duplex I/O ports.

pub mod bits;
pub mod cpu;
pub mod decode;
pub mod laws;
pub mod machine;

pub use bits::asr1;
pub use bits::sign_extend4;
pub use cpu::Chonkpu;
pub use decode::Decode;
pub use decode::decode;
pub use machine::Port;
