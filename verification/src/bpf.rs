//! What a BPF program does with maps, inside the kernel.
pub mod maps;
pub mod utils;
