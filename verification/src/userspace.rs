//! What a program outside the kernel does with maps: buffers for the values
//! that the kernel reads and writes, and typed handles to the maps of a loaded
//! object.
pub mod maps;
pub mod per_cpu;
