//! An emulator for a small stack-based computer (SSBC): a flat 64 KiB
//! address space with wrapping 16-bit addressing, a downward-growing stack,
//! and an eleven-instruction fetch-decode-execute core with condition-flag
//! tracking in a memory-mapped program status word.

pub mod addr;
pub mod machine;
pub mod memory;
