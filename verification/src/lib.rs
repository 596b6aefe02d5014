//! A 32-bit x86 user-mode emulator core: guest memory, the register file,
//! flag-accurate arithmetic and logic, operand access, and the bridge from
//! interpreted code to host-implemented Win32 functions.
pub mod dispatch;
pub mod fault;
pub mod flags;
pub mod host;
pub mod instr;
pub mod mem;
pub mod ops;
pub mod pod;
pub mod registers;
pub mod report;
pub mod shims;
pub mod step;
pub mod width;
pub mod winapi;
pub mod x86;
