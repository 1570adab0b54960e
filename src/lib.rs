//! Early boot console: text-mode display writer, color attributes, and the
//! decision logic of the kernel test harness.
pub mod color;
pub mod vga_buffer;
pub mod console_laws;
pub mod harness;
