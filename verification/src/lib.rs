//! Presentation and input shell for a CHIP-8 virtual machine.
//!
//! The crate holds the decision core of the shell's run loop: mapping host
//! keyboard keys to CHIP-8 keypad codes, turning the machine's monochrome
//! framebuffer into per-cell draw operations, deriving the window title from
//! the machine's beep flag, and classifying host events into the ordered
//! actions the loop performs. The CHIP-8 interpreter itself is the external
//! `chip8_vm` crate, reached through the narrow boundary in [`vm_shell`].

pub mod dispatch;
pub mod keys;
pub mod raster;
pub mod title;
pub mod vm_shell;
