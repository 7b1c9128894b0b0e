//! A substrate for small, specialised virtual machines.
//!
//! A host program assembles a linear sequence of typed operations into a
//! word-addressed buffer, the tape, and then runs that buffer with one of two
//! dispatch strategies until an operation halts.

pub mod builder;
pub mod builtins;
pub mod cpu;
pub mod debug_info;
pub mod image;
pub mod laws;
pub mod macros;
pub mod offset;
pub mod operation;
pub mod pc;
pub mod program;
pub mod runner;
pub mod tape;
pub mod text;
pub mod word;

pub use crate::offset::Offset;
pub use crate::operation::Custom;
pub use crate::operation::Execute;
pub use crate::operation::Operand;
pub use crate::pc::Pc;
pub use crate::program::Program;
pub use crate::runner::Destination;
pub use crate::runner::Runner;
