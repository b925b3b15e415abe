pub mod cpu;
pub mod error;
pub mod flags;
pub mod lemmas;
pub mod opcodes;
