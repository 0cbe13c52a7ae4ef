//! On-device text generation: the control logic of a streaming decode loop.
//!
//! The numeric forward pass and the output channel live outside this crate.
//! What is here decides, step by step, which token is appended, which text
//! fragment is handed out, and when the loop ends.

pub mod driver;
pub mod error;
pub mod options;
pub mod prompt;
pub mod runs;
pub mod sampler;
pub mod tokenizer;
