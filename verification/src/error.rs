use vstd::prelude::*;

verus! {

/// Why a generation request ended early.
#[derive(Clone, Copy, Debug, PartialEq, Eq, Structural)]
pub enum EngineError {
    /// A model artifact or tokenizer definition was missing, unreadable or invalid.
    ResourceLoad,
    /// The prompt could not be turned into token ids.
    Encoding,
    /// The forward pass failed, or handed back scores no token can be chosen from.
    Inference,
}

impl EngineError {
    /// A short description for callers that show the error to a person.
    pub fn message(&self) -> (text: &'static str)
        ensures
            text@ == (match *self {
                EngineError::ResourceLoad => "resource could not be loaded"@,
                EngineError::Encoding => "prompt could not be encoded"@,
                EngineError::Inference => "inference failed"@,
            }),
    {
        match self {
            EngineError::ResourceLoad => "resource could not be loaded",
            EngineError::Encoding => "prompt could not be encoded",
            EngineError::Inference => "inference failed",
        }
    }
}

} // verus!
