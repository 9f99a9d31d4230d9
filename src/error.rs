use vstd::prelude::*;

verus! {

/// Errors shared by the pipeline's stages.
#[derive(Debug, Clone, PartialEq, Eq)]
pub enum LocaltypeError {
    Audio(String),
    Stt(String),
    Llm(String),
    Config(String),
    Output(String),
    Permission(String),
    InvalidState(String),
}

} // verus!
