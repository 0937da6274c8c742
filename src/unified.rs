//! The input of the unified search front end.
use vstd::prelude::*;

verus! {

/// Where a unified search is sent.
#[derive(Debug, Clone, Copy, PartialEq, Eq, Structural)]
pub enum Source {
    Gemini,
    Gpt,
    Google,
    Youtube,
    Github,
    Reddit,
    Wikipedia,
}

/// A unified search: where to send it, with which model, and the query.
#[derive(Debug, Clone)]
pub struct Input {
    /// The source to search; none given means no search.
    pub source: Option<Source>,
    /// The model to use, for the sources that have models.
    pub model: Option<String>,
    /// The query to search for.
    pub query: String,
}

} // verus!
