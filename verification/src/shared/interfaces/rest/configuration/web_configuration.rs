//! Cross-origin settings of the web server.

use crate::text::{comma_list, split_comma_list, texts};
use vstd::prelude::*;

verus! {

/// Cross-origin configuration; the CORS layer itself is built around the origins it reads.
#[derive(Debug, Clone, Copy)]
pub struct WebConfiguration;

impl WebConfiguration {
    /// The allowed origins of a comma-separated setting: trimmed, blank ones dropped. An
    /// empty list lets every origin in.
    pub fn allowed_origins(raw: &str) -> (origins: Vec<String>)
        ensures
            texts(origins@) == comma_list(raw@),
    {
        split_comma_list(raw)
    }
}

} // verus!
