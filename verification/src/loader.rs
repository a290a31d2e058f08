//! Selection of the one scene document from a loaded source.
//!
//! Reading the file and parsing its text into a generic document tree are
//! the backend's work; the rule that a source must hold exactly one
//! document lives here.

use crate::error::LoadError;
use crate::value::Value;
use vstd::prelude::*;

verus! {

/// Chooses the scene document among the documents a source held.
pub struct SourceLoader {}

impl SourceLoader {
    /// The single document of a source: a source with no document or with
    /// more than one is refused.
    pub fn select(docs: Vec<Value>) -> (r: Result<Value, LoadError>)
        ensures
            match r {
                Ok(v) => docs@.len() == 1 && v == docs@[0],
                Err(e) => {
                    ||| (docs@.len() == 0 && e == LoadError::NoEntryError)
                    ||| (docs@.len() > 1 && e == LoadError::TooManyEntryError)
                },
            },
    {
        let mut docs = docs;
        if docs.len() < 1 {
            return Err(LoadError::NoEntryError);
        }
        if docs.len() > 1 {
            return Err(LoadError::TooManyEntryError);
        }
        let doc = docs.pop().unwrap();
        Ok(doc)
    }
}

} // verus!
