//! The ad-hoc SQL input line: a title and the text typed so far. The key
//! loop appends and removes characters directly; executing the query is the
//! database collaborator's business.

use vstd::prelude::*;

verus! {

/// The SQL input widget state.
pub struct SqlInputWdg<'a> {
    pub title: &'a str,
    pub input: String,
}

impl<'a> SqlInputWdg<'a> {
    /// Starts with an empty input line.
    pub fn new() -> (r: Self)
        ensures
            r.input@.len() == 0,
            r.title@ == "SQL [e: start editing] [esc: stop editing]"@,
    {
        Self { title: "SQL [e: start editing] [esc: stop editing]", input: String::new() }
    }
}

} // verus!
