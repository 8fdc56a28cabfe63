//! The request layer of the time service: what each request asks for, and
//! the answers that do not depend on how they are sent.

pub mod handlers;
pub mod protocol;

use crate::text::to_chars;
use crate::text::trim_bounds;
use crate::text::trim_text;
use crate::text::slice_text;
use handlers::TimeHandler;
use vstd::prelude::*;

verus! {

/// The server that answers requests line by line.
pub struct McpServer {
    pub handler: TimeHandler,
}

/// What is done with a line that was read.
#[derive(Debug)]
pub enum LineAction {
    /// The line is empty but for white space: it is passed over.
    Skip,
    /// The line holds a request: this is its text, without the white space
    /// round it.
    Handle(String),
}

impl McpServer {
    /// The server.
    pub fn new() -> (r: McpServer)
        ensures
            r.handler == TimeHandler,
    {
        McpServer { handler: TimeHandler::new() }
    }

    /// What is done with `line`, a line that was read from the input: its
    /// request is what is left of it without the white space at its ends,
    /// and a line of which nothing is left is passed over.
    pub fn classify_line(line: &str) -> (r: LineAction)
        ensures
            match r {
                LineAction::Skip => trim_text(line@).len() == 0,
                LineAction::Handle(request) => request@ == trim_text(line@) && request@.len() > 0,
            },
    {
        let chars = to_chars(line);
        assert(chars@.subrange(0, chars@.len() as int) =~= chars@);
        let (from, to) = trim_bounds(&chars, 0, chars.len());
        if from == to {
            LineAction::Skip
        } else {
            LineAction::Handle(slice_text(line, from, to))
        }
    }
}

} // verus!
