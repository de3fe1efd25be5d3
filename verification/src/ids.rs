//! Identifier newtypes shared by every protocol surface.

use vstd::prelude::*;

verus! {

/// Correlates a response to a request in IPC streams.
#[derive(Debug, Clone, Copy, PartialEq, Eq, Hash, Structural)]
pub struct ReqId(pub u64);

/// Identifies an isolated execution cell.
#[derive(Debug, PartialEq, Eq, Hash)]
pub struct CellId(pub String);

/// Identifies a launched job.
#[derive(Debug, PartialEq, Eq, Hash)]
pub struct JobId(pub String);

impl Clone for CellId {
    fn clone(&self) -> (r: Self)
        ensures
            r == *self,
    {
        CellId(self.0.clone())
    }
}

impl Clone for JobId {
    fn clone(&self) -> (r: Self)
        ensures
            r == *self,
    {
        JobId(self.0.clone())
    }
}

/// Identifies an interactive PTY session.
#[derive(Debug, Clone, Copy, PartialEq, Eq, Hash, Structural)]
pub struct SessionId(pub u64);

impl View for CellId {
    type V = Seq<char>;

    open spec fn view(&self) -> Seq<char> {
        self.0@
    }
}

impl View for JobId {
    type V = Seq<char>;

    open spec fn view(&self) -> Seq<char> {
        self.0@
    }
}

} // verus!
