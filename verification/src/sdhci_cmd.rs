//! The description of one command, before it is issued.
use vstd::prelude::*;

verus! {

/// What is needed to fill the command register for one command: the
/// command's index, its type, and the kind of response it expects.
pub struct Cmd {
    idx: u32,
    ctype: u32,
    resp: u32,
}

/// A command as plain values.
pub struct CmdView {
    pub idx: u32,
    pub ctype: u32,
    pub resp: u32,
}

impl View for Cmd {
    type V = CmdView;

    closed spec fn view(&self) -> CmdView {
        CmdView { idx: self.idx, ctype: self.ctype, resp: self.resp }
    }
}

impl Cmd {
    /// The command with index `idx`, of type `ctype`, that expects a
    /// response of kind `resp`.
    pub fn new(idx: u32, ctype: u32, resp: u32) -> (cmd: Self)
        ensures
            cmd@ == (CmdView { idx, ctype, resp }),
    {
        Cmd { idx, ctype, resp }
    }
}

} // verus!
