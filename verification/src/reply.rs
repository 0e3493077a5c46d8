//! What a command prints.
use vstd::prelude::*;

verus! {

/// Where a reply is printed.
#[derive(Clone, Copy, Debug, PartialEq, Eq, Structural)]
pub enum Stream {
    /// Standard output.
    Stdout,
    /// Standard error.
    Stderr,
}

/// Lines to print on one stream, each followed by a newline.
#[derive(Clone, Debug, PartialEq, Eq)]
pub struct Reply {
    pub stream: Stream,
    pub lines: Vec<String>,
}

/// A reply as plain sequences of characters.
pub struct ReplyView {
    pub stream: Stream,
    pub lines: Seq<Seq<char>>,
}

impl View for Reply {
    type V = ReplyView;

    open spec fn view(&self) -> ReplyView {
        ReplyView { stream: self.stream, lines: self.lines.deep_view() }
    }
}

/// One line on standard output.
pub open spec fn said(line: Seq<char>) -> ReplyView {
    ReplyView { stream: Stream::Stdout, lines: seq![line] }
}

/// One line on standard error.
pub open spec fn complained(line: Seq<char>) -> ReplyView {
    ReplyView { stream: Stream::Stderr, lines: seq![line] }
}

impl Reply {
    /// One line on standard output.
    pub fn say(line: String) -> (reply: Reply)
        ensures
            reply@ == said(line@),
    {
        let mut lines: Vec<String> = Vec::new();
        lines.push(line);
        let reply = Reply { stream: Stream::Stdout, lines };
        assert(reply.lines.deep_view() == seq![line@]);
        reply
    }

    /// One line on standard error.
    pub fn complain(line: String) -> (reply: Reply)
        ensures
            reply@ == complained(line@),
    {
        let mut lines: Vec<String> = Vec::new();
        lines.push(line);
        let reply = Reply { stream: Stream::Stderr, lines };
        assert(reply.lines.deep_view() == seq![line@]);
        reply
    }
}

} // verus!
