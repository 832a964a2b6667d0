//! Per-stream output accumulation. Each of stdout and stderr is drained
//! independently as a sequence of lines; every line is appended to that
//! stream's buffer and emitted as one incremental event. The buffer is, at
//! every moment, exactly the concatenation of the lines pushed so far.

use vstd::prelude::*;
use vstd::string::StringExecFns;

verus! {

/// Which stream a line came from.
#[derive(Clone, Copy, Debug, PartialEq, Eq, Structural)]
pub enum StreamTag {
    Stdout,
    Stderr,
}

/// One incremental output event: a single line, with its terminator as
/// produced, tagged with the stream it came from.
#[derive(Clone, Debug)]
pub struct ExecutionOutput {
    pub line: String,
    pub stream: String,
}

/// The accumulated output of one stream, together with the (ghost) sequence
/// of lines that produced it.
pub struct OutputLog {
    pub buf: String,
    pub lines: Ghost<Seq<Seq<char>>>,
}

impl OutputLog {
    /// The lines pushed so far, in emission order.
    pub open spec fn spec_lines(self) -> Seq<Seq<char>> {
        self.lines@
    }

    /// The accumulated buffer.
    pub open spec fn buffer(self) -> Seq<char> {
        self.buf@
    }

    /// The buffer is exactly the concatenation of the pushed lines.
    pub open spec fn wf(self) -> bool {
        self.buf@ == self.lines@.flatten()
    }

    /// An empty log.
    pub fn new() -> (r: OutputLog)
        ensures
            r.wf(),
            r.spec_lines().len() == 0,
            r.buffer().len() == 0,
    {
        let r = OutputLog { buf: String::new(), lines: Ghost(Seq::empty()) };
        proof {
            assert(r.lines@.flatten() =~= Seq::<char>::empty());
        }
        r
    }

    /// Appends one line to the buffer and records it as one emitted event.
    pub fn push_line(&mut self, line: &str)
        requires
            old(self).wf(),
        ensures
            final(self).wf(),
            final(self).spec_lines() == old(self).spec_lines().push(line@),
            final(self).buffer() == old(self).buffer() + line@,
    {
        proof {
            old(self).lines@.lemma_flatten_push(line@);
        }
        self.buf.append(line);
        self.lines = Ghost(self.lines@.push(line@));
    }

    /// A copy of the accumulated buffer.
    pub fn buffer_string(&self) -> (r: String)
        ensures
            r@ == self.buffer(),
    {
        self.buf.clone()
    }
}

} // verus!
