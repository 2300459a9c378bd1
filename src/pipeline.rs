use vstd::prelude::*;
use vstd::slice::slice_subrange;

use crate::screen::{count_rejected, run};
use crate::snapshot::Snapshot;
use crate::terminal::{lexed_after, Terminal};

verus! {

/// What the reading side does after one read of the pseudo-terminal.
#[derive(Debug, PartialEq, Eq)]
pub enum Step {
    /// Hand this snapshot to the consumer and read again. `refused` tells
    /// whether the screen refused an action of the chunk.
    Publish { snapshot: Snapshot, refused: bool },
    /// The stream ended or failed: tell the consumer that the session ended.
    End,
}

impl Terminal {
    /// Decides on the outcome of one read into `buf`: `Some(n)` for `n` bytes
    /// read, `None` for a failed read. A read of zero bytes or a failure ends
    /// the session and leaves the screen as it is; otherwise the `n` bytes are
    /// taken in order and a snapshot of the result is to be published.
    pub fn on_read(&mut self, buf: &[u8], read: Option<usize>) -> (r: Step)
        requires
            old(self).wf(),
            read matches Some(n) ==> n <= buf@.len(),
        ensures
            final(self).wf(),
            match read {
                Some(n) if n > 0 => {
                    let chunk = buf@.subrange(0, n as int);
                    let acts = lexed_after(old(self).fed(), chunk);
                    &&& final(self).fed() == old(self).fed() + chunk
                    &&& final(self)@ == run(old(self)@, acts)
                    &&& match r {
                        Step::Publish { snapshot, refused } => {
                            &&& snapshot.shows(final(self)@)
                            &&& refused == (count_rejected(old(self)@, acts) > 0)
                        },
                        Step::End => false,
                    }
                },
                _ => r == Step::End && final(self)@ == old(self)@ && final(self).fed() == old(
                    self,
                ).fed(),
            },
    {
        match read {
            Some(n) => {
                if n == 0 {
                    Step::End
                } else {
                    let chunk = slice_subrange(buf, 0, n);
                    let refused = self.consume_chunk(chunk);
                    Step::Publish { snapshot: self.snapshot(), refused }
                }
            },
            None => Step::End,
        }
    }
}

} // verus!
