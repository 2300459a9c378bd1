use vstd::prelude::*;

use crate::action::Action;
use crate::laws::{lemma_rejected_concat, lemma_run_concat};
use crate::lexer::{advance, fed_of, lexed};
use crate::screen::{count_rejected, initial_screen, run, ANSIParser, ScreenModel};
use crate::snapshot::Snapshot;

verus! {

/// A terminal session: the lexer stage, which finds sequence boundaries in the
/// byte stream, feeding the interpreting stage, which owns the screen.
/// The lexer keeps its state between calls, so a sequence may arrive split
/// over any number of bytes or chunks.
pub struct Terminal {
    lexer: vte::Parser,
    screen: ANSIParser,
}

impl View for Terminal {
    type V = ScreenModel;

    closed spec fn view(&self) -> ScreenModel {
        self.screen@
    }
}

/// The actions that the bytes `more` complete after the bytes `before`.
pub open spec fn lexed_after(before: Seq<u8>, more: Seq<u8>) -> Seq<Action> {
    lexed(before + more).skip(lexed(before).len() as int)
}

impl Terminal {
    /// The bytes fed to the session so far.
    pub closed spec fn fed(&self) -> Seq<u8> {
        fed_of(self.lexer)
    }

    /// The screen is the one that all actions of the bytes fed so far give.
    pub closed spec fn wf(&self) -> bool {
        &&& self.screen@.wf()
        &&& self.screen@ == run(initial_screen(), lexed(fed_of(self.lexer)))
    }

    /// What a well-formed session's screen is.
    pub proof fn lemma_screen_of_bytes(&self)
        requires
            self.wf(),
        ensures
            self@.wf(),
            self@ == run(initial_screen(), lexed(self.fed())),
    {
    }

    pub fn new() -> (r: Terminal)
        ensures
            r.wf(),
            r.fed() == Seq::<u8>::empty(),
            r@ == initial_screen(),
    {
        Terminal { lexer: vte::Parser::new(), screen: ANSIParser::new() }
    }

    /// Takes one byte of the stream. The screen changes as the actions that
    /// the byte completes prescribe; the result tells whether the screen
    /// refused one of them.
    pub fn consume(&mut self, byte: u8) -> (r: bool)
        requires
            old(self).wf(),
        ensures
            final(self).wf(),
            final(self).fed() == old(self).fed().push(byte),
            lexed(old(self).fed()).is_prefix_of(lexed(final(self).fed())),
            final(self)@ == run(old(self)@, lexed_after(old(self).fed(), seq![byte])),
            r == (count_rejected(old(self)@, lexed_after(old(self).fed(), seq![byte])) > 0),
    {
        let ghost before = self.fed();
        let actions = advance(&mut self.lexer, byte);
        proof {
            let l = lexed(before);
            assert(before + seq![byte] =~= before.push(byte));
            assert((l + actions@).skip(l.len() as int) =~= actions@);
            assert((l + actions@).subrange(0, l.len() as int) =~= l);
            lemma_run_concat(initial_screen(), l, actions@);
        }
        let refused = self.screen.perform_all(&actions);
        refused > 0
    }

    /// Takes a chunk of the stream, byte by byte in order. The result tells
    /// whether the screen refused an action on the way.
    pub fn consume_chunk(&mut self, bytes: &[u8]) -> (r: bool)
        requires
            old(self).wf(),
        ensures
            final(self).wf(),
            final(self).fed() == old(self).fed() + bytes@,
            lexed(old(self).fed()).is_prefix_of(lexed(final(self).fed())),
            final(self)@ == run(old(self)@, lexed_after(old(self).fed(), bytes@)),
            r == (count_rejected(old(self)@, lexed_after(old(self).fed(), bytes@)) > 0),
    {
        let ghost start = self@;
        let ghost f0 = self.fed();
        let mut faulted = false;
        let mut i: usize = 0;
        proof {
            assert(f0 + bytes@.subrange(0, 0) =~= f0);
            assert(lexed(f0).skip(lexed(f0).len() as int) =~= Seq::<Action>::empty());
            assert(lexed(f0).subrange(0, lexed(f0).len() as int) =~= lexed(f0));
        }
        while i < bytes.len()
            invariant
                i <= bytes.len(),
                self.wf(),
                self.fed() == f0 + bytes@.subrange(0, i as int),
                lexed(f0).is_prefix_of(lexed(self.fed())),
                self@ == run(start, lexed_after(f0, bytes@.subrange(0, i as int))),
                faulted == (count_rejected(start, lexed_after(f0, bytes@.subrange(0, i as int)))
                    > 0),
            decreases bytes.len() - i,
        {
            let ghost before = self@;
            let ghost f1 = self.fed();
            let step = self.consume(bytes[i]);
            proof {
                let l0 = lexed(f0);
                let l1 = lexed(f1);
                let l2 = lexed(self.fed());
                let done = l1.skip(l0.len() as int);
                let more = l2.skip(l1.len() as int);
                assert(f1 + seq![bytes[i as int]] =~= f1.push(bytes[i as int]));
                assert(f0 + bytes@.subrange(0, i + 1) =~= self.fed());
                assert(l2.skip(l0.len() as int) =~= done + more);
                lemma_run_concat(start, done, more);
                lemma_rejected_concat(start, done, more);
            }
            faulted = faulted || step;
            i = i + 1;
        }
        proof {
            assert(bytes@.subrange(0, bytes.len() as int) =~= bytes@);
        }
        faulted
    }

    /// A copy of the current cells and cursor.
    pub fn snapshot(&self) -> (r: Snapshot)
        requires
            self.wf(),
        ensures
            r.shows(self@),
    {
        self.screen.snapshot()
    }
}

/// Two sessions fed the same bytes show the same screen, however the bytes
/// were split into calls.
pub proof fn lemma_same_bytes_same_screen(a: &Terminal, b: &Terminal)
    requires
        a.wf(),
        b.wf(),
        a.fed() == b.fed(),
    ensures
        a@ == b@,
{
}

} // verus!
