use vstd::prelude::*;

use crate::action::Action;

verus! {

#[verifier::external_type_specification]
#[verifier::external_body]
pub struct ExParser(vte::Parser);

#[verifier::external_type_specification]
#[verifier::external_body]
pub struct ExParams(vte::Params);

/// The bytes a parser has been fed since it was made, in order.
pub uninterp spec fn fed_of(p: vte::Parser) -> Seq<u8>;

/// Every action that a new parser reports while it is fed `bytes`, in order.
pub uninterp spec fn lexed(bytes: Seq<u8>) -> Seq<Action>;

/// Relies on vte::Parser::new: a parser in its ground state, fed nothing,
/// that has reported nothing.
pub assume_specification[ vte::Parser::new ]() -> (r: vte::Parser)
    ensures
        fed_of(r) == Seq::<u8>::empty(),
        lexed(fed_of(r)) == Seq::<Action>::empty(),
;

/// Relies on vte::Params::iter: the parameter groups, each a parameter
/// followed by its subparameters, copied out in order.
#[verifier::external_body]
fn param_groups(params: &vte::Params) -> (r: Vec<Vec<u16>>)
{
    params.iter().map(|group| group.to_vec()).collect()
}

/// Relies on vte::Parser::advance: it takes one byte of the stream and reports
/// to the recorder each action that the byte completes. The parser is a state
/// machine with no other input, so what it reports depends on the bytes fed
/// so far alone.
#[verifier::external_body]
pub(crate) fn advance(parser: &mut vte::Parser, byte: u8) -> (r: Vec<Action>)
    ensures
        fed_of(*final(parser)) == fed_of(*old(parser)).push(byte),
        lexed(fed_of(*final(parser))) == lexed(fed_of(*old(parser))) + r@,
{
    let mut recorder = Recorder { actions: Vec::new() };
    parser.advance(&mut recorder, byte);
    recorder.actions
}

fn bytes_to_vec(bytes: &[u8]) -> (r: Vec<u8>)
    ensures
        r@ == bytes@,
{
    let mut out: Vec<u8> = Vec::new();
    let mut i: usize = 0;
    while i < bytes.len()
        invariant
            i <= bytes.len(),
            out@ == bytes@.subrange(0, i as int),
        decreases bytes.len() - i,
    {
        out.push(bytes[i]);
        i = i + 1;
        proof {
            assert(out@ =~= bytes@.subrange(0, i as int));
        }
    }
    out
}

/// Collects the actions that the lexer reports, in the order reported.
pub(crate) struct Recorder {
    pub(crate) actions: Vec<Action>,
}

impl vte::Perform for Recorder {
    fn print(&mut self, c: char) {
        self.actions.push(Action::Print(c));
    }

    fn execute(&mut self, byte: u8) {
        self.actions.push(Action::Execute(byte));
    }

    fn hook(&mut self, params: &vte::Params, intermediates: &[u8], ignore: bool, action: char) {
        let params = param_groups(params);
        let intermediates = bytes_to_vec(intermediates);
        self.actions.push(Action::Hook { params, intermediates, ignore, action });
    }

    fn put(&mut self, byte: u8) {
        self.actions.push(Action::Put(byte));
    }

    fn unhook(&mut self) {
        self.actions.push(Action::Unhook);
    }

    fn osc_dispatch(&mut self, params: &[&[u8]], bell_terminated: bool) {
        let mut groups: Vec<Vec<u8>> = Vec::new();
        let mut i: usize = 0;
        while i < params.len()
            invariant
                i <= params.len(),
            decreases params.len() - i,
        {
            groups.push(bytes_to_vec(params[i]));
            i = i + 1;
        }
        self.actions.push(Action::OscDispatch { params: groups, bell_terminated });
    }

    fn csi_dispatch(&mut self, params: &vte::Params, intermediates: &[u8], ignore: bool, action: char) {
        let params = param_groups(params);
        let intermediates = bytes_to_vec(intermediates);
        self.actions.push(Action::CsiDispatch { params, intermediates, ignore, action });
    }

    fn esc_dispatch(&mut self, intermediates: &[u8], ignore: bool, byte: u8) {
        let intermediates = bytes_to_vec(intermediates);
        self.actions.push(Action::EscDispatch { intermediates, ignore, byte });
    }
}

} // verus!
