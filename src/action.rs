use vstd::prelude::*;

verus! {

/// One event of the escape-sequence grammar, as the lexer stage reports it.
/// Parameters come grouped: each group holds a parameter and its
/// colon-separated subparameters.
#[derive(Debug, PartialEq, Eq)]
pub enum Action {
    /// A character to draw.
    Print(char),
    /// A C0 or C1 control byte.
    Execute(u8),
    /// The start of a device control string.
    Hook { params: Vec<Vec<u16>>, intermediates: Vec<u8>, ignore: bool, action: char },
    /// A byte inside a device control string.
    Put(u8),
    /// The end of a device control string.
    Unhook,
    /// An operating system command.
    OscDispatch { params: Vec<Vec<u8>>, bell_terminated: bool },
    /// A control sequence, keyed by its final character.
    CsiDispatch { params: Vec<Vec<u16>>, intermediates: Vec<u8>, ignore: bool, action: char },
    /// A plain escape sequence.
    EscDispatch { intermediates: Vec<u8>, ignore: bool, byte: u8 },
}

/// The parameter groups of a sequence as mathematical sequences.
pub open spec fn params_view(params: Seq<Vec<u16>>) -> Seq<Seq<u16>> {
    params.map_values(|p: Vec<u16>| p@)
}

} // verus!
