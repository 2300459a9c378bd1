use vstd::prelude::*;

verus! {

/// A truecolor value as received on the wire: red, green and blue components.
pub type Rgb = (u16, u16, u16);

/// One character position of the screen: a character and its optional colors.
/// A color of `None` means the renderer's default.
#[derive(Clone, Copy, Debug, PartialEq, Eq)]
pub struct Cell {
    pub content: char,
    pub bg: Option<Rgb>,
    pub fg: Option<Rgb>,
}

/// The cell every position of a fresh screen holds.
pub open spec fn blank_cell() -> Cell {
    Cell { content: ' ', bg: None, fg: None }
}

impl Cell {
    /// A space with default colors.
    pub fn new() -> (r: Cell)
        ensures
            r == blank_cell(),
    {
        Cell { content: ' ', bg: None, fg: None }
    }

    pub fn set_content(&mut self, c: &char)
        ensures
            *final(self) == (Cell { content: *c, ..*old(self) }),
    {
        self.content = *c;
    }

    /// Sets the background; `None` restores the default.
    pub fn set_bg(&mut self, color: Option<Rgb>)
        ensures
            *final(self) == (Cell { bg: color, ..*old(self) }),
    {
        self.bg = color;
    }

    /// Sets the foreground; `None` restores the default.
    pub fn set_fg(&mut self, color: Option<Rgb>)
        ensures
            *final(self) == (Cell { fg: color, ..*old(self) }),
    {
        self.fg = color;
    }
}

} // verus!
