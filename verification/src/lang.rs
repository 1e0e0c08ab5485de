//! The instruction set of the tape machine and the closed set of target
//! identities a translation can be requested for.

use vstd::prelude::*;

verus! {

/// One of the eight instructions of the tape-machine language. Any character
/// that does not denote one of these is inert in a source text.
#[derive(Clone, Copy, PartialEq, Eq, Structural, Debug)]
pub enum Instr {
    /// `>`: advance the cursor by one cell.
    MoveRight,
    /// `<`: retreat the cursor by one cell.
    MoveLeft,
    /// `+`: add one to the cell at the cursor.
    Increment,
    /// `-`: subtract one from the cell at the cursor.
    Decrement,
    /// `.`: write the cell at the cursor to standard output.
    Output,
    /// `,`: read one byte from standard input into the cell at the cursor.
    Input,
    /// `[`: open a "repeat while the cell at the cursor is non-zero" loop.
    LoopOpen,
    /// `]`: close the innermost open loop.
    LoopClose,
}

/// A target identity a caller may request. The set is closed: every variant
/// either has a working backend or is rejected explicitly, never skipped.
#[derive(Clone, Copy, PartialEq, Eq, Structural, Debug)]
pub enum Lang {
    Interpret,
    C,
    Java,
    Python,
    JavaScript,
    Rust,
    Go,
}

/// The instruction a character denotes, or `None` for an inert character.
pub open spec fn instr_of_char(c: char) -> Option<Instr> {
    if c == '>' {
        Some(Instr::MoveRight)
    } else if c == '<' {
        Some(Instr::MoveLeft)
    } else if c == '+' {
        Some(Instr::Increment)
    } else if c == '-' {
        Some(Instr::Decrement)
    } else if c == '.' {
        Some(Instr::Output)
    } else if c == ',' {
        Some(Instr::Input)
    } else if c == '[' {
        Some(Instr::LoopOpen)
    } else if c == ']' {
        Some(Instr::LoopClose)
    } else {
        None
    }
}

/// Recognize a single character of a source text.
pub fn classify_char(c: char) -> (r: Option<Instr>)
    ensures
        r == instr_of_char(c),
{
    match c {
        '>' => Some(Instr::MoveRight),
        '<' => Some(Instr::MoveLeft),
        '+' => Some(Instr::Increment),
        '-' => Some(Instr::Decrement),
        '.' => Some(Instr::Output),
        ',' => Some(Instr::Input),
        '[' => Some(Instr::LoopOpen),
        ']' => Some(Instr::LoopClose),
        _ => None,
    }
}

/// Which target identities have a working backend.
pub open spec fn has_backend(l: Lang) -> bool {
    l == Lang::C || l == Lang::Go
}

impl Lang {
    /// The name of this target identity, for reporting.
    pub open spec fn spec_name(self) -> Seq<char> {
        match self {
            Lang::Interpret => "Interpret"@,
            Lang::C => "C"@,
            Lang::Java => "Java"@,
            Lang::Python => "Python"@,
            Lang::JavaScript => "JavaScript"@,
            Lang::Rust => "Rust"@,
            Lang::Go => "Go"@,
        }
    }

    /// The name of this target identity, for reporting.
    pub fn name(&self) -> (r: &'static str)
        ensures
            r@ == self.spec_name(),
    {
        match self {
            Lang::Interpret => "Interpret",
            Lang::C => "C",
            Lang::Java => "Java",
            Lang::Python => "Python",
            Lang::JavaScript => "JavaScript",
            Lang::Rust => "Rust",
            Lang::Go => "Go",
        }
    }
}

} // verus!
