//! The two working backends: independent emission tables that render each
//! instruction, plus a prologue and an epilogue, in one target language.
//!
//! A backend is stateless: it only selects which emission table to use. The
//! emitted fragments are fixed texts, so every operation here is a pure
//! function of the backend and the instruction.

use vstd::prelude::*;

use crate::lang::{has_backend, Instr, Lang};

verus! {

/// A code generator for one target language. One value is constructed per
/// requested target and drives exactly one translation pass.
#[derive(Clone, Copy, PartialEq, Eq, Structural, Debug)]
pub enum Backend {
    /// Emits C: a `char` tape walked through a pointer.
    C,
    /// Emits Go: a `uint8` slice walked through an index.
    Go,
}

impl Backend {
    /// The target identity this backend implements.
    pub open spec fn spec_target(self) -> Lang {
        match self {
            Backend::C => Lang::C,
            Backend::Go => Lang::Go,
        }
    }

    /// See [`Backend::spec_target`].
    pub fn target(self) -> (r: Lang)
        ensures
            r == self.spec_target(),
    {
        match self {
            Backend::C => Lang::C,
            Backend::Go => Lang::Go,
        }
    }

    /// The backend that implements a target identity; meaningful only where
    /// one exists.
    pub open spec fn spec_for_target(l: Lang) -> Backend
        recommends
            has_backend(l),
    {
        if l == Lang::Go {
            Backend::Go
        } else {
            Backend::C
        }
    }

    /// The backend for a target identity, or `None` exactly for the
    /// recognized-but-unimplemented targets, which must fail fast.
    pub fn for_target(l: Lang) -> (r: Option<Backend>)
        ensures
            has_backend(l) <==> r is Some,
            r is Some ==> r->0 == Backend::spec_for_target(l) && r->0.spec_target() == l,
    {
        match l {
            Lang::C => Some(Backend::C),
            Lang::Go => Some(Backend::Go),
            _ => None,
        }
    }

    /// Everything the target language requires before the first instruction:
    /// the program entry point, a 30,000-cell byte tape, and a cursor at the
    /// tape's first cell.
    pub open spec fn spec_prologue(self) -> Seq<char> {
        match self {
            Backend::C => (
            "#include <stdio.h>\nint main() {char arr[30000] = {0}; char *ptr = arr;"
            )@,
            Backend::Go => (
            "package main;import \"bufio\";import \"fmt\";import \"os\";var in = bufio.NewReader(os.Stdin);func getchar () uint8 { r,_,_ := in.ReadRune(); return uint8(r);};func main() {arr := make([]uint8, 30000);ptr := 0;"
            )@,
        }
    }

    /// See [`Backend::spec_prologue`].
    pub fn prologue(self) -> (r: &'static str)
        ensures
            r@ == self.spec_prologue(),
    {
        match self {
            Backend::C => (
            "#include <stdio.h>\nint main() {char arr[30000] = {0}; char *ptr = arr;"
            ),
            Backend::Go => (
            "package main;import \"bufio\";import \"fmt\";import \"os\";var in = bufio.NewReader(os.Stdin);func getchar () uint8 { r,_,_ := in.ReadRune(); return uint8(r);};func main() {arr := make([]uint8, 30000);ptr := 0;"
            ),
        }
    }

    /// Whatever the target requires to close the program entry point.
    pub open spec fn spec_epilogue(self) -> Seq<char> {
        match self {
            Backend::C => "return 0;}"@,
            Backend::Go => "}"@,
        }
    }

    /// See [`Backend::spec_epilogue`].
    pub fn epilogue(self) -> (r: &'static str)
        ensures
            r@ == self.spec_epilogue(),
    {
        match self {
            Backend::C => "return 0;}",
            Backend::Go => "}",
        }
    }

    /// The target-language statement equivalent to one instruction. Loop
    /// constructs use the target's native structured control flow, so nesting
    /// correctness is delegated to the host compiler; cell arithmetic wraps
    /// however the target's own 8-bit arithmetic wraps.
    pub open spec fn spec_fragment(self, i: Instr) -> Seq<char> {
        match self {
            Backend::C => match i {
                Instr::MoveRight => "++ptr;"@,
                Instr::MoveLeft => "--ptr;"@,
                Instr::Increment => "++*ptr;"@,
                Instr::Decrement => "--*ptr;"@,
                Instr::Output => "putchar(*ptr);"@,
                Instr::Input => "*ptr = getchar();"@,
                Instr::LoopOpen => "while (*ptr) {"@,
                Instr::LoopClose => "}"@,
            },
            Backend::Go => match i {
                Instr::MoveRight => "ptr+=1;"@,
                Instr::MoveLeft => "ptr-=1;"@,
                Instr::Increment => "arr[ptr]+=1;"@,
                Instr::Decrement => "arr[ptr]-=1;"@,
                Instr::Output => "fmt.Printf(\"%c\", arr[ptr]);"@,
                Instr::Input => "arr[ptr] = getchar();"@,
                Instr::LoopOpen => "for arr[ptr] != 0 {"@,
                Instr::LoopClose => "};"@,
            },
        }
    }

    /// See [`Backend::spec_fragment`].
    pub fn fragment(self, i: Instr) -> (r: &'static str)
        ensures
            r@ == self.spec_fragment(i),
    {
        match self {
            Backend::C => match i {
                Instr::MoveRight => "++ptr;",
                Instr::MoveLeft => "--ptr;",
                Instr::Increment => "++*ptr;",
                Instr::Decrement => "--*ptr;",
                Instr::Output => "putchar(*ptr);",
                Instr::Input => "*ptr = getchar();",
                Instr::LoopOpen => "while (*ptr) {",
                Instr::LoopClose => "}",
            },
            Backend::Go => match i {
                Instr::MoveRight => "ptr+=1;",
                Instr::MoveLeft => "ptr-=1;",
                Instr::Increment => "arr[ptr]+=1;",
                Instr::Decrement => "arr[ptr]-=1;",
                Instr::Output => "fmt.Printf(\"%c\", arr[ptr]);",
                Instr::Input => "arr[ptr] = getchar();",
                Instr::LoopOpen => "for arr[ptr] != 0 {",
                Instr::LoopClose => "};",
            },
        }
    }

    /// The conventional file-name suffix for generated source of this target.
    pub open spec fn spec_extension(self) -> Seq<char> {
        match self {
            Backend::C => "c"@,
            Backend::Go => "go"@,
        }
    }

    /// See [`Backend::spec_extension`].
    pub fn extension(self) -> (r: &'static str)
        ensures
            r@ == self.spec_extension(),
    {
        match self {
            Backend::C => "c",
            Backend::Go => "go",
        }
    }

    /// The suffix that marks this target's compiled executable; it extends
    /// the source suffix, so artifacts of different targets never collide.
    pub open spec fn spec_exe_extension(self) -> Seq<char> {
        match self {
            Backend::C => "c.exe"@,
            Backend::Go => "go.exe"@,
        }
    }

    /// See [`Backend::spec_exe_extension`].
    pub fn exe_extension(self) -> (r: &'static str)
        ensures
            r@ == self.spec_exe_extension(),
    {
        match self {
            Backend::C => "c.exe",
            Backend::Go => "go.exe",
        }
    }
}

/// Distinct backends use distinct source extensions, so translating one input
/// for two targets always yields two distinct sibling artifacts.
pub proof fn lemma_extensions_distinct(a: Backend, b: Backend)
    requires
        a != b,
    ensures
        a.spec_extension() != b.spec_extension(),
{
    reveal_strlit("c");
    reveal_strlit("go");
    assert("c"@.len() == 1);
    assert("go"@.len() == 2);
}

} // verus!
