//! Classification of command-line tokens and the plan of one run: which
//! targets were requested, which files are to be translated, and whether the
//! compiled program is to be run afterwards.
//!
//! Options and source-file paths may be interleaved in any order; every token
//! that is not a recognized option is taken as a source-file path. A plan
//! with no source files or no targets is not runnable: the caller reports the
//! usage text and stops without attempting any work.

use vstd::prelude::*;

use crate::lang::Lang;

verus! {

/// What one command-line token means.
#[derive(Clone, Copy, PartialEq, Eq, Structural, Debug)]
pub enum CliToken {
    /// Run each compiled program after building it.
    RunFlag,
    /// Request one more target identity.
    Target(Lang),
    /// Anything else: taken as a source-file path, unvalidated.
    SourceFile,
}

/// The meaning of one token: each recognized option selects exactly one
/// target identity or the run flag; every other token is a source file.
pub open spec fn classify(a: Seq<char>) -> CliToken {
    if a == "-r"@ || a == "-run"@ {
        CliToken::RunFlag
    } else if a == "-i"@ || a == "-interpret"@ {
        CliToken::Target(Lang::Interpret)
    } else if a == "-c"@ {
        CliToken::Target(Lang::C)
    } else if a == "-j"@ || a == "-java"@ {
        CliToken::Target(Lang::Java)
    } else if a == "-py"@ || a == "-python"@ {
        CliToken::Target(Lang::Python)
    } else if a == "-js"@ {
        CliToken::Target(Lang::JavaScript)
    } else if a == "-rust"@ {
        CliToken::Target(Lang::Rust)
    } else if a == "-go"@ {
        CliToken::Target(Lang::Go)
    } else {
        CliToken::SourceFile
    }
}

/// Whether two texts are equal, character by character.
fn str_eq(a: &str, b: &str) -> (r: bool)
    ensures
        r == (a@ == b@),
{
    let an = a.unicode_len();
    let bn = b.unicode_len();
    if an != bn {
        return false;
    }
    let mut i: usize = 0;
    while i < an
        invariant
            i <= an,
            an == a@.len(),
            an == b@.len(),
            forall|k: int| 0 <= k < i ==> a@[k] == b@[k],
        decreases an - i,
    {
        if a.get_char(i) != b.get_char(i) {
            return false;
        }
        i = i + 1;
    }
    proof {
        assert(a@ =~= b@);
    }
    true
}

/// Classify one command-line token.
pub fn classify_arg(a: &str) -> (r: CliToken)
    ensures
        r == classify(a@),
{
    if str_eq(a, "-r") || str_eq(a, "-run") {
        CliToken::RunFlag
    } else if str_eq(a, "-i") || str_eq(a, "-interpret") {
        CliToken::Target(Lang::Interpret)
    } else if str_eq(a, "-c") {
        CliToken::Target(Lang::C)
    } else if str_eq(a, "-j") || str_eq(a, "-java") {
        CliToken::Target(Lang::Java)
    } else if str_eq(a, "-py") || str_eq(a, "-python") {
        CliToken::Target(Lang::Python)
    } else if str_eq(a, "-js") {
        CliToken::Target(Lang::JavaScript)
    } else if str_eq(a, "-rust") {
        CliToken::Target(Lang::Rust)
    } else if str_eq(a, "-go") {
        CliToken::Target(Lang::Go)
    } else {
        CliToken::SourceFile
    }
}

/// The targets the tokens request, in token order, one entry per occurrence
/// (a repeated option requests its target again).
pub open spec fn targets_of(args: Seq<Seq<char>>) -> Seq<Lang>
    decreases args.len(),
{
    if args.len() == 0 {
        Seq::empty()
    } else {
        let rest = targets_of(args.drop_last());
        match classify(args.last()) {
            CliToken::Target(l) => rest.push(l),
            _ => rest,
        }
    }
}

/// The source-file tokens, in token order.
pub open spec fn sources_of(args: Seq<Seq<char>>) -> Seq<Seq<char>>
    decreases args.len(),
{
    if args.len() == 0 {
        Seq::empty()
    } else {
        let rest = sources_of(args.drop_last());
        match classify(args.last()) {
            CliToken::SourceFile => rest.push(args.last()),
            _ => rest,
        }
    }
}

/// Whether some token sets the run flag.
pub open spec fn run_requested(args: Seq<Seq<char>>) -> bool {
    exists|k: int| 0 <= k < args.len() && classify(args[k]) == CliToken::RunFlag
}

/// One more token sets the run flag exactly when it is the flag itself or
/// the flag was already set.
proof fn lemma_run_requested_snoc(s: Seq<Seq<char>>, a: Seq<char>)
    ensures
        run_requested(s.push(a)) == (run_requested(s) || classify(a) == CliToken::RunFlag),
{
    if run_requested(s) {
        let k = choose|k: int| 0 <= k < s.len() && classify(s[k]) == CliToken::RunFlag;
        assert(classify(s.push(a)[k]) == CliToken::RunFlag);
    }
    if classify(a) == CliToken::RunFlag {
        assert(classify(s.push(a)[s.len() as int]) == CliToken::RunFlag);
    }
    if run_requested(s.push(a)) {
        let k = choose|k: int|
            0 <= k < s.push(a).len() && classify(s.push(a)[k]) == CliToken::RunFlag;
        if k < s.len() {
            assert(classify(s[k]) == CliToken::RunFlag);
        }
    }
}

/// The plan of one run, accumulated from the command-line tokens.
pub struct RunPlan {
    /// The requested target identities, in request order.
    pub targets: Vec<Lang>,
    /// The source-file paths, in request order.
    pub sources: Vec<String>,
    /// Whether each compiled program is to be run after building.
    pub run_after: bool,
}

impl RunPlan {
    /// A plan can be carried out only when it names at least one source file
    /// and at least one target; otherwise the caller must print the usage
    /// text and stop.
    pub fn is_runnable(&self) -> (r: bool)
        ensures
            r == (self.targets@.len() > 0 && self.sources@.len() > 0),
    {
        self.targets.len() > 0 && self.sources.len() > 0
    }
}

/// Accumulate the run plan from the command-line tokens (the program name
/// already removed): targets and source files in order, and the run flag.
pub fn build_plan(args: &Vec<String>) -> (p: RunPlan)
    ensures
        p.targets@ == targets_of(args.deep_view()),
        p.sources.deep_view() == sources_of(args.deep_view()),
        p.run_after == run_requested(args.deep_view()),
{
    let mut targets: Vec<Lang> = Vec::new();
    let mut sources: Vec<String> = Vec::new();
    let mut run_after = false;
    let n = args.len();
    let mut i: usize = 0;
    while i < n
        invariant
            i <= n,
            n == args@.len(),
            targets@ == targets_of(args.deep_view().take(i as int)),
            sources.deep_view() == sources_of(args.deep_view().take(i as int)),
            run_after == run_requested(args.deep_view().take(i as int)),
        decreases n - i,
    {
        let ghost prefix = args.deep_view().take(i as int);
        let ghost next = args.deep_view().take(i + 1);
        proof {
            assert(next =~= prefix.push(args.deep_view()[i as int]));
            assert(next.drop_last() =~= prefix);
            assert(next.last() == args.deep_view()[i as int]);
            lemma_run_requested_snoc(prefix, args.deep_view()[i as int]);
        }
        match classify_arg(args[i].as_str()) {
            CliToken::RunFlag => {
                run_after = true;
            },
            CliToken::Target(l) => {
                targets.push(l);
            },
            CliToken::SourceFile => {
                sources.push(args[i].clone());
            },
        }
        proof {
            assert(targets_of(next) =~= targets@);
            assert(sources_of(next) =~= sources.deep_view());
        }
        i = i + 1;
    }
    proof {
        assert(args.deep_view().take(n as int) =~= args.deep_view());
    }
    RunPlan { targets, sources, run_after }
}

/// The usage text printed when a run names no source file or no target.
pub fn usage_text() -> (r: &'static str)
    ensures
        r@ == (
        "Usage: bf <source> [options...]\nSupported options:\n  -r[un]    to run the program after compilation\n  -c\n  -j[ava]\n  -py[thon]\n  -js\n  -rust\n  -go\n"
        )@,
{
    "Usage: bf <source> [options...]\nSupported options:\n  -r[un]    to run the program after compilation\n  -c\n  -j[ava]\n  -py[thon]\n  -js\n  -rust\n  -go\n"
}

} // verus!
