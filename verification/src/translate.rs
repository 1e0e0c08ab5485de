//! The single-pass translation: one left-to-right scan of a source text,
//! each recognized instruction dispatched to the active backend, every other
//! character skipped, bracketed by the backend's prologue and epilogue.
//!
//! The emitted text is a pure function of the source text and the backend —
//! [`emitted`] — so two independent runs on the same input are byte-identical
//! by construction. No bracket balance is checked: an unbalanced source still
//! translates, and only the downstream host toolchain may reject the result.

use vstd::prelude::*;

use crate::backend::Backend;
use crate::lang::{has_backend, instr_of_char, Lang};

verus! {

/// What a single character of the source text contributes to the emitted
/// program: one fragment for an instruction, nothing for an inert character.
pub open spec fn emit_char(b: Backend, c: char) -> Seq<char> {
    match instr_of_char(c) {
        Some(i) => b.spec_fragment(i),
        None => Seq::empty(),
    }
}

/// The body a left-to-right scan of `src` emits: the concatenation of every
/// character's contribution, in source order.
pub open spec fn emit_body(b: Backend, src: Seq<char>) -> Seq<char>
    decreases src.len(),
{
    if src.len() == 0 {
        Seq::empty()
    } else {
        emit_char(b, src[0]) + emit_body(b, src.skip(1))
    }
}

/// The full program text one translation pass emits for `src`.
pub open spec fn emitted(b: Backend, src: Seq<char>) -> Seq<char> {
    b.spec_prologue() + emit_body(b, src) + b.spec_epilogue()
}

/// Extending the scanned prefix by one character appends exactly that
/// character's contribution.
proof fn lemma_emit_body_snoc(b: Backend, s: Seq<char>, c: char)
    ensures
        emit_body(b, s.push(c)) == emit_body(b, s) + emit_char(b, c),
    decreases s.len(),
{
    if s.len() == 0 {
        let p = s.push(c);
        assert(p[0] == c);
        assert(p.skip(1) =~= Seq::<char>::empty());
        assert(emit_body(b, p.skip(1)) == Seq::<char>::empty());
        assert(emit_body(b, p) == emit_char(b, c) + Seq::<char>::empty());
        assert(emit_body(b, s) == Seq::<char>::empty());
        assert(emit_char(b, c) + Seq::<char>::empty() =~= Seq::<char>::empty() + emit_char(
            b,
            c,
        ));
    } else {
        assert(s.push(c)[0] == s[0]);
        assert(s.push(c).skip(1) =~= s.skip(1).push(c));
        lemma_emit_body_snoc(b, s.skip(1), c);
        assert(emit_body(b, s.push(c)) =~= emit_body(b, s) + emit_char(b, c));
    }
}

/// Translate `src` for backend `b`: emit the prologue, scan the source once
/// dispatching each instruction, emit the epilogue. Total on every source
/// text — malformed or unbalanced input is never rejected here.
pub fn translate(src: &str, b: Backend) -> (out: String)
    ensures
        out@ == emitted(b, src@),
{
    let mut out = String::new();
    out.append(b.prologue());
    let n = src.unicode_len();
    let mut idx: usize = 0;
    while idx < n
        invariant
            idx <= n,
            n == src@.len(),
            out@ == b.spec_prologue() + emit_body(b, src@.take(idx as int)),
        decreases n - idx,
    {
        let c = src.get_char(idx);
        match crate::lang::classify_char(c) {
            Some(i) => out.append(b.fragment(i)),
            None => (),
        }
        proof {
            lemma_emit_body_snoc(b, src@.take(idx as int), c);
            assert(src@.take(idx + 1) =~= src@.take(idx as int).push(c));
            assert(out@ =~= b.spec_prologue() + emit_body(b, src@.take(idx + 1)));
        }
        idx = idx + 1;
    }
    proof {
        assert(src@.take(n as int) =~= src@);
    }
    out.append(b.epilogue());
    proof {
        assert(out@ =~= emitted(b, src@));
    }
    out
}

/// Why a requested translation was refused.
#[derive(Clone, Copy, PartialEq, Eq, Structural, Debug)]
pub enum TranslateError {
    /// The target identity is recognized but no backend implements it yet.
    UnsupportedTarget(Lang),
}

impl TranslateError {
    /// A description of the error, for reporting.
    pub fn message(&self) -> (r: String)
        ensures
            self matches TranslateError::UnsupportedTarget(l) ==> r@ == "target not yet supported: "@
                + l.spec_name(),
    {
        match self {
            TranslateError::UnsupportedTarget(l) => {
                let mut m = String::new();
                m.append("target not yet supported: ");
                m.append(l.name());
                m
            },
        }
    }
}

/// Translate `src` for the target identity `l`: the emitted program text
/// where a backend exists, and an explicit failure — never a silent no-op —
/// where the target is recognized but not implemented.
pub fn translate_for_target(src: &str, l: Lang) -> (r: Result<String, TranslateError>)
    ensures
        has_backend(l) <==> r is Ok,
        r matches Ok(out) ==> out@ == emitted(Backend::spec_for_target(l), src@),
        r matches Err(e) ==> e == TranslateError::UnsupportedTarget(l),
{
    match Backend::for_target(l) {
        Some(b) => Ok(translate(src, b)),
        None => Err(TranslateError::UnsupportedTarget(l)),
    }
}

/// Determinism: the emitted artifact is a function of the source text and
/// the backend alone, so any two translation runs on the same input produce
/// byte-identical text.
pub proof fn lemma_translation_deterministic(b: Backend, src: Seq<char>, a1: Seq<char>, a2: Seq<char>)
    requires
        a1 == emitted(b, src),
        a2 == emitted(b, src),
    ensures
        a1 == a2,
{
}

/// A scan emits the two halves of a split source independently, one after
/// the other.
proof fn lemma_emit_body_concat(b: Backend, s: Seq<char>, t: Seq<char>)
    ensures
        emit_body(b, s + t) == emit_body(b, s) + emit_body(b, t),
    decreases s.len(),
{
    if s.len() == 0 {
        assert(s + t =~= t);
        assert(emit_body(b, s) + emit_body(b, t) =~= emit_body(b, t));
    } else {
        assert((s + t)[0] == s[0]);
        assert((s + t).skip(1) =~= s.skip(1) + t);
        lemma_emit_body_concat(b, s.skip(1), t);
        assert(emit_body(b, s + t) =~= emit_body(b, s) + emit_body(b, t));
    }
}

/// A source text of inert characters only contributes nothing to the body.
proof fn lemma_emit_body_inert(b: Backend, s: Seq<char>)
    requires
        forall|k: int| 0 <= k < s.len() ==> instr_of_char(s[k]) is None,
    ensures
        emit_body(b, s) == Seq::<char>::empty(),
    decreases s.len(),
{
    if s.len() > 0 {
        lemma_emit_body_inert(b, s.skip(1));
        assert(emit_body(b, s) =~= Seq::<char>::empty());
    }
}

/// Inert characters are inert: inserting any run of non-instruction
/// characters anywhere in a source text leaves the emitted artifact
/// unchanged, for every backend.
pub proof fn lemma_inert_insertion(b: Backend, pre: Seq<char>, ins: Seq<char>, post: Seq<char>)
    requires
        forall|k: int| 0 <= k < ins.len() ==> instr_of_char(ins[k]) is None,
    ensures
        emitted(b, pre + ins + post) == emitted(b, pre + post),
{
    lemma_emit_body_concat(b, pre + ins, post);
    lemma_emit_body_concat(b, pre, ins);
    lemma_emit_body_inert(b, ins);
    lemma_emit_body_concat(b, pre, post);
    assert(emit_body(b, pre) + Seq::<char>::empty() =~= emit_body(b, pre));
    assert(emitted(b, pre + ins + post) =~= emitted(b, pre + post));
}

} // verus!
