//! The demonstration routines and the exact text they produce.

use vstd::prelude::*;
use vstd::string::StringExecFns;

use crate::buffer::TextBuf;

verus! {

/// The lines the entry routine yields: the text first bound to a
/// rebindable fixed-text reference, the text after rebinding it (read
/// inside a nested scope), and the same text read through a second
/// binding that aliases the rebound reference.
pub open spec fn entry_output() -> Seq<Seq<char>> {
    seq!["wow"@, "howw"@, "howw"@]
}

/// The lines the auxiliary routine yields: the owned buffer after a
/// literal was appended to it, then the original and its deep duplicate
/// shown side by side.
pub open spec fn auxiliary_output() -> Seq<Seq<char>> {
    seq!["hello, world"@, "s1 = hello, s2 = hello"@]
}

/// Everything one full run yields, in order: the entry routine's lines
/// followed by the auxiliary routine's lines.
pub open spec fn full_output() -> Seq<Seq<char>> {
    entry_output() + auxiliary_output()
}

/// The entry routine. A rebindable reference to fixed text is bound,
/// read, rebound to a second fixed text and read again inside a nested
/// scope, and finally copied into a second binding, which is read last.
/// Rebinding never changes the fixed texts themselves, and copying a
/// reference leaves both bindings usable, so the second and third lines
/// agree.
pub fn entry_lines() -> (lines: Vec<String>)
    ensures
        lines.deep_view() == entry_output(),
{
    let mut lines: Vec<String> = Vec::new();
    let mut s: &str = "wow";
    lines.push(String::from_str(s));
    s = "howw";
    {
        lines.push(String::from_str(s));
    }
    let x: &str = s;
    lines.push(String::from_str(x));
    proof {
        assert(lines.deep_view() =~= entry_output());
    }
    lines
}

/// The auxiliary routine, in three steps. First an owned buffer is
/// created from a literal, a second literal is appended to it, and the
/// grown text becomes the first line. Then a buffer is created, its
/// ownership is transferred to a new binding, and the new owner releases
/// the storage early; neither binding can be touched afterwards. Last, a
/// buffer is created and deeply duplicated, and both the original and
/// the duplicate — independently owned and still equal — make up the
/// second line.
pub fn strings() -> (lines: Vec<String>)
    ensures
        lines.deep_view() == auxiliary_output(),
{
    let mut lines: Vec<String> = Vec::new();

    let mut grown = TextBuf::from_literal("hello");
    grown.append(", world");
    lines.push(grown.into_string());

    let moved = TextBuf::from_literal("hello");
    let new_owner = moved;
    new_owner.release();

    let s1 = TextBuf::from_literal("hello");
    let s2 = s1.duplicate();
    let mut both = String::from_str("s1 = ");
    both.append(s1.as_str());
    both.append(", s2 = ");
    both.append(s2.as_str());
    lines.push(both);

    proof {
        reveal_strlit("hello");
        reveal_strlit(", world");
        reveal_strlit("hello, world");
        reveal_strlit("s1 = ");
        reveal_strlit(", s2 = ");
        reveal_strlit("s1 = hello, s2 = hello");
        assert(lines@[0]@ =~= "hello, world"@);
        assert(lines@[1]@ =~= "s1 = hello, s2 = hello"@);
        assert(lines.deep_view() =~= auxiliary_output());
    }
    lines
}

/// One full run: the entry routine's lines followed by the auxiliary
/// routine's lines, five in all.
pub fn run() -> (lines: Vec<String>)
    ensures
        lines.deep_view() == full_output(),
{
    let mut lines = entry_lines();
    let mut rest = strings();
    lines.append(&mut rest);
    proof {
        assert(lines.deep_view() =~= full_output());
    }
    lines
}

} // verus!
