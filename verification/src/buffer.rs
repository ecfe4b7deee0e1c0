//! The owned text buffer and its single-owner, deep-duplicate semantics.

use vstd::prelude::*;
use vstd::string::StringExecFns;

verus! {

/// A growable, heap-backed text buffer with exactly one owning binding.
///
/// The binding that holds a `TextBuf` owns its backing storage. Assigning
/// the buffer to another binding transfers that ownership and invalidates
/// the source binding; `duplicate` makes a deep copy with storage of its
/// own; and the storage is given back exactly once, either by an explicit
/// `release` or when the owning binding's scope ends. The type is
/// deliberately neither `Copy` nor implicitly cloneable, so a use of a
/// binding after its value moved away, like a second release of the same
/// storage, is rejected before the program ever runs.
pub struct TextBuf {
    text: String,
}

impl View for TextBuf {
    type V = Seq<char>;

    closed spec fn view(&self) -> Seq<char> {
        self.text@
    }
}

impl TextBuf {
    /// Creates a buffer owning a fresh copy of the given fixed text.
    pub fn from_literal(s: &str) -> (buf: TextBuf)
        ensures
            buf@ == s@,
    {
        TextBuf { text: String::from_str(s) }
    }

    /// Appends `s` at the end of the buffer, growing its storage as needed.
    pub fn append(&mut self, s: &str)
        ensures
            final(self)@ == old(self)@ + s@,
    {
        self.text.append(s);
    }

    /// Produces an independent deep copy: the duplicate owns fresh storage
    /// holding the same text, so the original and the duplicate can grow
    /// and be released separately from then on.
    pub fn duplicate(&self) -> (dup: TextBuf)
        ensures
            dup@ == self@,
    {
        TextBuf { text: self.text.clone() }
    }

    /// A read-only borrow of the owned text.
    pub fn as_str(&self) -> (s: &str)
        ensures
            s@ == self@,
    {
        self.text.as_str()
    }

    /// Consumes the buffer and hands its backing storage over to the
    /// returned `String`; the caller's new binding is the sole owner.
    pub fn into_string(self) -> (s: String)
        ensures
            s@ == self@,
    {
        self.text
    }

    /// Gives the buffer's storage back early, before the owning binding's
    /// scope would end. The buffer is taken by value, so the releasing
    /// binding is consumed: no later read of it, and no second release of
    /// the same storage, can be written.
    pub fn release(self) {
    }
}

/// Non-aliasing law: a duplicate owns storage of its own, so growing the
/// duplicate never changes what the original buffer holds. For every
/// buffer and every appended suffix, the pair that comes back holds the
/// original with exactly its old text beside the duplicate holding the
/// old text followed by the suffix.
pub fn duplicate_then_append(original: TextBuf, suffix: &str) -> (pair: (TextBuf, TextBuf))
    ensures
        pair.0@ == original@,
        pair.1@ == original@ + suffix@,
{
    let mut dup = original.duplicate();
    dup.append(suffix);
    (original, dup)
}

} // verus!
