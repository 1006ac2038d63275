//! The handle that stands for an interned text.
use crate::pool::intern;
use crate::pool::intern_pool;
use crate::pool::owns;
use crate::pool::symbol_of;
use crate::pool::Pool;
use vstd::prelude::*;
use vstd::std_specs::cmp::PartialEqSpecImpl;

verus! {

/// What a symbol is, mathematically: the number of its entry in the pool,
/// which is its identity, and the text of that entry.
pub ghost struct SymbolView {
    pub id: nat,
    pub text: Seq<char>,
}

/// Handle to one entry of a pool.
///
/// Copying a symbol copies the handle, not the text.  `==` between two
/// symbols compares their identities only, and the hash of a symbol is that
/// of its identity: symbols and texts do not replace each other as keys of
/// one hash table.  `==` between a symbol and a text compares contents.
///
/// An identity is the entry's number in its pool, so symbols are compared
/// with symbols of the same pool.
#[derive(Clone, Copy, Debug)]
pub struct Symbol {
    id: usize,
    text: &'static str,
}

impl View for Symbol {
    type V = SymbolView;

    closed spec fn view(&self) -> SymbolView {
        SymbolView { id: self.id as nat, text: self.text@ }
    }
}

impl Symbol {
    /// The symbol of the entry with number `id` and stored text `text`.
    pub(crate) fn from_entry(id: usize, text: &'static str) -> (sym: Symbol)
        ensures
            sym@ == (SymbolView { id: id as nat, text: text@ }),
    {
        Symbol { id, text }
    }

    /// Stores `s` in `pool` if it is not already there and returns a symbol
    /// for the stored entry, the new one or the one that was there.
    pub fn new(pool: &mut Pool, s: &str) -> (sym: Symbol)
        requires
            old(pool).wf(),
        ensures
            final(pool).wf(),
            final(pool)@ == intern_pool(old(pool)@, s@),
            sym@ == symbol_of(old(pool)@, s@),
            owns(final(pool)@, sym@),
            old(pool)@.submap_of(final(pool)@),
    {
        intern(pool, s)
    }

    /// Returns a new string with the text that this symbol stands for.
    pub fn to_string(&self) -> (r: String)
        ensures
            r@ == self@.text,
    {
        self.text.to_owned()
    }

    /// Returns the stored text that this symbol stands for.
    pub fn as_str(&self) -> (r: &'static str)
        ensures
            r@ == self@.text,
    {
        self.text
    }
}

impl PartialEq for Symbol {
    /// Identity comparison: the texts are not read.
    fn eq(&self, other: &Symbol) -> (r: bool) {
        self.id == other.id
    }
}

impl Eq for Symbol {}

impl PartialEqSpecImpl for Symbol {
    open spec fn obeys_eq_spec() -> bool {
        true
    }

    open spec fn eq_spec(&self, other: &Symbol) -> bool {
        self@.id == other@.id
    }
}

/// `str`'s `==`: whether two texts have the same content.
#[verifier::external_body]
fn same_text(a: &str, b: &str) -> (r: bool)
    ensures
        r == (a@ == b@),
{
    a.eq(b)
}

impl PartialEq<str> for Symbol {
    /// Content comparison of the symbol's text with `other`.
    fn eq(&self, other: &str) -> (r: bool) {
        same_text(self.text, other)
    }
}

impl PartialEqSpecImpl<str> for Symbol {
    open spec fn obeys_eq_spec() -> bool {
        true
    }

    open spec fn eq_spec(&self, other: &str) -> bool {
        self@.text == other@
    }
}

impl<'a> PartialEq<&'a str> for Symbol {
    /// Content comparison of the symbol's text with `other`.
    fn eq(&self, other: &&'a str) -> (r: bool) {
        same_text(self.text, *other)
    }
}

impl<'a> PartialEqSpecImpl<&'a str> for Symbol {
    open spec fn obeys_eq_spec() -> bool {
        true
    }

    open spec fn eq_spec(&self, other: &&'a str) -> bool {
        self@.text == other@
    }
}

impl PartialEq<Symbol> for str {
    /// Content comparison of this text with the symbol's.
    fn eq(&self, other: &Symbol) -> (r: bool) {
        same_text(self, other.text)
    }
}

impl PartialEqSpecImpl<Symbol> for str {
    open spec fn obeys_eq_spec() -> bool {
        true
    }

    open spec fn eq_spec(&self, other: &Symbol) -> bool {
        self@ == other@.text
    }
}

impl<'a> PartialEq<Symbol> for &'a str {
    /// Content comparison of this text with the symbol's.
    fn eq(&self, other: &Symbol) -> (r: bool) {
        same_text(*self, other.text)
    }
}

impl<'a> PartialEqSpecImpl<Symbol> for &'a str {
    open spec fn obeys_eq_spec() -> bool {
        true
    }

    open spec fn eq_spec(&self, other: &Symbol) -> bool {
        self@ == other@.text
    }
}

/// `usize`'s `Hash::hash`: feeds the number to the hasher.  Nothing is
/// claimed of the hasher's state afterwards.
pub assume_specification<H>[ <usize as std::hash::Hash>::hash::<H> ](value: &usize, state: &mut H) where
    H: std::hash::Hasher,
;

impl std::hash::Hash for Symbol {
    /// Hashes the symbol's identity, not its text.
    fn hash<H: std::hash::Hasher>(&self, state: &mut H) {
        self.id.hash(state);
    }
}

} // verus!
