//! The pool of stored texts and the operation that fills it.
use crate::symbol::Symbol;
use crate::symbol::SymbolView;
use vstd::hash_map::StringHashMap;
use vstd::prelude::*;

verus! {

/// A pool's contents are well formed when they are finite, every entry's
/// number is below the number of entries, and no number is used twice.
pub open spec fn pool_wf(m: Map<Seq<char>, nat>) -> bool {
    &&& m.dom().finite()
    &&& forall|k: Seq<char>| #[trigger] m.contains_key(k) ==> m[k] < m.len()
    &&& forall|j: Seq<char>, k: Seq<char>|
        #[trigger] m.contains_key(j) && #[trigger] m.contains_key(k) && m[j] == m[k] ==> j == k
}

/// The pool after `text` was interned in `m`: unchanged where `text` is
/// already stored, else with `text` added under the next free number.
pub open spec fn intern_pool(m: Map<Seq<char>, nat>, text: Seq<char>) -> Map<Seq<char>, nat> {
    if m.contains_key(text) {
        m
    } else {
        m.insert(text, m.len())
    }
}

/// The symbol that interning `text` in `m` gives: that of the entry which
/// holds `text`, or of the entry that is added for it.
pub open spec fn symbol_of(m: Map<Seq<char>, nat>, text: Seq<char>) -> SymbolView {
    SymbolView { id: if m.contains_key(text) { m[text] } else { m.len() }, text }
}

/// `s` stands for an entry of `m`: its text is stored there, under its
/// number.
pub open spec fn owns(m: Map<Seq<char>, nat>, s: SymbolView) -> bool {
    m.contains_key(s.text) && m[s.text] == s.id
}

/// The stored texts, each found by its content.
///
/// Every text is stored once, in a buffer that is never moved or freed, and
/// no entry is ever removed.
pub struct Pool {
    entries: StringHashMap<Symbol>,
}

impl View for Pool {
    type V = Map<Seq<char>, nat>;

    /// Each stored text with the number of its entry.
    closed spec fn view(&self) -> Map<Seq<char>, nat> {
        Map::new(|k: Seq<char>| self.entries@.contains_key(k), |k: Seq<char>| self.entries@[k]@.id)
    }
}

impl Pool {
    /// The pool's invariant: its contents are well formed, and each entry
    /// is found by the text that it holds.
    pub closed spec fn wf(&self) -> bool {
        &&& pool_wf(self@)
        &&& forall|k: Seq<char>| #[trigger]
            self.entries@.contains_key(k) ==> self.entries@[k]@.text == k
    }

    /// The contents of a valid pool are well formed.
    pub proof fn lemma_wf(&self)
        requires
            self.wf(),
        ensures
            pool_wf(self@),
    {
    }

    /// An empty pool.
    pub fn new() -> (pool: Pool)
        ensures
            pool.wf(),
            pool@ == Map::<Seq<char>, nat>::empty(),
    {
        let pool = Pool { entries: StringHashMap::new() };
        assert(pool@ =~= Map::<Seq<char>, nat>::empty());
        pool
    }

    /// The number of stored texts.
    pub fn len(&self) -> (n: usize)
        requires
            self.wf(),
        ensures
            n == self@.len(),
    {
        proof {
            self.lemma_same_texts();
        }
        self.entries.len()
    }

    /// The contents hold the texts of the entries, and no others.
    proof fn lemma_same_texts(&self)
        ensures
            self@.dom() == self.entries@.dom(),
            self@.len() == self.entries@.len(),
            forall|k: Seq<char>| #[trigger]
                self@.contains_key(k) ==> self@[k] == self.entries@[k]@.id,
    {
        assert(self@.dom() =~= self.entries@.dom());
    }
}

/// `String::leak`: gives up ownership of the string's buffer, which is then
/// never freed, and returns a reference to its unchanged content.
#[verifier::external_body]
fn leak(s: String) -> (r: &'static str)
    ensures
        r@ == s@,
{
    s.leak()
}

/// Returns the symbol of the one entry of `pool` that holds `text`, after
/// storing a copy of `text` as a new entry if there was none.
///
/// Any text is accepted, the empty one too.  An entry that is found is
/// handed out as it is, without a new copy of the text.
pub fn intern(pool: &mut Pool, text: &str) -> (sym: Symbol)
    requires
        old(pool).wf(),
    ensures
        final(pool).wf(),
        final(pool)@ == intern_pool(old(pool)@, text@),
        sym@ == symbol_of(old(pool)@, text@),
        owns(final(pool)@, sym@),
        old(pool)@.submap_of(final(pool)@),
{
    proof {
        pool.lemma_same_texts();
    }
    match pool.entries.get(text) {
        Some(found) => *found,
        None => {
            let id: usize = pool.entries.len();
            let sym = Symbol::from_entry(id, leak(text.to_owned()));
            pool.entries.insert(text.to_owned(), sym);
            proof {
                let before = old(pool)@;
                let after = before.insert(text@, before.len());
                pool.lemma_same_texts();
                assert(pool@ =~= after);
                lemma_intern_keeps_wf(before, text@);
            }
            sym
        },
    }
}

/// Interning in well-formed contents leaves them well formed.
pub proof fn lemma_intern_keeps_wf(m: Map<Seq<char>, nat>, text: Seq<char>)
    requires
        pool_wf(m),
    ensures
        pool_wf(intern_pool(m, text)),
{
    let after = intern_pool(m, text);
    if !m.contains_key(text) {
        assert(after.dom() =~= m.dom().insert(text));
        assert(after.len() == m.len() + 1);
        assert forall|k: Seq<char>| #[trigger] after.contains_key(k) implies after[k]
            < after.len() by {
            if k != text {
                assert(m.contains_key(k));
            }
        }
        assert forall|j: Seq<char>, k: Seq<char>|
            #[trigger] after.contains_key(j) && #[trigger] after.contains_key(k) && after[j]
                == after[k] implies j == k by {
            if j != text {
                assert(m.contains_key(j));
            }
            if k != text {
                assert(m.contains_key(k));
            }
        }
    }
}

} // verus!
