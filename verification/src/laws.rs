//! What holds of symbols and pools in general, stated over the contents of a
//! pool and the views of symbols.
use crate::pool::intern_pool;
use crate::pool::owns;
use crate::pool::pool_wf;
use crate::pool::symbol_of;
use crate::symbol::Symbol;
use crate::symbol::SymbolView;
use vstd::prelude::*;
use vstd::std_specs::cmp::PartialEqSpec;

verus! {

/// The symbol made for a text stands for that text.
pub proof fn lemma_round_trip(m: Map<Seq<char>, nat>, a: Seq<char>)
    ensures
        symbol_of(m, a).text == a,
{
}

/// The symbol made for a text stands for an entry of the pool as it is after
/// the text was interned.
pub proof fn lemma_interned_is_owned(m: Map<Seq<char>, nat>, a: Seq<char>)
    ensures
        owns(intern_pool(m, a), symbol_of(m, a)),
{
}

/// Interning never removes or renumbers an entry.
pub proof fn lemma_intern_keeps_entries(m: Map<Seq<char>, nat>, a: Seq<char>)
    ensures
        m.submap_of(intern_pool(m, a)),
{
}

/// A symbol that stands for an entry of a pool still does so in every pool
/// that holds the same entries and more.
pub proof fn lemma_owned_stays_owned(
    m: Map<Seq<char>, nat>,
    later: Map<Seq<char>, nat>,
    s: SymbolView,
)
    requires
        m.submap_of(later),
        owns(m, s),
    ensures
        owns(later, s),
{
}

/// Interning the text of a symbol that the pool already holds gives that
/// symbol again and leaves the pool as it is.
pub proof fn lemma_owned_is_found(m: Map<Seq<char>, nat>, s: SymbolView)
    requires
        owns(m, s),
    ensures
        symbol_of(m, s.text) == s,
        intern_pool(m, s.text) == m,
{
}

/// Interning one text twice gives the same symbol both times, and the second
/// time changes nothing.
pub proof fn lemma_same_text_same_symbol(m: Map<Seq<char>, nat>, a: Seq<char>)
    ensures
        symbol_of(intern_pool(m, a), a) == symbol_of(m, a),
        intern_pool(intern_pool(m, a), a) == intern_pool(m, a),
{
}

/// Interning a text again after another text was interned still gives the
/// symbol of the first time.
pub proof fn lemma_symbol_outlasts_interning(m: Map<Seq<char>, nat>, a: Seq<char>, b: Seq<char>)
    ensures
        symbol_of(intern_pool(intern_pool(m, a), b), a) == symbol_of(m, a),
{
    let first = intern_pool(m, a);
    lemma_interned_is_owned(m, a);
    lemma_intern_keeps_entries(first, b);
    lemma_owned_stays_owned(first, intern_pool(first, b), symbol_of(m, a));
    lemma_owned_is_found(intern_pool(first, b), symbol_of(m, a));
}

/// Interning two different texts, one after the other, gives two symbols of
/// different identity.
pub proof fn lemma_distinct_text_distinct_symbol(
    m: Map<Seq<char>, nat>,
    a: Seq<char>,
    b: Seq<char>,
)
    requires
        pool_wf(m),
        a != b,
    ensures
        symbol_of(m, a).id != symbol_of(intern_pool(m, a), b).id,
{
    let first = intern_pool(m, a);
    let second = intern_pool(first, b);
    crate::pool::lemma_intern_keeps_wf(m, a);
    crate::pool::lemma_intern_keeps_wf(first, b);
    lemma_interned_is_owned(m, a);
    lemma_interned_is_owned(first, b);
    lemma_intern_keeps_entries(first, b);
    lemma_owned_stays_owned(first, second, symbol_of(m, a));
    lemma_identity_is_content(second, symbol_of(m, a), symbol_of(first, b));
}

/// Two symbols of one pool have the same identity exactly when they stand
/// for the same text.
pub proof fn lemma_identity_is_content(m: Map<Seq<char>, nat>, s: SymbolView, t: SymbolView)
    requires
        pool_wf(m),
        owns(m, s),
        owns(m, t),
    ensures
        s.id == t.id <==> s.text == t.text,
        s.id == t.id <==> s == t,
{
}

/// The pool after the texts of `texts` were interned in `m`, one after the
/// other.
pub open spec fn intern_all(m: Map<Seq<char>, nat>, texts: Seq<Seq<char>>) -> Map<Seq<char>, nat>
    decreases texts.len(),
{
    if texts.len() == 0 {
        m
    } else {
        intern_pool(intern_all(m, texts.drop_last()), texts.last())
    }
}

/// The symbol that the call with number `n` gives when the texts of `texts`
/// are interned in `m`, one after the other.
pub open spec fn nth_symbol(m: Map<Seq<char>, nat>, texts: Seq<Seq<char>>, n: int) -> SymbolView
    recommends
        0 <= n < texts.len(),
{
    symbol_of(intern_all(m, texts.take(n)), texts[n])
}

/// However many texts are interned, the pool stays well formed.
pub proof fn lemma_intern_all_keeps_wf(m: Map<Seq<char>, nat>, texts: Seq<Seq<char>>)
    requires
        pool_wf(m),
    ensures
        pool_wf(intern_all(m, texts)),
    decreases texts.len(),
{
    if texts.len() > 0 {
        lemma_intern_all_keeps_wf(m, texts.drop_last());
        crate::pool::lemma_intern_keeps_wf(intern_all(m, texts.drop_last()), texts.last());
    }
}

/// The pool as it is after the first `n` of a run of calls is part of the
/// pool as it is after the whole run.
pub proof fn lemma_intern_all_keeps_entries(
    m: Map<Seq<char>, nat>,
    texts: Seq<Seq<char>>,
    n: int,
)
    requires
        0 <= n <= texts.len(),
    ensures
        intern_all(m, texts.take(n)).submap_of(intern_all(m, texts)),
    decreases texts.len() - n,
{
    if n < texts.len() {
        let before = intern_all(m, texts.take(n));
        let after = intern_all(m, texts.take(n + 1));
        let all = intern_all(m, texts);
        lemma_intern_all_keeps_entries(m, texts, n + 1);
        assert(texts.take(n + 1).drop_last() =~= texts.take(n));
        assert(after == intern_pool(before, texts[n]));
        lemma_intern_keeps_entries(before, texts[n]);
        assert forall|k: Seq<char>| #[trigger] before.dom().contains(k) implies all.dom().contains(
            k,
        ) && before[k] == all[k] by {
            assert(after.dom().contains(k));
        }
    } else {
        assert(texts.take(n) =~= texts);
    }
}

/// In any run of calls on one pool, in whatever order they come, two calls
/// give symbols of the same identity exactly when they intern the same text.
pub proof fn lemma_calls_agree(m: Map<Seq<char>, nat>, texts: Seq<Seq<char>>, i: int, j: int)
    requires
        pool_wf(m),
        0 <= i < texts.len(),
        0 <= j < texts.len(),
    ensures
        nth_symbol(m, texts, i).id == nth_symbol(m, texts, j).id <==> texts[i] == texts[j],
        texts[i] == texts[j] ==> nth_symbol(m, texts, i) == nth_symbol(m, texts, j),
{
    let all = intern_all(m, texts);
    lemma_intern_all_keeps_wf(m, texts);
    lemma_nth_symbol_is_owned(m, texts, i);
    lemma_nth_symbol_is_owned(m, texts, j);
    lemma_identity_is_content(all, nth_symbol(m, texts, i), nth_symbol(m, texts, j));
}

/// The symbol that a call gives stands for an entry of the pool as it is
/// after every later call.
pub proof fn lemma_nth_symbol_is_owned(m: Map<Seq<char>, nat>, texts: Seq<Seq<char>>, n: int)
    requires
        0 <= n < texts.len(),
    ensures
        owns(intern_all(m, texts), nth_symbol(m, texts, n)),
{
    let before = intern_all(m, texts.take(n));
    assert(texts.take(n + 1).drop_last() =~= texts.take(n));
    assert(intern_all(m, texts.take(n + 1)) == intern_pool(before, texts[n]));
    lemma_interned_is_owned(before, texts[n]);
    lemma_intern_all_keeps_entries(m, texts, n + 1);
    lemma_owned_stays_owned(
        intern_all(m, texts.take(n + 1)),
        intern_all(m, texts),
        nth_symbol(m, texts, n),
    );
}

/// `==` between symbols holds of a symbol and itself, and so of a symbol and
/// its copy.
pub proof fn lemma_copy_is_equal(s: Symbol)
    ensures
        s.eq_spec(&s),
{
}

/// `==` between two symbols of one pool holds exactly when they stand for
/// the same text.
pub proof fn lemma_equal_symbols(m: Map<Seq<char>, nat>, s: Symbol, t: Symbol)
    requires
        pool_wf(m),
        owns(m, s@),
        owns(m, t@),
    ensures
        s.eq_spec(&t) <==> s@.text == t@.text,
{
    lemma_identity_is_content(m, s@, t@);
}

/// A symbol made for a text equals that text by content, whichever of the
/// two stands on the left.
pub proof fn lemma_symbol_equals_its_text(m: Map<Seq<char>, nat>, a: &str, s: Symbol)
    requires
        s@ == symbol_of(m, a@),
    ensures
        s.eq_spec(a),
        s.eq_spec(&a),
        a.eq_spec(&s),
        (&a).eq_spec(&s),
{
}

/// A symbol equals a text by content exactly when the symbol's text is that
/// text, whichever of the two stands on the left.
pub proof fn lemma_text_equality_is_content(s: Symbol, a: &str)
    ensures
        s.eq_spec(a) <==> s@.text == a@,
        a.eq_spec(&s) <==> s@.text == a@,
        s.eq_spec(&a) <==> s@.text == a@,
        (&a).eq_spec(&s) <==> s@.text == a@,
{
}

} // verus!
