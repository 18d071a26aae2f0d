//! The order of strings and of optional dates, as `String` and `Option<String>` order them.
use vstd::prelude::*;

use crate::text::chars_of;

verus! {

/// `a` comes before `b` or equals it, character by character, a prefix before what it
/// prefixes. This is the order of `String`: its bytes compared one by one, which in UTF-8
/// agrees with comparing the characters.
pub open spec fn text_le(a: Seq<char>, b: Seq<char>) -> bool
    decreases a.len(),
{
    if a.len() == 0 {
        true
    } else if b.len() == 0 {
        false
    } else if a[0] != b[0] {
        a[0] < b[0]
    } else {
        text_le(a.skip(1), b.skip(1))
    }
}

/// The order of `Option<String>`: no date comes before any date, dates in text order.
pub open spec fn date_le(a: Option<Seq<char>>, b: Option<Seq<char>>) -> bool {
    match (a, b) {
        (None, _) => true,
        (Some(_), None) => false,
        (Some(x), Some(y)) => text_le(x, y),
    }
}

pub proof fn lemma_text_le_reflexive(a: Seq<char>)
    ensures
        text_le(a, a),
    decreases a.len(),
{
    if a.len() > 0 {
        lemma_text_le_reflexive(a.skip(1));
    }
}

pub proof fn lemma_text_le_antisymmetric(a: Seq<char>, b: Seq<char>)
    requires
        text_le(a, b),
        text_le(b, a),
    ensures
        a == b,
    decreases a.len(),
{
    if a.len() > 0 && b.len() > 0 {
        lemma_text_le_antisymmetric(a.skip(1), b.skip(1));
        assert(a =~= seq![a[0]] + a.skip(1));
        assert(b =~= seq![b[0]] + b.skip(1));
    } else {
        assert(a.len() == 0 && b.len() == 0);
        assert(a =~= b);
    }
}

pub proof fn lemma_text_le_transitive(a: Seq<char>, b: Seq<char>, c: Seq<char>)
    requires
        text_le(a, b),
        text_le(b, c),
    ensures
        text_le(a, c),
    decreases a.len(),
{
    if a.len() > 0 && b.len() > 0 && c.len() > 0 && a[0] == b[0] && b[0] == c[0] {
        lemma_text_le_transitive(a.skip(1), b.skip(1), c.skip(1));
    }
}

pub proof fn lemma_text_le_total(a: Seq<char>, b: Seq<char>)
    ensures
        text_le(a, b) || text_le(b, a),
    decreases a.len(),
{
    if a.len() > 0 && b.len() > 0 && a[0] == b[0] {
        lemma_text_le_total(a.skip(1), b.skip(1));
    }
}

pub proof fn lemma_date_le_reflexive(a: Option<Seq<char>>)
    ensures
        date_le(a, a),
{
    if let Some(x) = a {
        lemma_text_le_reflexive(x);
    }
}

pub proof fn lemma_date_le_antisymmetric(a: Option<Seq<char>>, b: Option<Seq<char>>)
    requires
        date_le(a, b),
        date_le(b, a),
    ensures
        a == b,
{
    if let (Some(x), Some(y)) = (a, b) {
        lemma_text_le_antisymmetric(x, y);
    }
}

pub proof fn lemma_date_le_transitive(
    a: Option<Seq<char>>,
    b: Option<Seq<char>>,
    c: Option<Seq<char>>,
)
    requires
        date_le(a, b),
        date_le(b, c),
    ensures
        date_le(a, c),
{
    if let (Some(x), Some(y), Some(z)) = (a, b, c) {
        lemma_text_le_transitive(x, y, z);
    }
}

pub proof fn lemma_date_le_total(a: Option<Seq<char>>, b: Option<Seq<char>>)
    ensures
        date_le(a, b) || date_le(b, a),
{
    if let (Some(x), Some(y)) = (a, b) {
        lemma_text_le_total(x, y);
    }
}

/// Whether `a` comes before `b` or equals it, in the order of `String`.
pub fn text_at_most(a: &str, b: &str) -> (r: bool)
    ensures
        r == text_le(a@, b@),
{
    let av = chars_of(a);
    let bv = chars_of(b);
    let mut i: usize = 0;
    assert(av@.skip(0) =~= av@);
    assert(bv@.skip(0) =~= bv@);
    while i < av.len() && i < bv.len() && av[i] == bv[i]
        invariant
            av@ == a@,
            bv@ == b@,
            i <= av.len(),
            i <= bv.len(),
            text_le(a@, b@) == text_le(av@.skip(i as int), bv@.skip(i as int)),
        decreases av.len() - i,
    {
        let ghost (x, y) = (av@.skip(i as int), bv@.skip(i as int));
        assert(x.skip(1) =~= av@.skip(i + 1));
        assert(y.skip(1) =~= bv@.skip(i + 1));
        i = i + 1;
    }
    let ghost (x, y) = (av@.skip(i as int), bv@.skip(i as int));
    if i == av.len() {
        true
    } else if i == bv.len() {
        false
    } else {
        assert(x[0] == av@[i as int] && y[0] == bv@[i as int]);
        av[i] < bv[i]
    }
}

/// Whether the date `a` comes before `b` or equals it, in the order of `Option<String>`.
pub fn date_at_most(a: &Option<String>, b: &Option<String>) -> (r: bool)
    ensures
        r == date_le(crate::types::opt_view(*a), crate::types::opt_view(*b)),
{
    match (a, b) {
        (None, _) => true,
        (Some(_), None) => false,
        (Some(x), Some(y)) => text_at_most(x.as_str(), y.as_str()),
    }
}

} // verus!
