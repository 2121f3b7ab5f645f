//! Entry names: the hidden-file marker and the order in which names are listed.

use vstd::prelude::*;
use vstd::relations::total_ordering;
use vstd::std_specs::iter::IteratorSpec;

verus! {

/// The character that hides a name when it leads it.
pub const HIDDEN_MARKER: char = '.';

/// A name is hidden when it starts with the hidden marker.
pub open spec fn is_hidden(name: Seq<char>) -> bool {
    name.len() > 0 && name[0] == HIDDEN_MARKER
}

/// Lexicographic order by code point: `a` comes before `b` or equals it.
pub open spec fn name_le(a: Seq<char>, b: Seq<char>) -> bool
    decreases a.len(),
{
    if a.len() == 0 {
        true
    } else if b.len() == 0 {
        false
    } else if a[0] != b[0] {
        (a[0] as u32) < (b[0] as u32)
    } else {
        name_le(a.drop_first(), b.drop_first())
    }
}

/// The listing order as a relation, for use with sortedness predicates.
pub open spec fn name_order() -> spec_fn(Seq<char>, Seq<char>) -> bool {
    |a: Seq<char>, b: Seq<char>| name_le(a, b)
}

/// Distinct characters have distinct code points.
proof fn lemma_code_point_injective(c: char, d: char)
    ensures
        c as u32 == d as u32 ==> c == d,
{
    vstd::utf8::char_u32_cast(c, c as u32);
    vstd::utf8::char_u32_cast(d, d as u32);
}

/// Every name is ordered before or equal to itself.
pub proof fn lemma_name_le_reflexive(a: Seq<char>)
    ensures
        name_le(a, a),
    decreases a.len(),
{
    if a.len() > 0 {
        lemma_name_le_reflexive(a.drop_first());
    }
}

/// Two names that are ordered both ways are the same name.
pub proof fn lemma_name_le_antisymmetric(a: Seq<char>, b: Seq<char>)
    requires
        name_le(a, b),
        name_le(b, a),
    ensures
        a == b,
    decreases a.len(),
{
    if a.len() > 0 && b.len() > 0 {
        lemma_name_le_antisymmetric(a.drop_first(), b.drop_first());
        assert(b =~= seq![b[0]] + b.drop_first());
    }
}

/// The order is transitive.
pub proof fn lemma_name_le_transitive(a: Seq<char>, b: Seq<char>, c: Seq<char>)
    requires
        name_le(a, b),
        name_le(b, c),
    ensures
        name_le(a, c),
    decreases a.len(),
{
    if a.len() > 0 && a[0] == b[0] && b[0] == c[0] {
        lemma_name_le_transitive(a.drop_first(), b.drop_first(), c.drop_first());
    }
}

/// Any two names are ordered one way or the other.
pub proof fn lemma_name_le_connected(a: Seq<char>, b: Seq<char>)
    ensures
        name_le(a, b) || name_le(b, a),
    decreases a.len(),
{
    if a.len() > 0 && b.len() > 0 {
        if a[0] == b[0] {
            lemma_name_le_connected(a.drop_first(), b.drop_first());
        } else {
            lemma_code_point_injective(a[0], b[0]);
        }
    }
}

/// The listing order is a total order on names: the order of a listing is
/// determined by the names alone.
pub proof fn lemma_name_order_total()
    ensures
        total_ordering(name_order()),
{
    let r = name_order();
    assert forall|a: Seq<char>| #[trigger] r(a, a) by {
        lemma_name_le_reflexive(a);
    }
    assert forall|a: Seq<char>, b: Seq<char>| #[trigger] r(a, b) && #[trigger] r(b, a) implies a
        == b by {
        lemma_name_le_antisymmetric(a, b);
    }
    assert forall|a: Seq<char>, b: Seq<char>, c: Seq<char>| #[trigger]
        r(a, b) && #[trigger] r(b, c) implies r(a, c) by {
        lemma_name_le_transitive(a, b, c);
    }
    assert forall|a: Seq<char>, b: Seq<char>| #[trigger] r(a, b) || #[trigger] r(b, a) by {
        lemma_name_le_connected(a, b);
    }
}

/// Whether `name` is hidden.
pub fn hidden(name: &str) -> (yes: bool)
    ensures
        yes == is_hidden(name@),
{
    let mut chars = name.chars();
    match chars.next() {
        Some(first) => first == HIDDEN_MARKER,
        None => false,
    }
}

/// Whether `a` is listed before `b`, or is the same name. The two names are
/// walked together up to their first difference.
pub fn precedes(a: &str, b: &str) -> (yes: bool)
    ensures
        yes == name_le(a@, b@),
{
    let mut rest_a = a.chars();
    let mut rest_b = b.chars();
    let ghost mut common: int = 0;
    loop
        invariant
            0 <= common <= a@.len(),
            common <= b@.len(),
            rest_a.remaining() == a@.skip(common),
            rest_b.remaining() == b@.skip(common),
            name_le(a@, b@) == name_le(a@.skip(common), b@.skip(common)),
        decreases a@.len() - common,
    {
        let next_a = rest_a.next();
        let next_b = rest_b.next();
        match (next_a, next_b) {
            (None, _) => {
                return true;
            },
            (Some(_), None) => {
                return false;
            },
            (Some(in_a), Some(in_b)) => {
                if in_a != in_b {
                    return (in_a as u32) < (in_b as u32);
                }
                proof {
                    assert(a@.skip(common).drop_first() == a@.skip(common + 1));
                    assert(b@.skip(common).drop_first() == b@.skip(common + 1));
                    common = common + 1;
                }
            },
        }
    }
}

} // verus!
