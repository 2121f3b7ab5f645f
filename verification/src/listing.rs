//! Listings: the visible names of one directory, in listing order.

use crate::names::{
    hidden, is_hidden, lemma_name_le_antisymmetric, lemma_name_le_connected,
    lemma_name_le_reflexive, lemma_name_le_transitive, lemma_name_order_total, name_le,
    name_order, precedes,
};
use vstd::prelude::*;
use vstd::relations::sorted_by;
use vstd::seq_lib::{lemma_sorted_unique, to_multiset_build, to_multiset_insert};

verus! {

/// The names that a vector of strings holds, in order.
pub open spec fn names_of(v: Seq<String>) -> Seq<Seq<char>> {
    v.map_values(|s: String| s@)
}

/// One entry of a directory read: its name, or `None` where the name is not
/// readable text.
pub open spec fn entry_name(e: Option<String>) -> Option<Seq<char>> {
    match e {
        Some(s) => Some(s@),
        None => None,
    }
}

/// What a directory read yields, entry by entry.
pub open spec fn entries_of(v: Seq<Option<String>>) -> Seq<Option<Seq<char>>> {
    v.map_values(|e: Option<String>| entry_name(e))
}

/// The name under which an entry is listed, if it is listed at all:
/// unreadable and hidden names are not.
pub open spec fn shown_name(entry: Option<Seq<char>>) -> Option<Seq<char>> {
    match entry {
        Some(name) => if is_hidden(name) {
            None
        } else {
            Some(name)
        },
        None => None,
    }
}

/// The visible names among the entries, in the order in which they were read.
pub open spec fn visible_names(entries: Seq<Option<Seq<char>>>) -> Seq<Seq<char>> {
    entries.filter_map(|e: Option<Seq<char>>| shown_name(e))
}

/// The listing of a directory with the given entries: its visible names, sorted.
pub open spec fn listing_of(entries: Seq<Option<Seq<char>>>) -> Seq<Seq<char>> {
    visible_names(entries).sort_by(name_order())
}

/// What holds of every listing: it is in ascending order and shows no hidden name.
pub open spec fn is_listing(names: Seq<Seq<char>>) -> bool {
    &&& sorted_by(names, name_order())
    &&& forall|i: int| 0 <= i < names.len() ==> !is_hidden(#[trigger] names[i])
}

/// The listing of a directory is a listing, and it holds exactly the visible
/// names of the directory, each as often as it was read.
pub proof fn lemma_listing_of_is_listing(entries: Seq<Option<Seq<char>>>)
    ensures
        is_listing(listing_of(entries)),
        listing_of(entries).to_multiset() == visible_names(entries).to_multiset(),
{
    let visible = visible_names(entries);
    let sorted = listing_of(entries);
    lemma_name_order_total();
    visible.lemma_sort_by_ensures(name_order());
    assert forall|i: int| 0 <= i < sorted.len() implies !is_hidden(#[trigger] sorted[i]) by {
        assert(sorted.contains(sorted[i]));
        entries.lemma_filter_map_contains(|e: Option<Seq<char>>| shown_name(e), sorted[i]);
    }
}

/// A listing is pinned down by what it holds: a sorted sequence with exactly
/// the visible names of a directory is the listing of that directory.
pub proof fn lemma_listing_of_unique(entries: Seq<Option<Seq<char>>>, names: Seq<Seq<char>>)
    requires
        sorted_by(names, name_order()),
        names.to_multiset() == visible_names(entries).to_multiset(),
    ensures
        names == listing_of(entries),
{
    lemma_name_order_total();
    lemma_listing_of_is_listing(entries);
    lemma_sorted_unique(names, listing_of(entries), name_order());
}

/// How often a name occurs among the visible names: as often as it was read,
/// unless it is hidden.
proof fn lemma_visible_names_count(entries: Seq<Option<Seq<char>>>, name: Seq<char>)
    ensures
        visible_names(entries).to_multiset().count(name) == if is_hidden(name) {
            0
        } else {
            entries.to_multiset().count(Some(name))
        },
    decreases entries.len(),
{
    broadcast use vstd::seq_lib::group_to_multiset_ensures;

    if entries.len() > 0 {
        let rest = entries.drop_last();
        let last = entries.last();
        lemma_visible_names_count(rest, name);
        assert(entries =~= rest.push(last));
        if let Some(shown) = shown_name(last) {
            assert(visible_names(entries) =~= visible_names(rest).push(shown));
        }
    }
}

/// A name is listed exactly when it was read and is not hidden.
pub proof fn lemma_listing_of_contains(entries: Seq<Option<Seq<char>>>, name: Seq<char>)
    ensures
        listing_of(entries).contains(name) <==> entries.contains(Some(name)) && !is_hidden(name),
{
    broadcast use vstd::seq_lib::group_to_multiset_ensures;

    lemma_listing_of_is_listing(entries);
    lemma_visible_names_count(entries, name);
}

/// The order in which a directory is read does not show in its listing: two
/// reads that yield the same entries, in whatever order, give the same listing.
pub proof fn lemma_listing_ignores_read_order(
    first: Seq<Option<Seq<char>>>,
    second: Seq<Option<Seq<char>>>,
)
    requires
        first.to_multiset() == second.to_multiset(),
    ensures
        listing_of(first) == listing_of(second),
{
    assert forall|name: Seq<char>|
        visible_names(first).to_multiset().count(name) == visible_names(
            second,
        ).to_multiset().count(name) by {
        lemma_visible_names_count(first, name);
        lemma_visible_names_count(second, name);
    }
    assert(visible_names(first).to_multiset() =~= visible_names(second).to_multiset());
    lemma_listing_of_is_listing(first);
    lemma_listing_of_unique(second, listing_of(first));
}

/// The visible names of the first `i + 1` entries are those of the first `i`,
/// followed by the name of entry `i` where that entry is listed.
proof fn lemma_visible_names_step(entries: Seq<Option<Seq<char>>>, i: int)
    requires
        0 <= i < entries.len(),
    ensures
        visible_names(entries.take(i + 1)) == match shown_name(entries[i]) {
            Some(name) => visible_names(entries.take(i)).push(name),
            None => visible_names(entries.take(i)),
        },
{
    let f = |e: Option<Seq<char>>| shown_name(e);
    entries.lemma_filter_map_take_succ(f, i);
    match shown_name(entries[i]) {
        Some(name) => {
            assert(visible_names(entries.take(i)) + seq![name] =~= visible_names(
                entries.take(i),
            ).push(name));
        },
        None => {
            assert(visible_names(entries.take(i)) + Seq::<Seq<char>>::empty()
                =~= visible_names(entries.take(i)));
        },
    }
}

/// Inserting a visible name at its insertion point keeps a listing a listing.
proof fn lemma_insert_keeps_listing(names: Seq<Seq<char>>, p: int, name: Seq<char>)
    requires
        is_listing(names),
        0 <= p <= names.len(),
        !is_hidden(name),
        forall|j: int| 0 <= j < p ==> name_le(#[trigger] names[j], name),
        forall|j: int| p <= j < names.len() ==> !name_le(#[trigger] names[j], name),
    ensures
        is_listing(names.insert(p, name)),
{
    let after = names.insert(p, name);
    assert forall|i: int, j: int| 0 <= i < j < after.len() implies #[trigger] name_order()(
        after[i],
        after[j],
    ) by {
        if i == p {
            lemma_name_le_connected(names[j - 1], name);
        }
    }
}

/// The index before which `name` is inserted to keep `names` sorted: every
/// name before it is ordered before or equal to `name`, no name from it on is.
fn insertion_point(names: &Vec<String>, name: &str) -> (p: usize)
    requires
        sorted_by(names_of(names@), name_order()),
    ensures
        p <= names.len(),
        forall|j: int| 0 <= j < p ==> name_le(#[trigger] names_of(names@)[j], name@),
        forall|j: int| p <= j < names.len() ==> !name_le(#[trigger] names_of(names@)[j], name@),
{
    let ghost s = names_of(names@);
    let mut lo: usize = 0;
    let mut hi: usize = names.len();
    while lo < hi
        invariant
            s == names_of(names@),
            sorted_by(s, name_order()),
            lo <= hi <= names.len(),
            forall|j: int| 0 <= j < lo ==> name_le(#[trigger] s[j], name@),
            forall|j: int| hi <= j < s.len() ==> !name_le(#[trigger] s[j], name@),
        decreases hi - lo,
    {
        let mid: usize = lo + (hi - lo) / 2;
        if precedes(names[mid].as_str(), name) {
            proof {
                assert forall|j: int| 0 <= j < mid + 1 implies name_le(#[trigger] s[j], name@) by {
                    if j < mid {
                        assert(name_order()(s[j], s[mid as int]));
                        lemma_name_le_transitive(s[j], s[mid as int], name@);
                    }
                }
            }
            lo = mid + 1;
        } else {
            proof {
                assert forall|j: int| mid <= j < s.len() implies !name_le(
                    #[trigger] s[j],
                    name@,
                ) by {
                    if mid < j && name_le(s[j], name@) {
                        assert(name_order()(s[mid as int], s[j]));
                        lemma_name_le_transitive(s[mid as int], s[j], name@);
                    }
                }
            }
            hi = mid;
        }
    }
    lo
}

/// The sorted, hidden-free names of one directory. A listing is made whole
/// and never changed afterwards.
#[derive(Debug)]
pub struct Listing {
    names: Vec<String>,
}

impl View for Listing {
    type V = Seq<Seq<char>>;

    closed spec fn view(&self) -> Seq<Seq<char>> {
        names_of(self.names@)
    }
}

impl Listing {
    /// Every listing is sorted and free of hidden names.
    #[verifier::type_invariant]
    pub open spec fn well_formed(self) -> bool {
        is_listing(self@)
    }

    /// The listing with no names.
    pub fn empty() -> (l: Listing)
        ensures
            l@ == Seq::<Seq<char>>::empty(),
    {
        let names: Vec<String> = Vec::new();
        Listing { names }
    }

    /// The listing of a directory whose read yielded `entries`, in any order.
    pub fn from_entries(entries: Vec<Option<String>>) -> (l: Listing)
        ensures
            l@ == listing_of(entries_of(entries@)),
            is_listing(l@),
            l@.to_multiset() == visible_names(entries_of(entries@)).to_multiset(),
    {
        let ghost raw = entries@;
        let ghost all = entries_of(raw);
        let mut names: Vec<String> = Vec::new();
        assert(names_of(names@) =~= Seq::<Seq<char>>::empty());
        for entry in it: entries
            invariant
                it.seq() == raw,
                all == entries_of(raw),
                is_listing(names_of(names@)),
                names_of(names@).to_multiset() == visible_names(all.take(it.index())).to_multiset(),
        {
            let ghost before = names_of(names@);
            let ghost i = it.index();
            proof {
                lemma_visible_names_step(all, i);
            }
            match entry {
                Some(name) => {
                    if !hidden(name.as_str()) {
                        let p = insertion_point(&names, name.as_str());
                        names.insert(p, name);
                        proof {
                            assert(names_of(names@) =~= before.insert(p as int, name@));
                            lemma_insert_keeps_listing(before, p as int, name@);
                            to_multiset_insert(before, p as int, name@);
                            to_multiset_build(visible_names(all.take(i)), name@);
                        }
                    }
                },
                None => {},
            }
        }
        proof {
            assert(all.take(all.len() as int) =~= all);
            lemma_name_order_total();
            visible_names(all).lemma_sort_by_ensures(name_order());
            lemma_sorted_unique(names_of(names@), listing_of(all), name_order());
        }
        Listing { names }
    }

    /// The number of names.
    pub fn len(&self) -> (n: usize)
        ensures
            n == self@.len(),
    {
        self.names.len()
    }

    /// Whether the listing holds no name.
    pub fn is_empty(&self) -> (empty: bool)
        ensures
            empty == (self@.len() == 0),
    {
        self.names.len() == 0
    }

    /// The name at `index` in listing order, if there is one.
    pub fn get(&self, index: usize) -> (name: Option<&str>)
        ensures
            match name {
                Some(n) => index < self@.len() && n@ == self@[index as int],
                None => index >= self@.len(),
            },
    {
        if index < self.names.len() {
            Some(self.names[index].as_str())
        } else {
            None
        }
    }

    /// Whether `name` is one of the names listed.
    pub fn contains(&self, name: &str) -> (found: bool)
        ensures
            found == self@.contains(name@),
    {
        proof {
            use_type_invariant(self);
        }
        let ghost s = self@;
        let p = insertion_point(&self.names, name);
        if p == 0 {
            assert forall|j: int| 0 <= j < s.len() implies s[j] != name@ by {
                lemma_name_le_reflexive(name@);
            }
            false
        } else {
            let found = precedes(name, self.names[p - 1].as_str());
            proof {
                if found {
                    lemma_name_le_antisymmetric(s[p - 1], name@);
                } else {
                    assert forall|j: int| 0 <= j < s.len() implies s[j] != name@ by {
                        lemma_name_le_reflexive(name@);
                        if s[j] == name@ && j < p - 1 {
                            assert(name_order()(s[j], s[p - 1]));
                        }
                    }
                }
            }
            found
        }
    }

    /// The names in listing order.
    pub fn names(&self) -> (names: &Vec<String>)
        ensures
            names_of(names@) == self@,
            is_listing(self@),
    {
        proof {
            use_type_invariant(self);
        }
        &self.names
    }
}

} // verus!
