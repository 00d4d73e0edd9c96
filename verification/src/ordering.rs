//! Lists that are put in order by a text and, behind it, a number, without
//! changing places of equal entries.
use vstd::prelude::*;

use crate::text::{same_text, string_views};
use crate::text_map::{
    at_most, lemma_text_le_antisymmetric, lemma_text_le_reflexive, lemma_text_le_total,
    lemma_text_le_transitive, text_le, text_lt,
};

verus! {

/// A value with what it is ordered by.
pub struct OrderedEntry<T> {
    pub key: String,
    pub rank: u64,
    pub value: T,
}

/// An entry as it is compared: its key, its rank and its value.
pub type EntryView<V> = (Seq<char>, u64, V);

impl<T: View> View for OrderedEntry<T> {
    type V = EntryView<T::V>;

    open spec fn view(&self) -> EntryView<T::V> {
        (self.key@, self.rank, self.value@)
    }
}

/// The views of entries.
pub open spec fn entry_views<T: View>(list: Seq<OrderedEntry<T>>) -> Seq<EntryView<T::V>> {
    Seq::new(list.len(), |i: int| list[i]@)
}

/// The values of entries.
pub open spec fn entry_values<V>(list: Seq<EntryView<V>>) -> Seq<V> {
    Seq::new(list.len(), |i: int| list[i].2)
}

/// Whether an entry does not come after another: by key, then by rank.
pub open spec fn not_after<V>(a: EntryView<V>, b: EntryView<V>) -> bool {
    text_le(a.0, b.0) && (a.0 == b.0 ==> a.1 <= b.1)
}

/// The list with an entry behind the last one that does not come after it.
pub open spec fn placed<V>(list: Seq<EntryView<V>>, entry: EntryView<V>) -> Seq<EntryView<V>>
    decreases list.len(),
{
    if list.len() == 0 || not_after(list.last(), entry) {
        list.push(entry)
    } else {
        placed(list.drop_last(), entry).push(list.last())
    }
}

/// The list in order.
pub open spec fn in_order<V>(list: Seq<EntryView<V>>) -> Seq<EntryView<V>>
    decreases list.len(),
{
    if list.len() == 0 {
        list
    } else {
        placed(in_order(list.drop_last()), list.last())
    }
}

fn is_not_after<T: View>(a: &OrderedEntry<T>, b: &OrderedEntry<T>) -> (r: bool)
    ensures
        r == not_after(a@, b@),
{
    at_most(a.key.as_str(), b.key.as_str()) && (!same_text(a.key.as_str(), b.key.as_str()) || a.rank
        <= b.rank)
}

proof fn lemma_placed_at<V>(list: Seq<EntryView<V>>, entry: EntryView<V>, at: int)
    requires
        0 <= at <= list.len(),
        forall|j: int| at <= j < list.len() ==> !not_after(#[trigger] list[j], entry),
        at == 0 || not_after(list[at - 1], entry),
    ensures
        placed(list, entry) == list.insert(at, entry),
    decreases list.len(),
{
    if at == list.len() {
        assert(list.insert(at, entry) =~= list.push(entry));
    } else {
        lemma_placed_at(list.drop_last(), entry, at);
        assert(list.insert(at, entry) =~= list.drop_last().insert(at, entry).push(list.last()));
    }
}

/// Puts a list in order; equal entries keep their places.
pub fn sort_entries<T: View>(list: Vec<OrderedEntry<T>>) -> (sorted: Vec<OrderedEntry<T>>)
    ensures
        entry_views(sorted@) == in_order(entry_views(list@)),
{
    let ghost whole = entry_views(list@);
    let mut rest = list;
    let mut sorted: Vec<OrderedEntry<T>> = Vec::new();
    let ghost mut done: int = 0;
    assert(whole.take(0) =~= seq![]);
    assert(whole.skip(0) =~= whole);
    assert(entry_views(sorted@) =~= seq![]);
    while rest.len() > 0
        invariant
            0 <= done <= whole.len(),
            entry_views(rest@) == whole.skip(done),
            entry_views(sorted@) == in_order(whole.take(done)),
        decreases rest@.len(),
    {
        let ghost before = entry_views(sorted@);
        let ghost entry_view = rest@[0]@;
        let ghost rest_before = entry_views(rest@);
        let entry = rest.remove(0);
        assert(entry_views(rest@) =~= rest_before.skip(1));
        assert(entry_view == rest_before[0]);
        let mut at: usize = sorted.len();
        while at > 0 && !is_not_after(&sorted[at - 1], &entry)
            invariant
                at <= sorted@.len(),
                before == entry_views(sorted@),
                entry@ == entry_view,
                forall|j: int|
                    at <= j < before.len() ==> !not_after(#[trigger] before[j], entry_view),
            decreases at,
        {
            assert(before[at - 1] == sorted@[at - 1]@);
            at = at - 1;
        }
        proof {
            if at > 0 {
                assert(before[at - 1] == sorted@[at - 1]@);
            }
            lemma_placed_at(before, entry_view, at as int);
        }
        sorted.insert(at, entry);
        proof {
            assert(entry_views(sorted@) =~= before.insert(at as int, entry_view));
            assert(whole.take(done + 1).drop_last() =~= whole.take(done));
            assert(whole.take(done + 1).last() == entry_view);
            assert(rest_before.skip(1) =~= whole.skip(done + 1));
            done = done + 1;
        }
    }
    assert(whole.take(done) =~= whole);
    sorted
}

/// A list in order.
pub open spec fn ordered<V>(list: Seq<EntryView<V>>) -> bool {
    forall|i: int, j: int|
        0 <= i < j < list.len() ==> not_after(#[trigger] list[i], #[trigger] list[j])
}

proof fn lemma_not_after_total<V>(a: EntryView<V>, b: EntryView<V>)
    ensures
        not_after(a, b) || not_after(b, a),
{
    lemma_text_le_total(a.0, b.0);
    lemma_text_le_reflexive(a.0);
    if text_le(a.0, b.0) && text_le(b.0, a.0) {
        lemma_text_le_antisymmetric(a.0, b.0);
    }
}

proof fn lemma_not_after_transitive<V>(
    a: EntryView<V>,
    b: EntryView<V>,
    c: EntryView<V>,
)
    requires
        not_after(a, b),
        not_after(b, c),
    ensures
        not_after(a, c),
{
    lemma_text_le_transitive(a.0, b.0, c.0);
    if a.0 == c.0 {
        lemma_text_le_antisymmetric(a.0, b.0);
    }
}

proof fn lemma_placed<V>(list: Seq<EntryView<V>>, entry: EntryView<V>)
    requires
        ordered(list),
    ensures
        ordered(placed(list, entry)),
        placed(list, entry).to_multiset() == list.push(entry).to_multiset(),
        placed(list, entry).len() == list.len() + 1,
        forall|k: int|
            0 <= k < placed(list, entry).len() ==> #[trigger] placed(list, entry)[k] == entry
                || list.contains(placed(list, entry)[k]),
    decreases list.len(),
{
    broadcast use vstd::seq_lib::group_to_multiset_ensures;

    let out = placed(list, entry);
    if list.len() == 0 || not_after(list.last(), entry) {
        assert forall|i: int, j: int| 0 <= i < j < out.len() implies not_after(
            #[trigger] out[i],
            #[trigger] out[j],
        ) by {
            if j == list.len() && i < list.len() - 1 {
                assert(not_after(list[i], list[list.len() - 1]));
                lemma_not_after_transitive(list[i], list.last(), entry);
            }
        }
        assert forall|k: int| 0 <= k < out.len() implies #[trigger] out[k] == entry
            || list.contains(out[k]) by {
            if k < list.len() {
                assert(out[k] == list[k]);
            }
        }
    } else {
        let head = list.drop_last();
        let last = list.last();
        lemma_placed(head, entry);
        let inner = placed(head, entry);
        assert(list =~= head.push(last));
        assert(out == inner.push(last));
        lemma_not_after_total(last, entry);
        assert forall|i: int, j: int| 0 <= i < j < out.len() implies not_after(
            #[trigger] out[i],
            #[trigger] out[j],
        ) by {
            if j == inner.len() {
                assert(inner[i] == entry || head.contains(inner[i]));
                if inner[i] != entry {
                    let m = choose|m: int| 0 <= m < head.len() && head[m] == inner[i];
                    assert(not_after(list[m], list[list.len() - 1]));
                }
            } else {
                assert(out[i] == inner[i] && out[j] == inner[j]);
            }
        }
        assert forall|k: int| 0 <= k < out.len() implies #[trigger] out[k] == entry
            || list.contains(out[k]) by {
            if k < inner.len() {
                assert(out[k] == inner[k]);
                if inner[k] != entry {
                    let m = choose|m: int| 0 <= m < head.len() && head[m] == inner[k];
                    assert(list[m] == out[k]);
                }
            } else {
                assert(list[list.len() - 1] == out[k]);
            }
        }
        assert(out.to_multiset() =~= list.push(entry).to_multiset());
    }
}

/// A list that was put in order is in order and holds the same entries.
pub proof fn law_sorting_keeps_entries<V>(list: Seq<EntryView<V>>)
    ensures
        ordered(in_order(list)),
        in_order(list).to_multiset() == list.to_multiset(),
        in_order(list).len() == list.len(),
    decreases list.len(),
{
    broadcast use vstd::seq_lib::group_to_multiset_ensures;

    if list.len() > 0 {
        law_sorting_keeps_entries(list.drop_last());
        lemma_placed(in_order(list.drop_last()), list.last());
        assert(list =~= list.drop_last().push(list.last()));
        assert(in_order(list).to_multiset() =~= list.to_multiset());
    }
}

/// An ascending list of texts with one more text, unless it is there.
pub open spec fn with_text(list: Seq<Seq<char>>, text: Seq<char>) -> Seq<Seq<char>>
    decreases list.len(),
{
    if list.len() == 0 || text_lt(list.last(), text) {
        list.push(text)
    } else if list.last() == text {
        list
    } else {
        with_text(list.drop_last(), text).push(list.last())
    }
}

/// The texts of a list, each once, in ascending order.
pub open spec fn text_set(list: Seq<Seq<char>>) -> Seq<Seq<char>>
    decreases list.len(),
{
    if list.len() == 0 {
        list
    } else {
        with_text(text_set(list.drop_last()), list.last())
    }
}

proof fn lemma_with_text_at(list: Seq<Seq<char>>, text: Seq<char>, at: int)
    requires
        0 <= at <= list.len(),
        forall|j: int|
            at <= j < list.len() ==> !text_lt(#[trigger] list[j], text) && list[j] != text,
        at == 0 || text_lt(list[at - 1], text) || list[at - 1] == text,
    ensures
        with_text(list, text) == if at > 0 && list[at - 1] == text {
            list
        } else {
            list.insert(at, text)
        },
    decreases list.len(),
{
    if at == list.len() {
        if at > 0 && list[at - 1] == text {
            assert(!text_lt(list.last(), text));
        } else {
            assert(list.insert(at, text) =~= list.push(text));
        }
    } else {
        lemma_with_text_at(list.drop_last(), text, at);
        if at > 0 && list[at - 1] == text {
            assert(list.drop_last().push(list.last()) =~= list);
        } else {
            assert(list.insert(at, text) =~= list.drop_last().insert(at, text).push(list.last()));
        }
    }
}

/// Puts a text into an ascending list, unless it is there.
pub fn put_text_once(list: &mut Vec<String>, text: &str)
    ensures
        string_views(final(list)@) == with_text(string_views(old(list)@), text@),
{
    let ghost before = string_views(list@);
    let mut at: usize = list.len();
    while at > 0 && !at_most(list[at - 1].as_str(), text)
        invariant
            at <= list@.len(),
            before == string_views(list@),
            list@ == old(list)@,
            forall|j: int|
                at <= j < before.len() ==> !text_lt(#[trigger] before[j], text@) && before[j]
                    != text@,
        decreases at,
    {
        proof {
            lemma_text_le_reflexive(text@);
            assert(before[at - 1] == list@[at - 1]@);
        }
        at = at - 1;
    }
    proof {
        if at > 0 {
            assert(before[at - 1] == list@[at - 1]@);
        }
        lemma_with_text_at(before, text@, at as int);
    }
    if at > 0 && same_text(list[at - 1].as_str(), text) {
        return;
    }
    list.insert(at, text.to_owned());
    assert(string_views(list@) =~= before.insert(at as int, text@));
}

/// The texts of a list, each once, in ascending order.
pub fn distinct_texts(list: &Vec<String>) -> (out: Vec<String>)
    ensures
        string_views(out@) == text_set(string_views(list@)),
{
    let ghost views = string_views(list@);
    let mut out: Vec<String> = Vec::new();
    let mut i: usize = 0;
    assert(views.take(0) =~= seq![]);
    assert(string_views(out@) =~= seq![]);
    while i < list.len()
        invariant
            i <= list@.len(),
            views == string_views(list@),
            string_views(out@) == text_set(views.take(i as int)),
        decreases list@.len() - i,
    {
        assert(views.take(i + 1).drop_last() =~= views.take(i as int));
        put_text_once(&mut out, list[i].as_str());
        i = i + 1;
    }
    assert(views.take(i as int) =~= views);
    out
}

/// A name with its place in an order of its own.
pub struct RankedName {
    pub rank: u32,
    pub name: String,
}

/// The view of a ranked name.
pub open spec fn ranked(item: RankedName) -> (u32, Seq<char>) {
    (item.rank, item.name@)
}

/// The views of ranked names.
pub open spec fn ranked_views(list: Seq<RankedName>) -> Seq<(u32, Seq<char>)> {
    Seq::new(list.len(), |i: int| ranked(list[i]))
}

/// An ascending list of ranks with one more, unless it is there.
pub open spec fn with_rank(list: Seq<(u32, Seq<char>)>, item: (u32, Seq<char>)) -> Seq<
    (u32, Seq<char>),
>
    decreases list.len(),
{
    if list.len() == 0 || list.last().0 < item.0 {
        list.push(item)
    } else if list.last().0 == item.0 {
        list
    } else {
        with_rank(list.drop_last(), item).push(list.last())
    }
}

/// The names of a list, one for each rank, in the order of their ranks.
pub open spec fn rank_set(list: Seq<(u32, Seq<char>)>) -> Seq<(u32, Seq<char>)>
    decreases list.len(),
{
    if list.len() == 0 {
        list
    } else {
        with_rank(rank_set(list.drop_last()), list.last())
    }
}

proof fn lemma_with_rank_at(list: Seq<(u32, Seq<char>)>, item: (u32, Seq<char>), at: int)
    requires
        0 <= at <= list.len(),
        forall|j: int| at <= j < list.len() ==> (#[trigger] list[j]).0 > item.0,
        at == 0 || list[at - 1].0 <= item.0,
    ensures
        with_rank(list, item) == if at > 0 && list[at - 1].0 == item.0 {
            list
        } else {
            list.insert(at, item)
        },
    decreases list.len(),
{
    if at == list.len() {
        if !(at > 0 && list[at - 1].0 == item.0) {
            assert(list.insert(at, item) =~= list.push(item));
        }
    } else {
        lemma_with_rank_at(list.drop_last(), item, at);
        if at > 0 && list[at - 1].0 == item.0 {
            assert(list.drop_last().push(list.last()) =~= list);
        } else {
            assert(list.insert(at, item) =~= list.drop_last().insert(at, item).push(list.last()));
        }
    }
}

/// Puts a name into a list in the order of ranks, unless its rank is there.
pub fn put_rank_once(list: &mut Vec<RankedName>, rank: u32, name: &str)
    ensures
        ranked_views(final(list)@) == with_rank(ranked_views(old(list)@), (rank, name@)),
{
    let ghost before = ranked_views(list@);
    let mut at: usize = list.len();
    while at > 0 && list[at - 1].rank > rank
        invariant
            at <= list@.len(),
            before == ranked_views(list@),
            list@ == old(list)@,
            forall|j: int| at <= j < before.len() ==> (#[trigger] before[j]).0 > rank,
        decreases at,
    {
        assert(before[at - 1] == ranked(list@[at - 1]));
        at = at - 1;
    }
    proof {
        if at > 0 {
            assert(before[at - 1] == ranked(list@[at - 1]));
        }
        lemma_with_rank_at(before, (rank, name@), at as int);
    }
    if at > 0 && list[at - 1].rank == rank {
        return;
    }
    list.insert(at, RankedName { rank, name: name.to_owned() });
    assert(ranked_views(list@) =~= before.insert(at as int, (rank, name@)));
}

proof fn lemma_with_text(list: Seq<Seq<char>>, text: Seq<char>)
    requires
        crate::text_map::ascending(list),
    ensures
        crate::text_map::ascending(with_text(list, text)),
        forall|x: Seq<char>|
            #[trigger] with_text(list, text).contains(x) <==> list.contains(x) || x == text,
    decreases list.len(),
{
    let out = with_text(list, text);
    if list.len() == 0 || text_lt(list.last(), text) {
        assert forall|i: int, j: int| 0 <= i < j < out.len() implies text_lt(
            #[trigger] out[i],
            #[trigger] out[j],
        ) by {
            if j == list.len() && i < list.len() - 1 {
                assert(text_lt(list[i], list[list.len() - 1]));
                lemma_text_le_transitive(list[i], list.last(), text);
                if list[i] == text {
                    lemma_text_le_antisymmetric(list.last(), text);
                }
            }
        }
        assert forall|x: Seq<char>| #[trigger] out.contains(x) <==> list.contains(x) || x == text by {
            if list.contains(x) {
                let m = choose|m: int| 0 <= m < list.len() && list[m] == x;
                assert(out[m] == x);
            }
            assert(out[out.len() - 1] == text);
            if out.contains(x) {
                let m = choose|m: int| 0 <= m < out.len() && out[m] == x;
                if m < list.len() {
                    assert(list[m] == x);
                }
            }
        }
    } else if list.last() == text {
        assert(list.contains(text));
    } else {
        let head = list.drop_last();
        let last = list.last();
        lemma_with_text(head, text);
        let inner = with_text(head, text);
        lemma_text_le_total(last, text);
        assert(text_lt(text, last));
        assert forall|i: int, j: int| 0 <= i < j < out.len() implies text_lt(
            #[trigger] out[i],
            #[trigger] out[j],
        ) by {
            if j == inner.len() {
                assert(inner.contains(inner[i]));
                if inner[i] != text {
                    let m = choose|m: int| 0 <= m < head.len() && head[m] == inner[i];
                    assert(text_lt(list[m], list[list.len() - 1]));
                }
            } else {
                assert(out[i] == inner[i] && out[j] == inner[j]);
            }
        }
        assert forall|x: Seq<char>| #[trigger] out.contains(x) <==> list.contains(x) || x == text by {
            assert(out[out.len() - 1] == last);
            if out.contains(x) {
                let m = choose|m: int| 0 <= m < out.len() && out[m] == x;
                if m < inner.len() {
                    assert(inner[m] == x);
                    assert(inner.contains(x));
                    if head.contains(x) {
                        let k = choose|k: int| 0 <= k < head.len() && head[k] == x;
                        assert(list[k] == x);
                    }
                } else {
                    assert(list[list.len() - 1] == x);
                }
            }
            if list.contains(x) || x == text {
                if x != last {
                    if list.contains(x) {
                        let k = choose|k: int| 0 <= k < list.len() && list[k] == x;
                        assert(head[k] == x);
                    }
                    assert(inner.contains(x));
                    let k = choose|k: int| 0 <= k < inner.len() && inner[k] == x;
                    assert(out[k] == x);
                }
            }
        }
    }
}

/// The distinct texts of a list are strictly ascending and are those of the
/// list.
pub proof fn law_text_set(list: Seq<Seq<char>>)
    ensures
        crate::text_map::ascending(text_set(list)),
        forall|x: Seq<char>| #[trigger] text_set(list).contains(x) <==> list.contains(x),
    decreases list.len(),
{
    if list.len() > 0 {
        law_text_set(list.drop_last());
        lemma_with_text(text_set(list.drop_last()), list.last());
        assert forall|x: Seq<char>| #[trigger] text_set(list).contains(x) <==> list.contains(x) by {
            assert(text_set(list.drop_last()).contains(x) <==> list.drop_last().contains(x));
            if list.contains(x) {
                let k = choose|k: int| 0 <= k < list.len() && list[k] == x;
                if k < list.len() - 1 {
                    assert(list.drop_last()[k] == x);
                }
            }
            if list.drop_last().contains(x) {
                let k = choose|k: int| 0 <= k < list.drop_last().len() && list.drop_last()[k] == x;
                assert(list[k] == x);
            }
            assert(list[list.len() - 1] == list.last());
        }
    }
}

/// A text is put into an ordered list once, in its place, and nothing else
/// changes.
pub proof fn law_texts_are_put_once(list: Seq<Seq<char>>, text: Seq<char>)
    requires
        crate::text_map::ascending(list),
    ensures
        crate::text_map::ascending(with_text(list, text)),
        forall|x: Seq<char>| #[trigger]
            with_text(list, text).contains(x) <==> list.contains(x) || x == text,
{
    lemma_with_text(list, text);
}

} // verus!
