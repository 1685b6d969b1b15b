//! Small helpers on text that the rest of the crate shares.

use vstd::prelude::*;

verus! {

broadcast use vstd::string::group_string_axioms;

/// std's `String::push`: the char is appended at the end and nothing else
/// changes.
#[verifier::external_body]
pub(crate) fn push_char(s: &mut String, c: char)
    ensures
        final(s)@ == old(s)@.push(c),
{
    s.push(c)
}

/// The lower-case form of an ASCII capital letter; every other char is
/// itself.
pub open spec fn ascii_lower(c: char) -> char {
    if 'A' <= c && c <= 'Z' {
        ((c as u8) + 32) as char
    } else {
        c
    }
}

pub fn to_ascii_lower(c: char) -> (r: char)
    ensures
        r == ascii_lower(c),
{
    if 'A' <= c && c <= 'Z' {
        ((c as u8) + 32) as char
    } else {
        c
    }
}

/// The chars of a string, in order.
pub fn chars_of(s: &str) -> (v: Vec<char>)
    ensures
        v@ == s@,
{
    let mut v: Vec<char> = Vec::new();
    for c in it: s.chars()
        invariant
            it.seq() == s@,
            v@ == s@.take(it.index() as int),
    {
        v.push(c);
        assert(s@.take(it.index() as int).push(c) =~= s@.take(it.index() + 1));
    }
    assert(s@.take(s@.len() as int) =~= s@);
    v
}

/// Whether two strings hold the same chars.
pub fn str_eq(a: &str, b: &str) -> (r: bool)
    ensures
        r == (a@ == b@),
{
    let x = chars_of(a);
    let y = chars_of(b);
    if x.len() != y.len() {
        return false;
    }
    let mut i: usize = 0;
    while i < x.len()
        invariant
            x@ == a@,
            y@ == b@,
            x.len() == y.len(),
            i <= x.len(),
            x@.take(i as int) == y@.take(i as int),
        decreases x.len() - i,
    {
        if x[i] != y[i] {
            assert(a@[i as int] != b@[i as int]);
            return false;
        }
        assert(x@.take(i + 1) =~= x@.take(i as int).push(x@[i as int]));
        assert(y@.take(i + 1) =~= y@.take(i as int).push(y@[i as int]));
        i = i + 1;
    }
    assert(x@.take(i as int) =~= x@);
    assert(y@.take(i as int) =~= y@);
    true
}

/// Whether `a` stands before `b`, or is `b`, in the order of a dictionary
/// whose alphabet is the chars by code point. This is the order of `str`.
pub open spec fn text_le(a: Seq<char>, b: Seq<char>) -> bool
    decreases a.len(),
{
    if a.len() == 0 {
        true
    } else if b.len() == 0 {
        false
    } else if a[0] != b[0] {
        a[0] < b[0]
    } else {
        text_le(a.drop_first(), b.drop_first())
    }
}

/// Whether `a` stands before `b`, or is `b`, in the order of `str`.
pub fn str_le(a: &str, b: &str) -> (r: bool)
    ensures
        r == text_le(a@, b@),
{
    let x = chars_of(a);
    let y = chars_of(b);
    let mut i: usize = 0;
    proof {
        assert(a@.skip(0) =~= a@);
        assert(b@.skip(0) =~= b@);
    }
    while i < x.len() && i < y.len()
        invariant
            x@ == a@,
            y@ == b@,
            i <= x.len(),
            i <= y.len(),
            text_le(a@, b@) == text_le(a@.skip(i as int), b@.skip(i as int)),
        decreases x.len() - i,
    {
        proof {
            assert(a@.skip(i as int)[0] == x@[i as int]);
            assert(b@.skip(i as int)[0] == y@[i as int]);
            assert(a@.skip(i as int).drop_first() =~= a@.skip(i + 1));
            assert(b@.skip(i as int).drop_first() =~= b@.skip(i + 1));
        }
        if x[i] != y[i] {
            return x[i] < y[i];
        }
        i = i + 1;
    }
    i == x.len()
}

/// `sorted` with `item` put behind the last entry that does not stand
/// after it.
pub open spec fn insert_sorted(sorted: Seq<Seq<char>>, item: Seq<char>) -> Seq<Seq<char>>
    decreases sorted.len(),
{
    if sorted.len() == 0 || text_le(sorted.last(), item) {
        sorted.push(item)
    } else {
        insert_sorted(sorted.drop_last(), item).push(sorted.last())
    }
}

/// The items in ascending order; items that are equal keep their order.
pub open spec fn sorted(items: Seq<Seq<char>>) -> Seq<Seq<char>>
    decreases items.len(),
{
    if items.len() == 0 {
        Seq::empty()
    } else {
        insert_sorted(sorted(items.drop_last()), items.last())
    }
}

/// The strings in the order of `str`, ascending.
pub fn sort(items: &Vec<String>) -> (r: Vec<String>)
    ensures
        r.deep_view() == sorted(items.deep_view()),
{
    let mut out: Vec<String> = Vec::new();
    let mut n: usize = 0;
    proof {
        assert(items.deep_view().take(0) =~= Seq::empty());
        assert(out.deep_view() =~= Seq::empty());
    }
    while n < items.len()
        invariant
            n <= items.len(),
            out.deep_view() == sorted(items.deep_view().take(n as int)),
        decreases items.len() - n,
    {
        let item = items[n].clone();
        let ghost before = out.deep_view();
        proof {
            assert(items.deep_view().take(n + 1).drop_last() =~= items.deep_view().take(n as int));
            assert(items.deep_view().take(n + 1).last() == item@);
            assert(before.take(before.len() as int) =~= before);
            assert(before.skip(before.len() as int) =~= Seq::empty());
        }
        let mut at: usize = out.len();
        while at > 0 && !str_le(out[at - 1].as_str(), item.as_str())
            invariant
                at <= out.len(),
                before == out.deep_view(),
                insert_sorted(before, item@) == insert_sorted(before.take(at as int), item@)
                    + before.skip(at as int),
            decreases at,
        {
            proof {
                let head = before.take(at as int);
                assert(head.last() == before[at - 1]);
                assert(head.drop_last() =~= before.take(at - 1));
                assert(insert_sorted(head, item@) == insert_sorted(head.drop_last(), item@).push(
                    head.last(),
                ));
                assert(insert_sorted(head.drop_last(), item@).push(head.last()) + before.skip(
                    at as int,
                ) =~= insert_sorted(before.take(at - 1), item@) + before.skip(at - 1));
            }
            at = at - 1;
        }
        proof {
            let head = before.take(at as int);
            if at > 0 {
                assert(head.last() == before[at - 1]);
            }
            assert(insert_sorted(head, item@) == head.push(item@));
        }
        out.insert(at, item);
        proof {
            assert(out.deep_view() =~= before.take(at as int).push(item@) + before.skip(at as int));
        }
        n = n + 1;
    }
    proof {
        assert(items.deep_view().take(n as int) =~= items.deep_view());
    }
    out
}

/// Whether each item stands before every later one, or is equal to it.
pub open spec fn ordered(items: Seq<Seq<char>>) -> bool {
    forall|i: int, j: int| 0 <= i < j < items.len() ==> text_le(items[i], items[j])
}

/// Of two strings, one stands before the other or they are equal.
pub proof fn lemma_text_le_total(a: Seq<char>, b: Seq<char>)
    ensures
        text_le(a, b) || text_le(b, a),
        text_le(a, b) && text_le(b, a) ==> a == b,
    decreases a.len(),
{
    if a.len() > 0 && b.len() > 0 && a[0] == b[0] {
        lemma_text_le_total(a.drop_first(), b.drop_first());
        if text_le(a, b) && text_le(b, a) {
            assert(a =~= seq![a[0]] + a.drop_first());
            assert(b =~= seq![b[0]] + b.drop_first());
        }
    } else if a.len() == 0 && b.len() == 0 {
        assert(a =~= b);
    }
}

/// What stands before a string stands before all that the string stands
/// before.
pub proof fn lemma_text_le_transitive(a: Seq<char>, b: Seq<char>, c: Seq<char>)
    requires
        text_le(a, b),
        text_le(b, c),
    ensures
        text_le(a, c),
    decreases a.len(),
{
    if a.len() > 0 && b.len() > 0 && c.len() > 0 && a[0] == b[0] && b[0] == c[0] {
        lemma_text_le_transitive(a.drop_first(), b.drop_first(), c.drop_first());
    }
}

proof fn lemma_insert_sorted(items: Seq<Seq<char>>, item: Seq<char>)
    ensures
        insert_sorted(items, item).len() == items.len() + 1,
        insert_sorted(items, item).to_multiset() == items.to_multiset().insert(item),
        forall|k: int|
            0 <= k < insert_sorted(items, item).len() ==> {
                let found = #[trigger] insert_sorted(items, item)[k];
                found == item || exists|j: int| 0 <= j < items.len() && items[j] == found
            },
        ordered(items) ==> ordered(insert_sorted(items, item)),
    decreases items.len(),
{
    broadcast use vstd::seq_lib::group_to_multiset_ensures;

    let after = insert_sorted(items, item);
    if items.len() == 0 || text_le(items.last(), item) {
        assert forall|k: int| 0 <= k < after.len() implies {
            let found = #[trigger] after[k];
            found == item || exists|j: int| 0 <= j < items.len() && items[j] == found
        } by {
            if k < items.len() {
                assert(items[k] == after[k]);
            }
        }
        if ordered(items) {
            assert forall|i: int, j: int| 0 <= i < j < after.len() implies text_le(
                after[i],
                after[j],
            ) by {
                if j == items.len() {
                    if i < items.len() - 1 {
                        lemma_text_le_transitive(items[i], items.last(), item);
                    }
                }
            }
        }
    } else {
        let init = items.drop_last();
        let before = insert_sorted(init, item);
        lemma_insert_sorted(init, item);
        assert(init.push(items.last()) =~= items);
        assert(after.to_multiset() =~= items.to_multiset().insert(item));
        assert forall|k: int| 0 <= k < after.len() implies {
            let found = #[trigger] after[k];
            found == item || exists|j: int| 0 <= j < items.len() && items[j] == found
        } by {
            if k < before.len() {
                let found = before[k];
                if found != item {
                    let j = choose|j: int| 0 <= j < init.len() && init[j] == found;
                    assert(items[j] == found);
                }
            } else {
                assert(items[items.len() - 1] == after[k]);
            }
        }
        if ordered(items) {
            assert(ordered(init)) by {
                assert forall|i: int, j: int| 0 <= i < j < init.len() implies text_le(
                    init[i],
                    init[j],
                ) by {
                    assert(text_le(items[i], items[j]));
                }
            }
            lemma_text_le_total(items.last(), item);
            assert forall|i: int, j: int| 0 <= i < j < after.len() implies text_le(
                after[i],
                after[j],
            ) by {
                if j == before.len() {
                    let found = before[i];
                    if found != item {
                        let k = choose|k: int| 0 <= k < init.len() && init[k] == found;
                        assert(text_le(items[k], items[items.len() - 1]));
                    }
                } else {
                    assert(text_le(before[i], before[j]));
                }
            }
        }
    }
}

/// Sorting puts the items in ascending order and neither drops nor adds
/// one.
pub proof fn lemma_sorted_is_an_ordered_permutation(items: Seq<Seq<char>>)
    ensures
        ordered(sorted(items)),
        sorted(items).len() == items.len(),
        sorted(items).to_multiset() == items.to_multiset(),
    decreases items.len(),
{
    broadcast use vstd::seq_lib::group_to_multiset_ensures;

    if items.len() > 0 {
        lemma_sorted_is_an_ordered_permutation(items.drop_last());
        lemma_insert_sorted(sorted(items.drop_last()), items.last());
        assert(items.drop_last().push(items.last()) =~= items);
    } else {
        assert(sorted(items).to_multiset() =~= items.to_multiset());
    }
}

} // verus!
