//! Name lists: sorted, with every name once.

use crate::text::texts;
use crate::text::to_chars;
use vstd::prelude::*;

verus! {

/// Whether `a` comes before `b` in the order of strings: character by
/// character, by code point, a proper prefix first.
pub open spec fn text_less(a: Seq<char>, b: Seq<char>) -> bool
    decreases a.len(),
{
    if b.len() == 0 {
        false
    } else if a.len() == 0 {
        true
    } else if a[0] != b[0] {
        a[0] < b[0]
    } else {
        text_less(a.drop_first(), b.drop_first())
    }
}

/// Whether a list is in ascending order without repeats.
pub open spec fn ascending(list: Seq<Seq<char>>) -> bool {
    forall|i: int, j: int| 0 <= i < j < list.len() ==> text_less(#[trigger] list[i], #[trigger] list[j])
}

/// Whether two lists have the same members.
pub open spec fn same_members(a: Seq<Seq<char>>, b: Seq<Seq<char>>) -> bool {
    forall|name: Seq<char>| a.contains(name) <==> b.contains(name)
}

/// The order of texts is transitive.
proof fn lemma_text_less_transitive(a: Seq<char>, b: Seq<char>, c: Seq<char>)
    requires
        text_less(a, b),
        text_less(b, c),
    ensures
        text_less(a, c),
    decreases a.len(),
{
    if a.len() > 0 && a[0] == b[0] && b[0] == c[0] {
        lemma_text_less_transitive(a.drop_first(), b.drop_first(), c.drop_first());
    }
}

/// Of two different texts one comes first.
proof fn lemma_text_less_total(a: Seq<char>, b: Seq<char>)
    ensures
        text_less(a, b) || text_less(b, a) || a == b,
    decreases a.len(),
{
    if a.len() > 0 && b.len() > 0 && a[0] == b[0] {
        lemma_text_less_total(a.drop_first(), b.drop_first());
        if a.drop_first() == b.drop_first() {
            assert(a =~= seq![a[0]] + a.drop_first());
            assert(b =~= seq![b[0]] + b.drop_first());
        }
    } else if a.len() == 0 && b.len() == 0 {
        assert(a =~= b);
    }
}

/// No text comes before itself.
proof fn lemma_text_less_irreflexive(a: Seq<char>)
    ensures
        !text_less(a, a),
    decreases a.len(),
{
    if a.len() > 0 {
        lemma_text_less_irreflexive(a.drop_first());
    }
}

/// Two ascending lists with the same members are the same list.
pub proof fn ascending_list_is_unique(a: Seq<Seq<char>>, b: Seq<Seq<char>>)
    requires
        ascending(a),
        ascending(b),
        same_members(a, b),
    ensures
        a == b,
    decreases a.len(),
{
    if a.len() == 0 {
        if b.len() > 0 {
            assert(b.contains(b[0]));
            assert(a.contains(b[0]));
        }
        assert(a =~= b);
    } else {
        assert(a.contains(a[0]));
        assert(b.contains(a[0]));
        assert(b.contains(b[0]));
        assert(a.contains(b[0]));
        let i = choose|i: int| 0 <= i < b.len() && b[i] == a[0];
        let j = choose|j: int| 0 <= j < a.len() && a[j] == b[0];
        if a[0] != b[0] {
            lemma_text_less_transitive(a[0], b[0], a[0]);
            lemma_text_less_irreflexive(a[0]);
        }
        let rest_a = a.drop_first();
        let rest_b = b.drop_first();
        assert forall|name: Seq<char>| rest_a.contains(name) <==> rest_b.contains(name) by {
            lemma_text_less_irreflexive(a[0]);
            if rest_a.contains(name) {
                let k = choose|k: int| 0 <= k < rest_a.len() && rest_a[k] == name;
                assert(a[k + 1] == name);
                assert(a.contains(name));
                assert(text_less(a[0], a[k + 1]));
                let l = choose|l: int| 0 <= l < b.len() && b[l] == name;
                assert(rest_b[l - 1] == name);
            }
            if rest_b.contains(name) {
                let k = choose|k: int| 0 <= k < rest_b.len() && rest_b[k] == name;
                assert(b[k + 1] == name);
                assert(b.contains(name));
                assert(text_less(b[0], b[k + 1]));
                let l = choose|l: int| 0 <= l < a.len() && a[l] == name;
                assert(rest_a[l - 1] == name);
            }
        }
        ascending_list_is_unique(rest_a, rest_b);
        assert(a =~= seq![a[0]] + rest_a);
        assert(b =~= seq![b[0]] + rest_b);
    }
}

/// Whether `a` comes before `b`.
fn precedes(a: &Vec<char>, b: &Vec<char>) -> (less: bool)
    ensures
        less == text_less(a@, b@),
{
    let mut i: usize = 0;
    assert(a@.skip(0) == a@);
    assert(b@.skip(0) == b@);
    while i < a.len() && i < b.len()
        invariant
            i <= a@.len(),
            i <= b@.len(),
            text_less(a@, b@) == text_less(a@.skip(i as int), b@.skip(i as int)),
        decreases a@.len() - i,
    {
        if a[i] != b[i] {
            return a[i] < b[i];
        }
        assert(a@.skip(i as int).drop_first() == a@.skip(i + 1));
        assert(b@.skip(i as int).drop_first() == b@.skip(i + 1));
        i = i + 1;
    }
    i < b.len()
}

/// Adds `name` to an ascending list at its place, unless it is there already.
fn insert_name(list: &mut Vec<String>, name: String)
    requires
        ascending(texts(old(list)@)),
    ensures
        ascending(texts(final(list)@)),
        same_members(texts(final(list)@), texts(old(list)@).push(name@)),
{
    let chars = to_chars(name.as_str());
    let ghost before = texts(list@);
    let mut at: usize = 0;
    while at < list.len()
        invariant
            at <= list@.len(),
            before == texts(list@),
            chars@ == name@,
            forall|k: int| 0 <= k < at ==> text_less(#[trigger] before[k], name@),
            ascending(before),
        ensures
            at <= list@.len(),
            before == texts(list@),
            forall|k: int| 0 <= k < at ==> text_less(#[trigger] before[k], name@),
            at < before.len() ==> !text_less(before[at as int], name@),
        decreases list@.len() - at,
    {
        let other = to_chars(list[at].as_str());
        assert(other@ == before[at as int]);
        if !precedes(&other, &chars) {
            break ;
        }
        at = at + 1;
    }
    let ghost wanted = before.push(name@);
    proof {
        assert(wanted[before.len() as int] == name@);
    }
    if at < list.len() && list[at] == name {
        proof {
            assert(before[at as int] == name@);
            assert forall|other: Seq<char>| before.contains(other) <==> wanted.contains(other) by {
                if before.contains(other) {
                    let k = choose|k: int| 0 <= k < before.len() && before[k] == other;
                    assert(wanted[k] == other);
                }
                if wanted.contains(other) {
                    let k = choose|k: int| 0 <= k < wanted.len() && wanted[k] == other;
                    if k < before.len() {
                        assert(before[k] == other);
                    }
                }
            }
        }
        return ;
    }
    list.insert(at, name);
    proof {
        let after = texts(list@);
        assert(after =~= before.insert(at as int, name@));
        assert forall|i: int, j: int| 0 <= i < j < after.len() implies text_less(
            #[trigger] after[i],
            #[trigger] after[j],
        ) by {
            if at < before.len() {
                lemma_text_less_total(before[at as int], name@);
            }
            if i == at {
                assert(after[j] == before[j - 1]);
                if j - 1 > at {
                    lemma_text_less_transitive(name@, before[at as int], before[j - 1]);
                }
            } else if j == at {
                assert(after[i] == before[i]);
            } else {
                let k = if i < at { i } else { i - 1 };
                let l = if j < at { j } else { j - 1 };
                assert(after[i] == before[k]);
                assert(after[j] == before[l]);
            }
        }
        assert forall|other: Seq<char>| after.contains(other) <==> wanted.contains(other) by {
            if after.contains(other) {
                let k = choose|k: int| 0 <= k < after.len() && after[k] == other;
                if k < at {
                    assert(wanted[k] == other);
                } else if k > at {
                    assert(wanted[k - 1] == other);
                }
            }
            if wanted.contains(other) {
                let k = choose|k: int| 0 <= k < wanted.len() && wanted[k] == other;
                if k == before.len() {
                    assert(after[at as int] == other);
                } else if k < at {
                    assert(after[k] == other);
                } else {
                    assert(after[k + 1] == other);
                }
            }
        }
    }
}

/// The names of `names` in ascending order, each once.
pub fn sorted_distinct(names: Vec<String>) -> (list: Vec<String>)
    ensures
        ascending(texts(list@)),
        same_members(texts(list@), texts(names@)),
{
    let mut list: Vec<String> = Vec::new();
    assert(texts(names@).take(0) =~= texts(list@));
    for i in 0..names.len()
        invariant
            ascending(texts(list@)),
            same_members(texts(list@), texts(names@).take(i as int)),
    {
        let ghost before = texts(list@);
        let ghost earlier = texts(names@).take(i as int);
        insert_name(&mut list, names[i].clone());
        proof {
            let name = names@[i as int]@;
            let later = texts(names@).take(i + 1);
            assert(later =~= earlier.push(name));
            assert(before.push(name)[before.len() as int] == name);
            assert(later[i as int] == name);
            assert forall|other: Seq<char>| before.push(name).contains(other) <==> later.contains(
                other,
            ) by {
                if before.push(name).contains(other) && other != name {
                    let k = choose|k: int|
                        0 <= k < before.push(name).len() && before.push(name)[k] == other;
                    assert(before[k] == other);
                    assert(earlier.contains(other));
                    let l = choose|l: int| 0 <= l < earlier.len() && earlier[l] == other;
                    assert(later[l] == other);
                }
                if later.contains(other) && other != name {
                    let k = choose|k: int| 0 <= k < later.len() && later[k] == other;
                    assert(earlier[k] == other);
                    assert(before.contains(other));
                    let l = choose|l: int| 0 <= l < before.len() && before[l] == other;
                    assert(before.push(name)[l] == other);
                }
            }
        }
    }
    assert(texts(names@).take(names@.len() as int) =~= texts(names@));
    list
}

/// One text comes before another exactly if they agree up to some place, where
/// the first ends or has the smaller character.
pub proof fn text_order_is_lexicographic(a: Seq<char>, b: Seq<char>)
    ensures
        text_less(a, b) <==> exists|k: int| #[trigger] parts_at(a, b, k),
    decreases a.len(),
{
    if text_less(a, b) {
        if a.len() == 0 || a[0] != b[0] {
            assert(parts_at(a, b, 0));
        } else {
            let rest_a = a.drop_first();
            let rest_b = b.drop_first();
            text_order_is_lexicographic(rest_a, rest_b);
            let k = choose|k: int| #[trigger] parts_at(rest_a, rest_b, k);
            assert forall|i: int| 0 <= i < k + 1 implies a[i] == b[i] by {
                if i > 0 {
                    assert(rest_a[i - 1] == rest_b[i - 1]);
                }
            }
            assert(parts_at(a, b, k + 1));
        }
    }
    if exists|k: int| #[trigger] parts_at(a, b, k) {
        let k = choose|k: int| #[trigger] parts_at(a, b, k);
        if k > 0 {
            let rest_a = a.drop_first();
            let rest_b = b.drop_first();
            assert(a[0] == b[0]);
            assert forall|i: int| 0 <= i < k - 1 implies rest_a[i] == rest_b[i] by {
                assert(a[i + 1] == b[i + 1]);
            }
            assert(parts_at(rest_a, rest_b, k - 1));
            text_order_is_lexicographic(rest_a, rest_b);
        }
    }
}

/// Whether `a` and `b` agree before place `k`, where `a` ends or has the smaller
/// character.
pub open spec fn parts_at(a: Seq<char>, b: Seq<char>, k: int) -> bool {
    &&& 0 <= k <= a.len()
    &&& k < b.len()
    &&& forall|i: int| 0 <= i < k ==> a[i] == b[i]
    &&& k < a.len() ==> (a[k] as int) < (b[k] as int)
}

} // verus!
