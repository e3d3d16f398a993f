//! JSON objects as the dashboard receives them.

use vstd::prelude::*;

verus! {

/// `serde_json::Value`, a JSON value.
#[verifier::external_type_specification]
#[verifier::external_body]
pub struct ExValue(serde_json::Value);

/// The members of a JSON value by name, if it is an object.
pub uninterp spec fn json_object(value: serde_json::Value) -> Option<
    Map<Seq<char>, serde_json::Value>,
>;

/// The truth value of a JSON value, if it is one.
pub uninterp spec fn json_bool(value: serde_json::Value) -> Option<bool>;

/// The JSON value that a text holds, if it holds one.
pub uninterp spec fn parsed_json(text: Seq<char>) -> Option<serde_json::Value>;

/// Reads a JSON value with `serde_json::from_str`; `None` if the text is not
/// JSON. The value depends on the text alone.
#[verifier::external_body]
pub(crate) fn parse_json(text: &str) -> (value: Option<serde_json::Value>)
    ensures
        value == parsed_json(text@),
{
    serde_json::from_str(text).ok()
}

/// Whether a value is an object, by `serde_json::Value::as_object`.
#[verifier::external_body]
pub(crate) fn is_object(value: &serde_json::Value) -> (yes: bool)
    ensures
        yes == json_object(*value) is Some,
{
    value.as_object().is_some()
}

/// The truth value of a value, by `serde_json::Value::as_bool`.
#[verifier::external_body]
pub(crate) fn as_bool(value: &serde_json::Value) -> (truth: Option<bool>)
    ensures
        truth == json_bool(*value),
{
    value.as_bool()
}

/// Looks a member of an object up, by `serde_json::Value::get`; `None` if the
/// value is no object or has no such member.
#[verifier::external_body]
pub(crate) fn member<'a>(value: &'a serde_json::Value, name: &str) -> (found: Option<
    &'a serde_json::Value,
>)
    ensures
        found == match json_object(*value) {
            Some(members) => if members.contains_key(name@) {
                Some(&members[name@])
            } else {
                None
            },
            None => None,
        },
{
    value.get(name)
}

/// Copies the members of an object out, each once, in the order of
/// `serde_json::Map::iter`; nothing if the value is no object.
#[verifier::external_body]
pub(crate) fn members(value: &serde_json::Value) -> (list: Vec<(String, serde_json::Value)>)
    ensures
        json_object(*value) is None ==> list@.len() == 0,
        json_object(*value) matches Some(members) ==> {
            &&& forall|i: int|
                0 <= i < list@.len() ==> members.contains_key((#[trigger] list@[i]).0@)
                    && members[list@[i].0@] == list@[i].1
            &&& forall|name: Seq<char>| #[trigger]
                members.contains_key(name) ==> exists|i: int|
                    0 <= i < list@.len() && (#[trigger] list@[i]).0@ == name
        },
{
    value.as_object().into_iter().flatten().map(|(k, v)| (k.clone(), v.clone())).collect()
}

/// Puts a member into an object, by `serde_json::Map::insert`: a member of that
/// name is replaced. A value that is no object stays as it is.
#[verifier::external_body]
pub(crate) fn insert_member(target: &mut serde_json::Value, name: String, value: serde_json::Value)
    ensures
        match json_object(*old(target)) {
            Some(members) => json_object(*final(target)) == Some(members.insert(name@, value)),
            None => *final(target) == *old(target),
        },
{
    if let Some(members) = target.as_object_mut() {
        members.insert(name, value);
    }
}

/// `current` with the members of `patch` put in: a member of the patch replaces
/// one of the same name, all others stay.
pub open spec fn merged(
    current: Map<Seq<char>, serde_json::Value>,
    patch: Map<Seq<char>, serde_json::Value>,
) -> Map<Seq<char>, serde_json::Value> {
    current.union_prefer_right(patch)
}

/// Puts the members of one object into another. Where either is no object the
/// target stays as it is.
pub fn merge_object(target: &mut serde_json::Value, patch: &serde_json::Value)
    ensures
        match (json_object(*old(target)), json_object(*patch)) {
            (Some(current), Some(changes)) => json_object(*final(target)) == Some(
                merged(current, changes),
            ),
            _ => *final(target) == *old(target),
        },
{
    let list = members(patch);
    let ghost changes = match json_object(*patch) {
        Some(changes) => changes,
        None => Map::empty(),
    };
    let ghost start = json_object(*target);
    let ghost all = list@;
    let ghost mut done = Set::<Seq<char>>::empty();
    proof {
        if start is Some {
            assert(start.unwrap() =~= start.unwrap().union_prefer_right(changes.restrict(done)));
        }
    }
    for (name, value) in it: list
        invariant
            it.seq() == all,
            start == json_object(*old(target)),
            start is None || all.len() == 0 ==> *target == *old(target),
            start is Some ==> json_object(*target) == Some(
                start.unwrap().union_prefer_right(changes.restrict(done)),
            ),
            forall|i: int|
                0 <= i < all.len() ==> changes.contains_key((#[trigger] all[i]).0@)
                    && changes[all[i].0@] == all[i].1,
            forall|n: Seq<char>| #[trigger]
                done.contains(n) <==> exists|i: int|
                    0 <= i < it.index() && (#[trigger] all[i]).0@ == n,
    {
        let ghost key = name@;
        let ghost at = it.index() as int;
        assert(all[at].0@ == key && all[at].1 == value);
        insert_member(target, name, value);
        proof {
            let later = done.insert(key);
            if start is Some {
                assert(start.unwrap().union_prefer_right(changes.restrict(done)).insert(key, value)
                    =~= start.unwrap().union_prefer_right(changes.restrict(later)));
            }
            assert forall|n: Seq<char>| #[trigger] later.contains(n) <==> exists|i: int|
                0 <= i < at + 1 && (#[trigger] all[i]).0@ == n by {
                if later.contains(n) && n != key {
                    assert(done.contains(n));
                }
                if exists|i: int| 0 <= i < at + 1 && (#[trigger] all[i]).0@ == n {
                    let i = choose|i: int| 0 <= i < at + 1 && (#[trigger] all[i]).0@ == n;
                    if i < at {
                        assert(done.contains(n));
                    }
                }
            }
            done = later;
        }
    }
    proof {
        if start is Some {
            assert forall|n: Seq<char>| changes.contains_key(n) implies done.contains(n) by {}
            assert(changes.restrict(done) =~= changes);
        }
    }
}

/// A patch is idempotent: putting it in twice changes nothing further.
pub proof fn merging_twice_is_merging_once(
    current: Map<Seq<char>, serde_json::Value>,
    patch: Map<Seq<char>, serde_json::Value>,
)
    ensures
        merged(merged(current, patch), patch) == merged(current, patch),
        merged(current, Map::empty()) == current,
{
    assert(merged(merged(current, patch), patch) =~= merged(current, patch));
    assert(merged(current, Map::empty()) =~= current);
}

/// A patch decides what stands under its own names, whatever the values are, and
/// nothing else: under every other name the object holds what it held before.
pub proof fn patch_decides_its_own_members(
    current: Map<Seq<char>, serde_json::Value>,
    patch: Map<Seq<char>, serde_json::Value>,
    name: Seq<char>,
)
    ensures
        patch.contains_key(name) ==> merged(current, patch).contains_key(name) && merged(
            current,
            patch,
        )[name] == patch[name],
        !patch.contains_key(name) ==> merged(current, patch).contains_key(name)
            == current.contains_key(name),
        !patch.contains_key(name) && current.contains_key(name) ==> merged(current, patch)[name]
            == current[name],
{
}

/// Of two patches put in one after the other the later decides where both have a
/// member, and the earlier where only it has one.
pub proof fn later_patch_decides(
    current: Map<Seq<char>, serde_json::Value>,
    earlier: Map<Seq<char>, serde_json::Value>,
    later: Map<Seq<char>, serde_json::Value>,
)
    ensures
        merged(merged(current, earlier), later) == merged(current, merged(earlier, later)),
{
    assert(merged(merged(current, earlier), later) =~= merged(current, merged(earlier, later)));
}

} // verus!
