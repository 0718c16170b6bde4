//! Merging JSON documents.

use vstd::prelude::*;

use crate::utils::text::string_of;

verus! {

/// A JSON value. A number is kept as its text; an object as its members in
/// order, each key once.
#[derive(Debug)]
pub enum Json {
    Null,
    Bool(bool),
    Number(String),
    Str(String),
    Array(Vec<Json>),
    Object(Vec<(String, Json)>),
}

/// The mathematical form of a JSON value.
pub enum JsonV {
    Null,
    Bool(bool),
    Number(Seq<char>),
    Str(Seq<char>),
    Array(Seq<JsonV>),
    Object(Seq<(Seq<char>, JsonV)>),
}

pub open spec fn json_view(j: Json) -> JsonV
    decreases j, 0nat,
{
    match j {
        Json::Null => JsonV::Null,
        Json::Bool(b) => JsonV::Bool(b),
        Json::Number(n) => JsonV::Number(n@),
        Json::Str(s) => JsonV::Str(s@),
        Json::Array(items) => JsonV::Array(items_view(items@)),
        Json::Object(members) => JsonV::Object(members_view(members@)),
    }
}

pub open spec fn items_view(items: Seq<Json>) -> Seq<JsonV>
    decreases items, 1nat,
{
    if items.len() == 0 {
        Seq::empty()
    } else {
        items_view(items.drop_last()).push(json_view(items.last()))
    }
}

pub open spec fn members_view(members: Seq<(String, Json)>) -> Seq<(Seq<char>, JsonV)>
    decreases members, 1nat,
{
    if members.len() == 0 {
        Seq::empty()
    } else {
        members_view(members.drop_last()).push((members.last().0@, json_view(members.last().1)))
    }
}

/// `members_view` entry by entry.
proof fn lemma_members_view_at(members: Seq<(String, Json)>)
    ensures
        members_view(members).len() == members.len(),
        forall|i: int|
            0 <= i < members.len() ==> #[trigger] members_view(members)[i] == (
                members[i].0@,
                json_view(members[i].1),
            ),
    decreases members.len(),
{
    if members.len() > 0 {
        lemma_members_view_at(members.drop_last());
    }
}

pub open spec fn is_object(v: JsonV) -> bool {
    v is Object
}

/// The position of the first member named `key`, or -1.
pub open spec fn key_index(members: Seq<(Seq<char>, JsonV)>, key: Seq<char>) -> int
    decreases members.len(),
{
    if members.len() == 0 {
        -1
    } else if key_index(members.drop_last(), key) >= 0 {
        key_index(members.drop_last(), key)
    } else if members.last().0 == key {
        members.len() - 1
    } else {
        -1
    }
}

/// `a` merged with `b`: when both are objects, each member of `b` in turn
/// is merged into `a`; otherwise `a` stays as it is.
pub open spec fn merge_v(a: JsonV, b: JsonV) -> JsonV
    decreases b, 0nat,
{
    match a {
        JsonV::Object(m1) => match b {
            JsonV::Object(m2) => JsonV::Object(merge_members(m1, m2)),
            _ => a,
        },
        _ => a,
    }
}

/// The members `m1` after merging in those of `m2`, in order: a member
/// whose key `m1` already has merges into it when both are objects and
/// replaces it otherwise; a new key is added at the end.
pub open spec fn merge_members(m1: Seq<(Seq<char>, JsonV)>, m2: Seq<(Seq<char>, JsonV)>) -> Seq<
    (Seq<char>, JsonV),
>
    decreases m2, 1nat,
{
    if m2.len() == 0 {
        m1
    } else {
        let acc = merge_members(m1, m2.drop_last());
        let key = m2.last().0;
        let incoming = m2.last().1;
        let i = key_index(acc, key);
        if i >= 0 {
            if is_object(acc[i].1) && is_object(incoming) {
                acc.update(i, (key, merge_v(acc[i].1, incoming)))
            } else {
                acc.update(i, (key, incoming))
            }
        } else {
            acc.push((key, incoming))
        }
    }
}

proof fn lemma_key_index_is_first(members: Seq<(Seq<char>, JsonV)>, key: Seq<char>)
    ensures
        -1 <= key_index(members, key) < members.len(),
        key_index(members, key) >= 0 ==> members[key_index(members, key)].0 == key,
        forall|j: int|
            0 <= j < members.len() && (key_index(members, key) < 0 || j < key_index(members, key))
                ==> members[j].0 != key,
    decreases members.len(),
{
    if members.len() > 0 {
        let prefix = members.drop_last();
        lemma_key_index_is_first(prefix, key);
        assert forall|j: int|
            0 <= j < members.len() && (key_index(members, key) < 0 || j < key_index(members, key))
                implies members[j].0 != key by {
            if j < prefix.len() {
                assert(members[j] == prefix[j]);
            }
        }
    }
}

/// A copy of `j`.
pub fn deep_clone(j: &Json) -> (copy: Json)
    ensures
        json_view(copy) == json_view(*j),
    decreases j,
{
    match j {
        Json::Null => Json::Null,
        Json::Bool(b) => Json::Bool(*b),
        Json::Number(n) => Json::Number(n.clone()),
        Json::Str(t) => Json::Str(t.clone()),
        Json::Array(items) => {
            let mut copied: Vec<Json> = Vec::new();
            let mut i: usize = 0;
            while i < items.len()
                invariant
                    *j is Array,
                    j->Array_0 == *items,
                    i <= items@.len(),
                    items_view(copied@) == items_view(items@.take(i as int)),
                decreases items@.len() - i,
            {
                proof {
                    assert(decreases_to!(*j => j->Array_0));
                    assert(j->Array_0 == *items);
                    assert(decreases_to!(items => items@));
                    assert(decreases_to!(items@ => items@[i as int]));
                }
                let item = deep_clone(&items[i]);
                let ghost before = copied@;
                copied.push(item);
                proof {
                    assert(copied@.drop_last() == before);
                    assert(items@.take(i + 1).drop_last() =~= items@.take(i as int));
                }
                i = i + 1;
            }
            assert(items@.take(items@.len() as int) =~= items@);
            Json::Array(copied)
        },
        Json::Object(members) => {
            let mut copied: Vec<(String, Json)> = Vec::new();
            let mut i: usize = 0;
            while i < members.len()
                invariant
                    *j is Object,
                    j->Object_0 == *members,
                    i <= members@.len(),
                    members_view(copied@) == members_view(members@.take(i as int)),
                decreases members@.len() - i,
            {
                proof {
                    assert(decreases_to!(*j => j->Object_0));
                    assert(j->Object_0 == *members);
                    assert(decreases_to!(members => members@));
                    assert(decreases_to!(members@ => members@[i as int]));
                    assert(decreases_to!(members@[i as int] => members@[i as int].1));
                }
                let value = deep_clone(&members[i].1);
                let key = members[i].0.clone();
                let ghost before = copied@;
                copied.push((key, value));
                proof {
                    assert(copied@.drop_last() == before);
                    assert(members@.take(i + 1).drop_last() =~= members@.take(i as int));
                }
                i = i + 1;
            }
            assert(members@.take(members@.len() as int) =~= members@);
            Json::Object(copied)
        },
    }
}

proof fn lemma_members_view_update(members: Seq<(String, Json)>, i: int, member: (String, Json))
    requires
        0 <= i < members.len(),
    ensures
        members_view(members.update(i, member)) == members_view(members).update(i, (member.0@, json_view(member.1))),
{
    lemma_members_view_at(members);
    lemma_members_view_at(members.update(i, member));
    assert(members_view(members.update(i, member)) =~= members_view(members).update(i, (member.0@, json_view(member.1))));
}

/// The position of the first member of `members` named `key`.
fn find_member(members: &Vec<(String, Json)>, key: &str) -> (found: Option<usize>)
    ensures
        match found {
            Some(i) => i < members@.len() && i as int == key_index(members_view(members@), key@),
            None => key_index(members_view(members@), key@) < 0,
        },
{
    proof {
        lemma_members_view_at(members@);
        lemma_key_index_is_first(members_view(members@), key@);
    }
    let mut i: usize = 0;
    while i < members.len()
        invariant
            i <= members@.len(),
            forall|j: int| 0 <= j < i ==> members@[j].0@ != key@,
        decreases members@.len() - i,
    {
        if crate::utils::text::same_text(members[i].0.as_str(), key) {
            proof {
                lemma_members_view_at(members@);
                lemma_key_index_is_first(members_view(members@), key@);
                let view = members_view(members@);
                assert(view[i as int].0 == key@);
                let k = key_index(view, key@);
                if k != i {
                    if k >= 0 && k < i {
                        assert(view[k].0 == members@[k].0@);
                    }
                }
            }
            return Some(i);
        }
        i = i + 1;
    }
    proof {
        lemma_members_view_at(members@);
        lemma_key_index_is_first(members_view(members@), key@);
        let view = members_view(members@);
        let k = key_index(view, key@);
        if k >= 0 {
            assert(view[k].0 == members@[k].0@);
        }
    }
    None
}

/// `a` merged with `b`; see `merge_v`.
pub fn merge_values(a: Json, b: &Json) -> (merged: Json)
    ensures
        json_view(merged) == merge_v(json_view(a), json_view(*b)),
    decreases b, 0nat,
{
    match b {
        Json::Object(m2) => match a {
            Json::Object(m1) => {
                proof {
                    assert(decreases_to!(*b => b->Object_0));
                }
                Json::Object(merge_members_exec(m1, m2))
            },
            other => other,
        },
        _ => a,
    }
}

/// The members `m1` after merging in those of `m2`; see `merge_members`.
fn merge_members_exec(m1: Vec<(String, Json)>, m2: &Vec<(String, Json)>) -> (merged: Vec<(String, Json)>)
    ensures
        members_view(merged@) == merge_members(members_view(m1@), members_view(m2@)),
    decreases m2, 1nat,
{
    let ghost start = members_view(m1@);
    let mut acc = m1;
    let mut j: usize = 0;
    while j < m2.len()
        invariant
            j <= m2@.len(),
            members_view(acc@) == merge_members(start, members_view(m2@.take(j as int))),
        decreases m2@.len() - j,
    {
        let ghost done = m2@.take(j as int);
        let ghost next = m2@.take(j + 1);
        proof {
            assert(next.drop_last() =~= done);
            assert(members_view(next).drop_last() == members_view(done));
            assert(members_view(next).last() == (m2@[j as int].0@, json_view(m2@[j as int].1)));
            assert(decreases_to!(*m2 => m2@));
            assert(decreases_to!(m2@ => m2@[j as int]));
            assert(decreases_to!(m2@[j as int] => m2@[j as int].1));
        }
        let key = m2[j].0.as_str();
        let incoming = &m2[j].1;
        match find_member(&acc, key) {
            Some(i) => {
                proof {
                    lemma_members_view_at(acc@);
                }
                let ghost before = acc@;
                let (name, current) = acc.remove(i);
                let both_objects = match (&current, incoming) {
                    (Json::Object(_), Json::Object(_)) => true,
                    _ => false,
                };
                let value = if both_objects {
                    merge_values(current, incoming)
                } else {
                    deep_clone(incoming)
                };
                acc.insert(i, (name, value));
                proof {
                    assert(acc@ =~= before.update(i as int, (name, value)));
                    lemma_members_view_update(before, i as int, (name, value));
                    let acc_v = members_view(before);
                    assert(acc_v == merge_members(start, members_view(done)));
                    assert(acc_v[i as int] == (before[i as int].0@, json_view(before[i as int].1)));
                    lemma_key_index_is_first(acc_v, key@);
                    assert(name == before[i as int].0);
                    assert(name@ == key@);
                    assert(is_object(acc_v[i as int].1) == current is Object);
                    assert(is_object(json_view(*incoming)) == incoming is Object);
                    assert(members_view(acc@) == merge_members(start, members_view(next)));
                }
            },
            None => {
                let value = deep_clone(incoming);
                let ghost before = acc@;
                let name = m2[j].0.clone();
                acc.push((name, value));
                proof {
                    assert(acc@.drop_last() == before);
                    assert(members_view(acc@) == members_view(before).push((name@, json_view(value))));
                    assert(members_view(acc@) == merge_members(start, members_view(next)));
                }
            },
        }
        j = j + 1;
    }
    assert(m2@.take(m2@.len() as int) =~= m2@);
    acc
}

/// Merges `obj2` into `obj1` when both are objects; see `merge_v`.
pub fn merge_json(obj1: &mut Json, obj2: &Json)
    ensures
        json_view(*final(obj1)) == merge_v(json_view(*old(obj1)), json_view(*obj2)),
{
    let mut taken = Json::Null;
    std::mem::swap(&mut taken, obj1);
    *obj1 = merge_values(taken, obj2);
}

/// `a` overlaid with `b`, deeply: objects merge key by key (a key new to
/// `a` starts from null), arrays are concatenated, an object joins an array
/// as its last element, a null changes nothing, and anything else replaces
/// `a`.
pub open spec fn overlay(a: JsonV, b: JsonV) -> JsonV
    decreases b, 0nat,
{
    match b {
        JsonV::Object(m2) => match a {
            JsonV::Object(m1) => JsonV::Object(overlay_members(m1, m2)),
            JsonV::Array(items) => JsonV::Array(items.push(b)),
            _ => b,
        },
        JsonV::Array(more) => match a {
            JsonV::Array(items) => JsonV::Array(items + more),
            _ => b,
        },
        JsonV::Null => a,
        _ => b,
    }
}

/// The members `m1` with each member of `m2` overlaid, in order.
pub open spec fn overlay_members(m1: Seq<(Seq<char>, JsonV)>, m2: Seq<(Seq<char>, JsonV)>) -> Seq<
    (Seq<char>, JsonV),
>
    decreases m2, 1nat,
{
    if m2.len() == 0 {
        m1
    } else {
        let acc = overlay_members(m1, m2.drop_last());
        let key = m2.last().0;
        let incoming = m2.last().1;
        let i = key_index(acc, key);
        if i >= 0 {
            acc.update(i, (key, overlay(acc[i].1, incoming)))
        } else {
            acc.push((key, overlay(JsonV::Null, incoming)))
        }
    }
}

/// Copies of `items` added to the end of `target`.
fn extend_with_copies(target: &mut Vec<Json>, items: &Vec<Json>)
    ensures
        items_view(final(target)@) == items_view(old(target)@) + items_view(items@),
{
    let ghost start = items_view(target@);
    let mut i: usize = 0;
    while i < items.len()
        invariant
            i <= items@.len(),
            items_view(target@) == start + items_view(items@.take(i as int)),
        decreases items@.len() - i,
    {
        let copy = deep_clone(&items[i]);
        let ghost before = target@;
        target.push(copy);
        proof {
            assert(target@.drop_last() == before);
            assert(items@.take(i + 1).drop_last() =~= items@.take(i as int));
            assert(items_view(target@) =~= start + items_view(items@.take(i + 1)));
        }
        i = i + 1;
    }
    assert(items@.take(items@.len() as int) =~= items@);
}

/// `a` overlaid with `b`; see `overlay`.
pub fn overlay_values(a: Json, b: &Json) -> (merged: Json)
    ensures
        json_view(merged) == overlay(json_view(a), json_view(*b)),
    decreases b, 0nat,
{
    match b {
        Json::Object(m2) => match a {
            Json::Object(m1) => {
                proof {
                    assert(decreases_to!(*b => b->Object_0));
                }
                Json::Object(overlay_members_exec(m1, m2))
            },
            Json::Array(items) => {
                let mut items = items;
                let ghost before = items@;
                items.push(deep_clone(b));
                proof {
                    assert(items@.drop_last() == before);
                }
                Json::Array(items)
            },
            _ => deep_clone(b),
        },
        Json::Array(more) => match a {
            Json::Array(items) => {
                let mut items = items;
                extend_with_copies(&mut items, more);
                Json::Array(items)
            },
            _ => deep_clone(b),
        },
        Json::Null => a,
        _ => deep_clone(b),
    }
}

/// The members `m1` with those of `m2` overlaid; see `overlay_members`.
fn overlay_members_exec(m1: Vec<(String, Json)>, m2: &Vec<(String, Json)>) -> (merged: Vec<(String, Json)>)
    ensures
        members_view(merged@) == overlay_members(members_view(m1@), members_view(m2@)),
    decreases m2, 1nat,
{
    let ghost start = members_view(m1@);
    let mut acc = m1;
    let mut j: usize = 0;
    while j < m2.len()
        invariant
            j <= m2@.len(),
            members_view(acc@) == overlay_members(start, members_view(m2@.take(j as int))),
        decreases m2@.len() - j,
    {
        let ghost done = m2@.take(j as int);
        let ghost next = m2@.take(j + 1);
        proof {
            assert(next.drop_last() =~= done);
            assert(members_view(next).drop_last() == members_view(done));
            assert(members_view(next).last() == (m2@[j as int].0@, json_view(m2@[j as int].1)));
            assert(decreases_to!(*m2 => m2@));
            assert(decreases_to!(m2@ => m2@[j as int]));
            assert(decreases_to!(m2@[j as int] => m2@[j as int].1));
        }
        let key = m2[j].0.as_str();
        let incoming = &m2[j].1;
        match find_member(&acc, key) {
            Some(i) => {
                proof {
                    lemma_members_view_at(acc@);
                }
                let ghost before = acc@;
                let (name, current) = acc.remove(i);
                let value = overlay_values(current, incoming);
                acc.insert(i, (name, value));
                proof {
                    assert(acc@ =~= before.update(i as int, (name, value)));
                    lemma_members_view_update(before, i as int, (name, value));
                    let acc_v = members_view(before);
                    lemma_key_index_is_first(acc_v, key@);
                    assert(name == before[i as int].0);
                    assert(name@ == key@);
                    assert(members_view(acc@) == overlay_members(start, members_view(next)));
                }
            },
            None => {
                let value = overlay_values(Json::Null, incoming);
                let ghost before = acc@;
                let name = m2[j].0.clone();
                acc.push((name, value));
                proof {
                    assert(acc@.drop_last() == before);
                    assert(members_view(acc@) == members_view(before).push((name@, json_view(value))));
                    assert(members_view(acc@) == overlay_members(start, members_view(next)));
                }
            },
        }
        j = j + 1;
    }
    assert(m2@.take(m2@.len() as int) =~= m2@);
    acc
}

/// Overlays `b` onto `a`; see `overlay`.
pub fn merge_value(a: &mut Json, b: &Json)
    ensures
        json_view(*final(a)) == overlay(json_view(*old(a)), json_view(*b)),
{
    let mut taken = Json::Null;
    std::mem::swap(&mut taken, a);
    *a = overlay_values(taken, b);
}

/// Whether some member of `members` is named `key`.
pub open spec fn has_member(members: Seq<(Seq<char>, JsonV)>, key: Seq<char>) -> bool {
    exists|i: int| 0 <= i < members.len() && #[trigger] members[i].0 == key
}

proof fn lemma_key_index_finds_members(members: Seq<(Seq<char>, JsonV)>, key: Seq<char>)
    ensures
        key_index(members, key) >= 0 <==> has_member(members, key),
{
    lemma_key_index_is_first(members, key);
    if has_member(members, key) {
        let i = choose|i: int| 0 <= i < members.len() && #[trigger] members[i].0 == key;
        assert(members[i].0 == key);
    }
    if key_index(members, key) >= 0 {
        let i = key_index(members, key);
        assert(members[i].0 == key);
    }
}

/// Merging never loses a member: afterwards every key of either object is
/// there.
pub proof fn lemma_merging_keeps_every_key(m1: Seq<(Seq<char>, JsonV)>, m2: Seq<(Seq<char>, JsonV)>, key: Seq<char>)
    requires
        has_member(m1, key) || has_member(m2, key),
    ensures
        has_member(merge_members(m1, m2), key),
    decreases m2.len(),
{
    if m2.len() > 0 {
        let rest = m2.drop_last();
        let acc = merge_members(m1, rest);
        let last = m2.last();
        if has_member(m1, key) || has_member(rest, key) {
            lemma_merging_keeps_every_key(m1, rest, key);
        }
        lemma_key_index_finds_members(acc, last.0);
        lemma_key_index_is_first(acc, last.0);
        let result = merge_members(m1, m2);
        if has_member(acc, key) {
            let i = choose|i: int| 0 <= i < acc.len() && #[trigger] acc[i].0 == key;
            assert(result[i].0 == key);
        } else {
            let j = choose|j: int| 0 <= j < m2.len() && #[trigger] m2[j].0 == key;
            if j < rest.len() {
                assert(rest[j].0 == key);
                lemma_merging_keeps_every_key(m1, rest, key);
            }
            assert(last.0 == key);
            if key_index(acc, last.0) >= 0 {
                assert(result[key_index(acc, last.0)].0 == key);
            } else {
                assert(result[acc.len() as int].0 == key);
            }
        }
    }
}

} // verus!
