//! Canonical JSON, the form that agent card signatures cover: every object's
//! members ordered by key, compared as UTF-8 bytes (the order of Rust's
//! `String`), at every nesting level. The tree holds scalars as opaque JSON
//! values; only the structure is read.

use vstd::prelude::*;

verus! {

/// A JSON value as a tree: scalars are kept whole, arrays and objects are
/// opened up.
pub enum JsonTree {
    /// A scalar (null, boolean, number or string).
    Leaf(serde_json::Value),
    /// An array of values, in order.
    Array(Vec<JsonTree>),
    /// An object's members, in the order they are held.
    Object(Vec<JsonMember>),
}

/// One member of a JSON object.
pub struct JsonMember {
    /// The member's key.
    pub key: String,
    /// The member's value.
    pub value: JsonTree,
}

/// The UTF-8 bytes of a key, by which keys are ordered.
pub open spec fn key_bytes(key: String) -> Seq<u8> {
    vstd::utf8::encode_utf8(key@)
}

/// Lexicographic order of byte sequences: `a` comes strictly before `b`.
pub open spec fn bytes_before(a: Seq<u8>, b: Seq<u8>) -> bool
    decreases a.len(),
{
    if b.len() == 0 {
        false
    } else if a.len() == 0 {
        true
    } else if a[0] != b[0] {
        a[0] < b[0]
    } else {
        bytes_before(a.drop_first(), b.drop_first())
    }
}

/// No two members share a key.
pub open spec fn distinct_keys(ms: Seq<JsonMember>) -> bool {
    forall|i: int, j: int| 0 <= i < j < ms.len() ==> key_bytes(#[trigger] ms[i].key) != key_bytes(#[trigger] ms[j].key)
}

/// The members' keys strictly ascend.
pub open spec fn keys_ascending(ms: Seq<JsonMember>) -> bool {
    forall|i: int, j: int|
        0 <= i < j < ms.len() ==> bytes_before(key_bytes(#[trigger] ms[i].key), key_bytes(#[trigger] ms[j].key))
}

/// Every object in the tree has distinct keys (as every JSON object read into
/// a map has).
pub open spec fn unique_keys(t: JsonTree) -> bool
    decreases t,
{
    match t {
        JsonTree::Leaf(_) => true,
        JsonTree::Array(items) => forall|i: int| 0 <= i < items@.len() ==> unique_keys(#[trigger] items@[i]),
        JsonTree::Object(ms) => distinct_keys(ms@) && forall|i: int|
            0 <= i < ms@.len() ==> unique_keys(#[trigger] ms@[i].value),
    }
}

/// Every object in the tree has its keys in ascending order.
pub open spec fn canonical(t: JsonTree) -> bool
    decreases t,
{
    match t {
        JsonTree::Leaf(_) => true,
        JsonTree::Array(items) => forall|i: int| 0 <= i < items@.len() ==> canonical(#[trigger] items@[i]),
        JsonTree::Object(ms) => keys_ascending(ms@) && forall|i: int|
            0 <= i < ms@.len() ==> canonical(#[trigger] ms@[i].value),
    }
}

/// Position `i` is one of the members'.
pub open spec fn member_at(ms: Seq<JsonMember>, i: int) -> bool {
    0 <= i < ms.len()
}

/// `b` holds what `a` holds, with the members of objects possibly in
/// another order: the same scalars, arrays element by element, and objects
/// with as many members, each member of `a` found in `b` under the same key
/// with its value again in this relation, and every key of `b` found in `a`.
#[verifier::opaque]
pub open spec fn reorders(a: JsonTree, b: JsonTree) -> bool
    decreases a,
{
    match (a, b) {
        (JsonTree::Leaf(x), JsonTree::Leaf(y)) => x == y,
        (JsonTree::Array(xs), JsonTree::Array(ys)) => xs@.len() == ys@.len() && forall|i: int|
            0 <= i < xs@.len() ==> reorders(#[trigger] xs@[i], ys@[i]),
        (JsonTree::Object(xs), JsonTree::Object(ys)) => {
            &&& xs@.len() == ys@.len()
            &&& forall|i: int|
                #[trigger] member_at(xs@, i) ==> exists|j: int|
                    0 <= j < ys@.len() && #[trigger] ys@[j].key@ == xs@[i].key@ && reorders(xs@[i].value, ys@[j].value)
            &&& forall|j: int|
                #[trigger] member_at(ys@, j) ==> exists|i: int| 0 <= i < xs@.len() && #[trigger] xs@[i].key@ == ys@[j].key@
        },
        _ => false,
    }
}

/// Two trees are the same: equal scalars, and arrays and objects equal
/// position by position, keys compared as text.
pub open spec fn same_tree(a: JsonTree, b: JsonTree) -> bool
    decreases a,
{
    match (a, b) {
        (JsonTree::Leaf(x), JsonTree::Leaf(y)) => x == y,
        (JsonTree::Array(xs), JsonTree::Array(ys)) => xs@.len() == ys@.len() && forall|i: int|
            0 <= i < xs@.len() ==> same_tree(#[trigger] xs@[i], ys@[i]),
        (JsonTree::Object(xs), JsonTree::Object(ys)) => xs@.len() == ys@.len() && forall|i: int|
            #![trigger xs@[i]]
            0 <= i < xs@.len() ==> ys@[i].key@ == xs@[i].key@ && same_tree(xs@[i].value, ys@[i].value),
        _ => false,
    }
}

/// A byte sequence never comes before itself.
pub proof fn lemma_before_irreflexive(a: Seq<u8>)
    ensures
        !bytes_before(a, a),
    decreases a.len(),
{
    if a.len() > 0 {
        lemma_before_irreflexive(a.drop_first());
    }
}

/// The byte order is transitive.
pub proof fn lemma_before_transitive(a: Seq<u8>, b: Seq<u8>, c: Seq<u8>)
    requires
        bytes_before(a, b),
        bytes_before(b, c),
    ensures
        bytes_before(a, c),
    decreases a.len(),
{
    if a.len() > 0 && b.len() > 0 && c.len() > 0 && a[0] == b[0] && b[0] == c[0] {
        lemma_before_transitive(a.drop_first(), b.drop_first(), c.drop_first());
    }
}

/// Of two different byte sequences, one comes before the other.
pub proof fn lemma_before_total(a: Seq<u8>, b: Seq<u8>)
    requires
        a != b,
    ensures
        bytes_before(a, b) || bytes_before(b, a),
    decreases a.len(),
{
    if a.len() == 0 && b.len() == 0 {
        assert(a =~= b);
    }
    if a.len() > 0 && b.len() > 0 && a[0] == b[0] {
        if a.drop_first() == b.drop_first() {
            assert(a.drop_first().len() == a.len() - 1);
            assert(b.drop_first().len() == b.len() - 1);
            assert(a.len() == b.len());
            assert forall|i: int| 0 <= i < a.len() implies a[i] == b[i] by {
                if i > 0 {
                    assert(a[i] == a.drop_first()[i - 1]);
                    assert(b[i] == b.drop_first()[i - 1]);
                }
            }
            assert(a =~= b);
        } else {
            lemma_before_total(a.drop_first(), b.drop_first());
        }
    }
}

/// The key order is the lexicographic order of UTF-8 bytes compared as
/// unsigned numbers: where two byte sequences agree on their first `i` bytes,
/// the first differing byte decides (the smaller comes first); a proper prefix
/// comes before the longer sequence; and nothing comes before its own prefix.
pub proof fn lemma_bytes_before_is_lexicographic(a: Seq<u8>, b: Seq<u8>, i: int)
    requires
        0 <= i <= a.len(),
        i <= b.len(),
        a.subrange(0, i) == b.subrange(0, i),
    ensures
        i < a.len() && i < b.len() && a[i] != b[i] ==> (bytes_before(a, b) <==> a[i] < b[i]),
        i == a.len() && i < b.len() ==> bytes_before(a, b),
        i == b.len() ==> !bytes_before(a, b),
    decreases i,
{
    if i > 0 {
        assert(a[0] == a.subrange(0, i)[0]);
        assert(b[0] == b.subrange(0, i)[0]);
        assert(a.drop_first().subrange(0, i - 1) =~= a.subrange(0, i).drop_first());
        assert(b.drop_first().subrange(0, i - 1) =~= b.subrange(0, i).drop_first());
        lemma_bytes_before_is_lexicographic(a.drop_first(), b.drop_first(), i - 1);
        if i < a.len() && i < b.len() {
            assert(a.drop_first()[i - 1] == a[i]);
            assert(b.drop_first()[i - 1] == b[i]);
        }
    }
}

/// Whether key `a` comes strictly before key `b` in byte order.
fn key_before(a: &String, b: &String) -> (r: bool)
    ensures
        r == bytes_before(key_bytes(*a), key_bytes(*b)),
{
    let x = a.as_str().as_bytes();
    let y = b.as_str().as_bytes();
    let mut i: usize = 0;
    proof {
        assert(x@.skip(0) =~= x@);
        assert(y@.skip(0) =~= y@);
    }
    while i < x.len() && i < y.len() && x[i] == y[i]
        invariant
            i <= x@.len(),
            i <= y@.len(),
            x@ == key_bytes(*a),
            y@ == key_bytes(*b),
            bytes_before(x@, y@) == bytes_before(x@.skip(i as int), y@.skip(i as int)),
        decreases x@.len() - i,
    {
        proof {
            assert(x@.skip(i + 1) =~= x@.skip(i as int).drop_first());
            assert(y@.skip(i + 1) =~= y@.skip(i as int).drop_first());
        }
        i = i + 1;
    }
    if i == y.len() {
        false
    } else if i == x.len() {
        true
    } else {
        x[i] < y[i]
    }
}

/// Whether two keys differ, compared as bytes.
fn keys_differ(a: &String, b: &String) -> (r: bool)
    ensures
        r == (key_bytes(*a) != key_bytes(*b)),
{
    proof {
        lemma_before_irreflexive(key_bytes(*a));
        if key_bytes(*a) != key_bytes(*b) {
            lemma_before_total(key_bytes(*a), key_bytes(*b));
        }
    }
    key_before(a, b) || key_before(b, a)
}

/// Whether no two members share a key.
fn members_distinct(ms: &Vec<JsonMember>) -> (r: bool)
    ensures
        r == distinct_keys(ms@),
{
    let mut i: usize = 0;
    while i < ms.len()
        invariant
            i <= ms@.len(),
            forall|a: int, b: int| 0 <= a < i && a < b < ms@.len() ==> key_bytes(#[trigger] ms@[a].key) != key_bytes(
                #[trigger] ms@[b].key,
            ),
        decreases ms@.len() - i,
    {
        let mut j: usize = i + 1;
        while j < ms.len()
            invariant
                i < ms@.len(),
                i + 1 <= j <= ms@.len(),
                forall|a: int, b: int| 0 <= a < i && a < b < ms@.len() ==> key_bytes(#[trigger] ms@[a].key)
                    != key_bytes(#[trigger] ms@[b].key),
                forall|b: int| i < b < j ==> key_bytes(ms@[i as int].key) != key_bytes(#[trigger] ms@[b].key),
            decreases ms@.len() - j,
        {
            if !keys_differ(&ms[i].key, &ms[j].key) {
                return false;
            }
            j = j + 1;
        }
        i = i + 1;
    }
    true
}

/// Whether every object in the tree has distinct keys.
pub fn has_unique_keys(tree: &JsonTree) -> (r: bool)
    ensures
        r == unique_keys(*tree),
    decreases tree,
{
    match tree {
        JsonTree::Leaf(_) => true,
        JsonTree::Array(items) => {
            let mut i: usize = 0;
            while i < items.len()
                invariant
                    i <= items@.len(),
                    *tree == JsonTree::Array(*items),
                    forall|k: int| 0 <= k < i ==> unique_keys(#[trigger] items@[k]),
                decreases items@.len() - i,
            {
                proof {
                    assert(decreases_to!(*tree => tree->Array_0));
                    assert(decreases_to!(*items => items@));
                    assert(decreases_to!(items@ => items@[i as int]));
                }
                if !has_unique_keys(&items[i]) {
                    return false;
                }
                i = i + 1;
            }
            true
        },
        JsonTree::Object(members) => {
            if !members_distinct(members) {
                return false;
            }
            let mut i: usize = 0;
            while i < members.len()
                invariant
                    i <= members@.len(),
                    *tree == JsonTree::Object(*members),
                    forall|k: int| 0 <= k < i ==> unique_keys(#[trigger] members@[k].value),
                decreases members@.len() - i,
            {
                proof {
                    assert(decreases_to!(*tree => tree->Object_0));
                    assert(decreases_to!(*members => members@));
                    assert(decreases_to!(members@ => members@[i as int]));
                    assert(decreases_to!(members@[i as int] => members@[i as int].value));
                }
                if !has_unique_keys(&members[i].value) {
                    return false;
                }
                i = i + 1;
            }
            true
        },
    }
}

/// The canonical form of a tree whose objects have distinct keys; `None`
/// for a tree with a repeated key in some object.
pub fn canonical_form(tree: &JsonTree) -> (r: Option<JsonTree>)
    ensures
        r is Some <==> unique_keys(*tree),
        r matches Some(c) ==> canonical(c) && reorders(*tree, c),
{
    if has_unique_keys(tree) {
        Some(canonicalise_json(tree))
    } else {
        None
    }
}

/// Inserts a member into members whose keys ascend, where its key belongs;
/// gives back where it went.
fn insert_member(out: &mut Vec<JsonMember>, member: JsonMember) -> (pos: usize)
    requires
        keys_ascending(old(out)@),
        forall|j: int| 0 <= j < old(out)@.len() ==> key_bytes(#[trigger] old(out)@[j].key) != key_bytes(member.key),
    ensures
        pos <= old(out)@.len(),
        final(out)@ == old(out)@.insert(pos as int, member),
        keys_ascending(final(out)@),
{
    let ghost before = out@;
    let ghost mk = key_bytes(member.key);
    let mut pos: usize = 0;
    while pos < out.len() && !key_before(&member.key, &out[pos].key)
        invariant
            pos <= out@.len(),
            out@ == before,
            mk == key_bytes(member.key),
            forall|j: int| 0 <= j < before.len() ==> key_bytes(#[trigger] before[j].key) != mk,
            forall|k: int| 0 <= k < pos ==> bytes_before(key_bytes(#[trigger] before[k].key), mk),
        decreases out@.len() - pos,
    {
        proof {
            lemma_before_total(key_bytes(before[pos as int].key), mk);
        }
        pos = pos + 1;
    }
    out.insert(pos, member);
    proof {
        let after = out@;
        assert forall|i: int, j: int| 0 <= i < j < after.len() implies bytes_before(
            key_bytes(#[trigger] after[i].key),
            key_bytes(#[trigger] after[j].key),
        ) by {
            if j < pos {
                assert(after[i] == before[i] && after[j] == before[j]);
            } else if j == pos {
                assert(after[i] == before[i]);
            } else if i < pos {
                assert(after[i] == before[i] && after[j] == before[j - 1]);
                lemma_before_transitive(key_bytes(before[i].key), mk, key_bytes(before[pos as int].key));
                if j - 1 > pos {
                    lemma_before_transitive(
                        key_bytes(before[i].key),
                        key_bytes(before[pos as int].key),
                        key_bytes(before[j - 1].key),
                    );
                }
            } else if i == pos {
                assert(after[j] == before[j - 1]);
                if j - 1 > pos {
                    lemma_before_transitive(mk, key_bytes(before[pos as int].key), key_bytes(before[j - 1].key));
                }
            } else {
                assert(after[i] == before[i - 1] && after[j] == before[j - 1]);
            }
        }
    }
    pos
}

/// The members sorted by key: a permutation of them with keys ascending.
fn sort_members(members: Vec<JsonMember>) -> (r: Vec<JsonMember>)
    requires
        distinct_keys(members@),
    ensures
        keys_ascending(r@),
        r@.to_multiset() == members@.to_multiset(),
{
    let ghost all = members@;
    let mut pending = members;
    let mut out: Vec<JsonMember> = Vec::new();
    proof {
        assert(all.take(all.len() as int) =~= all);
        assert(all.skip(all.len() as int) =~= Seq::<JsonMember>::empty());
        assert(out@ =~= Seq::<JsonMember>::empty());
    }
    while pending.len() > 0
        invariant
            pending@ == all.take(pending@.len() as int),
            pending@.len() <= all.len(),
            keys_ascending(out@),
            distinct_keys(all),
            out@.to_multiset() == all.skip(pending@.len() as int).to_multiset(),
        decreases pending@.len(),
    {
        let ghost n = pending@.len() - 1;
        let ghost old_out = out@;
        let member = match pending.pop() {
            Some(m) => m,
            None => {
                proof {
                    assert(false);
                }
                return out;
            },
        };
        proof {
            assert(member == all[n]);
            assert(pending@ =~= all.take(n));
            let done = all.skip(n + 1);
            assert forall|j: int| 0 <= j < old_out.len() implies key_bytes(#[trigger] old_out[j].key) != key_bytes(
                member.key,
            ) by {
                assert(old_out.contains(old_out[j]));
                vstd::seq_lib::to_multiset_contains(old_out, old_out[j]);
                vstd::seq_lib::to_multiset_contains(done, old_out[j]);
                assert(done.contains(old_out[j]));
                let k = choose|k: int| 0 <= k < done.len() && done[k] == old_out[j];
                assert(done[k] == all[n + 1 + k]);
            }
            assert(all.skip(n) =~= done.insert(0, all[n]));
        }
        let pos = insert_member(&mut out, member);
        proof {
            vstd::seq_lib::to_multiset_insert(old_out, pos as int, all[n]);
            vstd::seq_lib::to_multiset_insert(all.skip(n + 1), 0, all[n]);
        }
    }
    proof {
        assert(all.skip(0) =~= all);
    }
    out
}

/// The canonical form of a tree: every object's members sorted by key, at
/// every level; arrays keep their order and scalars are unchanged.
pub fn canonicalise_json(tree: &JsonTree) -> (r: JsonTree)
    requires
        unique_keys(*tree),
    ensures
        canonical(r),
        reorders(*tree, r),
    decreases tree,
{
    match tree {
        JsonTree::Leaf(v) => {
            let r = JsonTree::Leaf(v.clone());
            proof {
                reveal(reorders);
            }
            r
        },
        JsonTree::Array(items) => {
            let mut out: Vec<JsonTree> = Vec::new();
            let mut i: usize = 0;
            while i < items.len()
                invariant
                    i <= items@.len(),
                    out@.len() == i,
                    *tree == JsonTree::Array(*items),
                    forall|k: int| 0 <= k < items@.len() ==> unique_keys(#[trigger] items@[k]),
                    forall|k: int| 0 <= k < i ==> canonical(#[trigger] out@[k]) && reorders(items@[k], out@[k]),
                decreases items@.len() - i,
            {
                proof {
                    assert(decreases_to!(*tree => tree->Array_0));
                    assert(decreases_to!(*items => items@));
                    assert(decreases_to!(items@ => items@[i as int]));
                }
                let c = canonicalise_json(&items[i]);
                out.push(c);
                i = i + 1;
            }
            proof {
                reveal(reorders);
            }
            JsonTree::Array(out)
        },
        JsonTree::Object(members) => {
            let mut pending: Vec<JsonMember> = Vec::new();
            let mut i: usize = 0;
            while i < members.len()
                invariant
                    i <= members@.len(),
                    pending@.len() == i,
                    *tree == JsonTree::Object(*members),
                    distinct_keys(members@),
                    forall|k: int| 0 <= k < members@.len() ==> unique_keys(#[trigger] members@[k].value),
                    forall|k: int|
                        0 <= k < i ==> (#[trigger] pending@[k]).key@ == members@[k].key@ && canonical(
                            pending@[k].value,
                        ) && reorders(members@[k].value, pending@[k].value),
                decreases members@.len() - i,
            {
                proof {
                    assert(decreases_to!(*tree => tree->Object_0));
                    assert(decreases_to!(*members => members@));
                    assert(decreases_to!(members@ => members@[i as int]));
                    assert(decreases_to!(members@[i as int] => members@[i as int].value));
                }
                let value = canonicalise_json(&members[i].value);
                let key = members[i].key.clone();
                pending.push(JsonMember { key, value });
                i = i + 1;
            }
            let ghost all = pending@;
            proof {
                assert forall|a: int, b: int| 0 <= a < b < all.len() implies key_bytes(#[trigger] all[a].key)
                    != key_bytes(#[trigger] all[b].key) by {
                    assert(key_bytes(all[a].key) == key_bytes(members@[a].key));
                    assert(key_bytes(all[b].key) == key_bytes(members@[b].key));
                }
            }
            let out = sort_members(pending);
            proof {
                lemma_sorted_object(*members, all, out);
            }
            JsonTree::Object(out)
        },
    }
}


/// The object step of canonicalisation: members whose values were each
/// canonicalised, then sorted by key, form a canonical reordering of the
/// object they came from.
proof fn lemma_sorted_object(members: Vec<JsonMember>, all: Seq<JsonMember>, out: Vec<JsonMember>)
    requires
        all.len() == members@.len(),
        forall|k: int|
            0 <= k < all.len() ==> (#[trigger] all[k]).key@ == members@[k].key@ && canonical(all[k].value) && reorders(
                members@[k].value,
                all[k].value,
            ),
        keys_ascending(out@),
        out@.to_multiset() == all.to_multiset(),
    ensures
        canonical(JsonTree::Object(out)),
        reorders(JsonTree::Object(members), JsonTree::Object(out)),
{
    let result = out@;
    assert forall|i: int| 0 <= i < result.len() implies canonical(#[trigger] result[i].value) by {
        assert(result.contains(result[i]));
        vstd::seq_lib::to_multiset_contains(result, result[i]);
        vstd::seq_lib::to_multiset_contains(all, result[i]);
        let k = choose|k: int| 0 <= k < all.len() && all[k] == result[i];
        assert(all[k] == result[i]);
    }
    assert forall|i: int| #[trigger] member_at(members@, i) implies exists|j: int|
        0 <= j < result.len() && #[trigger] result[j].key@ == members@[i].key@ && reorders(
            members@[i].value,
            result[j].value,
        ) by {
        assert(all.contains(all[i]));
        vstd::seq_lib::to_multiset_contains(all, all[i]);
        vstd::seq_lib::to_multiset_contains(result, all[i]);
        let j = choose|j: int| 0 <= j < result.len() && result[j] == all[i];
        assert(result[j] == all[i]);
    }
    assert forall|j: int| #[trigger] member_at(result, j) implies exists|i: int|
        0 <= i < members@.len() && #[trigger] members@[i].key@ == result[j].key@ by {
        assert(result.contains(result[j]));
        vstd::seq_lib::to_multiset_contains(result, result[j]);
        vstd::seq_lib::to_multiset_contains(all, result[j]);
        let k = choose|k: int| 0 <= k < all.len() && all[k] == result[j];
        assert(all[k] == result[j]);
        assert(members@[k].key@ == result[j].key@);
    }
    vstd::seq_lib::to_multiset_len(result);
    vstd::seq_lib::to_multiset_len(all);
    reveal(reorders);
}

/// Every tree reorders itself.
pub proof fn lemma_reorders_reflexive(a: JsonTree)
    ensures
        reorders(a, a),
    decreases a,
{
    reveal(reorders);
    match a {
        JsonTree::Leaf(_) => {},
        JsonTree::Array(items) => {
            assert forall|i: int| 0 <= i < items@.len() implies reorders(#[trigger] items@[i], items@[i]) by {
                lemma_reorders_reflexive(items@[i]);
            }
        },
        JsonTree::Object(ms) => {
            assert forall|i: int| #[trigger] member_at(ms@, i) implies exists|j: int|
                0 <= j < ms@.len() && #[trigger] ms@[j].key@ == ms@[i].key@ && reorders(ms@[i].value, ms@[j].value) by {
                lemma_reorders_reflexive(ms@[i].value);
                assert(ms@[i].key@ == ms@[i].key@);
            }
            assert forall|j: int| #[trigger] member_at(ms@, j) implies exists|i: int|
                0 <= i < ms@.len() && #[trigger] ms@[i].key@ == ms@[j].key@ by {
                assert(ms@[j].key@ == ms@[j].key@);
            }
        },
    }
}

/// Reordering goes both ways when keys are distinct: if `b` reorders `a`,
/// then `a` reorders `b`.
pub proof fn lemma_reorders_symmetric(a: JsonTree, b: JsonTree)
    requires
        reorders(a, b),
        unique_keys(b),
    ensures
        reorders(b, a),
    decreases a, 1int,
{
    if a is Array && b is Array {
        lemma_items_symmetric(a, b);
    } else if a is Object && b is Object {
        lemma_members_symmetric(a, b);
    } else {
        reveal(reorders);
    }
}

proof fn lemma_items_symmetric(a: JsonTree, b: JsonTree)
    requires
        a is Array,
        b is Array,
        reorders(a, b),
        unique_keys(b),
    ensures
        reorders(b, a),
    decreases a, 0int,
{
    reveal(reorders);
    let xs = a->Array_0@;
    let ys = b->Array_0@;
    assert forall|i: int| 0 <= i < ys.len() implies reorders(#[trigger] ys[i], xs[i]) by {
        assert(decreases_to!(a => a->Array_0));
        assert(decreases_to!(a->Array_0 => a->Array_0@));
        assert(decreases_to!(a->Array_0@ => xs[i]));
        assert(unique_keys(ys[i]));
        lemma_reorders_symmetric(xs[i], ys[i]);
    }
}

proof fn lemma_members_symmetric(a: JsonTree, b: JsonTree)
    requires
        a is Object,
        b is Object,
        reorders(a, b),
        unique_keys(b),
    ensures
        reorders(b, a),
    decreases a, 0int,
{
    reveal(reorders);
    let xs = a->Object_0@;
    let ys = b->Object_0@;
    assert forall|i: int, j: int|
        0 <= i < xs.len() && 0 <= j < ys.len() && #[trigger] reorders(xs[i].value, ys[j].value) implies reorders(
        ys[j].value,
        xs[i].value,
    ) by {
        assert(decreases_to!(a => a->Object_0));
        assert(decreases_to!(a->Object_0 => a->Object_0@));
        assert(decreases_to!(a->Object_0@ => xs[i]));
        assert(decreases_to!(xs[i] => xs[i].value));
        assert(unique_keys(ys[j].value));
        lemma_reorders_symmetric(xs[i].value, ys[j].value);
    }
    assert forall|j: int| #[trigger] member_at(ys, j) implies exists|i: int|
        0 <= i < xs.len() && #[trigger] xs[i].key@ == ys[j].key@ && reorders(ys[j].value, xs[i].value) by {
        let i = choose|i: int| 0 <= i < xs.len() && #[trigger] xs[i].key@ == ys[j].key@;
        assert(member_at(xs, i));
        let j2 = choose|j2: int| 0 <= j2 < ys.len() && #[trigger] ys[j2].key@ == xs[i].key@ && reorders(xs[i].value, ys[j2].value);
        if j2 != j {
            assert(key_bytes(ys[j2].key) == key_bytes(ys[j].key));
            if j2 < j {
                assert(key_bytes(ys[j2].key) != key_bytes(ys[j].key));
            } else {
                assert(key_bytes(ys[j].key) != key_bytes(ys[j2].key));
            }
        }
        assert(reorders(xs[i].value, ys[j].value));
    }
    assert forall|i: int| #[trigger] member_at(xs, i) implies exists|j: int|
        0 <= j < ys.len() && #[trigger] ys[j].key@ == xs[i].key@ by {
        let j = choose|j: int| 0 <= j < ys.len() && #[trigger] ys[j].key@ == xs[i].key@ && reorders(xs[i].value, ys[j].value);
        assert(ys[j].key@ == xs[i].key@);
    }
}

/// Reordering composes: a reordering of a reordering of `a` reorders `a`.
pub proof fn lemma_reorders_transitive(a: JsonTree, b: JsonTree, c: JsonTree)
    requires
        reorders(a, b),
        reorders(b, c),
    ensures
        reorders(a, c),
    decreases a, 1int,
{
    if a is Array && b is Array && c is Array {
        lemma_items_transitive(a, b, c);
    } else if a is Object && b is Object && c is Object {
        lemma_members_transitive(a, b, c);
    } else {
        reveal(reorders);
    }
}

proof fn lemma_items_transitive(a: JsonTree, b: JsonTree, c: JsonTree)
    requires
        a is Array,
        b is Array,
        c is Array,
        reorders(a, b),
        reorders(b, c),
    ensures
        reorders(a, c),
    decreases a, 0int,
{
    reveal(reorders);
    let xs = a->Array_0@;
    let ys = b->Array_0@;
    let zs = c->Array_0@;
    assert forall|i: int| 0 <= i < xs.len() implies reorders(#[trigger] xs[i], zs[i]) by {
        assert(decreases_to!(a => a->Array_0));
        assert(decreases_to!(a->Array_0 => a->Array_0@));
        assert(decreases_to!(a->Array_0@ => xs[i]));
        lemma_reorders_transitive(xs[i], ys[i], zs[i]);
    }
}

proof fn lemma_members_transitive(a: JsonTree, b: JsonTree, c: JsonTree)
    requires
        a is Object,
        b is Object,
        c is Object,
        reorders(a, b),
        reorders(b, c),
    ensures
        reorders(a, c),
    decreases a, 0int,
{
    reveal(reorders);
    let xs = a->Object_0@;
    let ys = b->Object_0@;
    let zs = c->Object_0@;
    assert forall|i: int| #[trigger] member_at(xs, i) implies exists|k: int|
        0 <= k < zs.len() && #[trigger] zs[k].key@ == xs[i].key@ && reorders(xs[i].value, zs[k].value) by {
        let j = choose|j: int| 0 <= j < ys.len() && #[trigger] ys[j].key@ == xs[i].key@ && reorders(xs[i].value, ys[j].value);
        assert(member_at(ys, j));
        let k = choose|k: int| 0 <= k < zs.len() && #[trigger] zs[k].key@ == ys[j].key@ && reorders(ys[j].value, zs[k].value);
        assert(decreases_to!(a => a->Object_0));
        assert(decreases_to!(a->Object_0 => a->Object_0@));
        assert(decreases_to!(a->Object_0@ => xs[i]));
        assert(decreases_to!(xs[i] => xs[i].value));
        lemma_reorders_transitive(xs[i].value, ys[j].value, zs[k].value);
    }
    assert forall|k: int| #[trigger] member_at(zs, k) implies exists|i: int|
        0 <= i < xs.len() && #[trigger] xs[i].key@ == zs[k].key@ by {
        let j = choose|j: int| 0 <= j < ys.len() && #[trigger] ys[j].key@ == zs[k].key@;
        assert(member_at(ys, j));
        let i = choose|i: int| 0 <= i < xs.len() && #[trigger] xs[i].key@ == ys[j].key@;
        assert(xs[i].key@ == zs[k].key@);
    }
}

/// Canonical trees have distinct keys in every object.
pub proof fn lemma_canonical_has_unique_keys(t: JsonTree)
    requires
        canonical(t),
    ensures
        unique_keys(t),
    decreases t,
{
    match t {
        JsonTree::Leaf(_) => {},
        JsonTree::Array(items) => {
            assert forall|i: int| 0 <= i < items@.len() implies unique_keys(#[trigger] items@[i]) by {
                lemma_canonical_has_unique_keys(items@[i]);
            }
        },
        JsonTree::Object(ms) => {
            assert forall|i: int, j: int| 0 <= i < j < ms@.len() implies key_bytes(#[trigger] ms@[i].key) != key_bytes(
                #[trigger] ms@[j].key,
            ) by {
                assert(bytes_before(key_bytes(ms@[i].key), key_bytes(ms@[j].key)));
                lemma_before_irreflexive(key_bytes(ms@[i].key));
            }
            assert forall|i: int| 0 <= i < ms@.len() implies unique_keys(#[trigger] ms@[i].value) by {
                lemma_canonical_has_unique_keys(ms@[i].value);
            }
        },
    }
}

/// Byte sequences in strictly ascending order.
pub open spec fn ascending(s: Seq<Seq<u8>>) -> bool {
    forall|i: int, j: int| 0 <= i < j < s.len() ==> bytes_before(#[trigger] s[i], #[trigger] s[j])
}

/// Two strictly ascending sequences holding the same elements are equal.
proof fn lemma_ascending_unique(xs: Seq<Seq<u8>>, ys: Seq<Seq<u8>>)
    requires
        ascending(xs),
        ascending(ys),
        forall|i: int| 0 <= i < xs.len() ==> ys.contains(#[trigger] xs[i]),
        forall|j: int| 0 <= j < ys.len() ==> xs.contains(#[trigger] ys[j]),
    ensures
        xs == ys,
    decreases xs.len() + ys.len(),
{
    if xs.len() == 0 && ys.len() > 0 {
        assert(xs.contains(ys[0]));
    } else if xs.len() > 0 && ys.len() == 0 {
        assert(ys.contains(xs[0]));
    } else if xs.len() > 0 && ys.len() > 0 {
        assert(ys.contains(xs[0]));
        assert(xs.contains(ys[0]));
        let j = choose|j: int| 0 <= j < ys.len() && ys[j] == xs[0];
        let i = choose|i: int| 0 <= i < xs.len() && xs[i] == ys[0];
        if xs[0] != ys[0] {
            assert(j > 0 && i > 0);
            assert(bytes_before(ys[0], ys[j]));
            assert(bytes_before(xs[0], xs[i]));
            lemma_before_transitive(ys[0], xs[0], ys[0]);
            lemma_before_irreflexive(ys[0]);
        }
        let xt = xs.drop_first();
        let yt = ys.drop_first();
        assert forall|a: int| 0 <= a < xt.len() implies yt.contains(#[trigger] xt[a]) by {
            assert(ys.contains(xs[a + 1]));
            let b = choose|b: int| 0 <= b < ys.len() && ys[b] == xs[a + 1];
            if b == 0 {
                assert(bytes_before(xs[0], xs[a + 1]));
                lemma_before_irreflexive(xs[0]);
            }
            assert(yt[b - 1] == xt[a]);
        }
        assert forall|b: int| 0 <= b < yt.len() implies xt.contains(#[trigger] yt[b]) by {
            assert(xs.contains(ys[b + 1]));
            let a = choose|a: int| 0 <= a < xs.len() && xs[a] == ys[b + 1];
            if a == 0 {
                assert(bytes_before(ys[0], ys[b + 1]));
                lemma_before_irreflexive(ys[0]);
            }
            assert(xt[a - 1] == yt[b]);
        }
        assert forall|a: int, b: int| 0 <= a < b < xt.len() implies bytes_before(#[trigger] xt[a], #[trigger] xt[b]) by {
            assert(xt[a] == xs[a + 1] && xt[b] == xs[b + 1]);
        }
        assert forall|a: int, b: int| 0 <= a < b < yt.len() implies bytes_before(#[trigger] yt[a], #[trigger] yt[b]) by {
            assert(yt[a] == ys[a + 1] && yt[b] == ys[b + 1]);
        }
        lemma_ascending_unique(xt, yt);
        assert(xs =~= seq![xs[0]] + xt);
        assert(ys =~= seq![ys[0]] + yt);
    }
}

/// The key bytes of members, in order.
pub open spec fn member_keys(ms: Seq<JsonMember>) -> Seq<Seq<u8>> {
    ms.map_values(|m: JsonMember| key_bytes(m.key))
}

/// Two canonical trees that reorder each other are the same tree.
pub proof fn lemma_canonical_reorder_is_same(x: JsonTree, y: JsonTree)
    requires
        canonical(x),
        canonical(y),
        reorders(x, y),
    ensures
        same_tree(x, y),
    decreases x,
{
    reveal(reorders);
    match (x, y) {
        (JsonTree::Array(xs), JsonTree::Array(ys)) => {
            assert forall|i: int| 0 <= i < xs@.len() implies same_tree(#[trigger] xs@[i], ys@[i]) by {
                lemma_canonical_reorder_is_same(xs@[i], ys@[i]);
            }
        },
        (JsonTree::Object(xs), JsonTree::Object(ys)) => {
            let xk = member_keys(xs@);
            let yk = member_keys(ys@);
            assert forall|a: int, b: int| 0 <= a < b < xk.len() implies bytes_before(#[trigger] xk[a], #[trigger] xk[b]) by {
                assert(bytes_before(key_bytes(xs@[a].key), key_bytes(xs@[b].key)));
            }
            assert forall|a: int, b: int| 0 <= a < b < yk.len() implies bytes_before(#[trigger] yk[a], #[trigger] yk[b]) by {
                assert(bytes_before(key_bytes(ys@[a].key), key_bytes(ys@[b].key)));
            }
            assert forall|a: int| 0 <= a < xk.len() implies yk.contains(#[trigger] xk[a]) by {
                assert(member_at(xs@, a));
                let b = choose|b: int| 0 <= b < ys@.len() && #[trigger] ys@[b].key@ == xs@[a].key@ && reorders(xs@[a].value, ys@[b].value);
                assert(yk[b] == xk[a]);
            }
            assert forall|b: int| 0 <= b < yk.len() implies xk.contains(#[trigger] yk[b]) by {
                assert(member_at(ys@, b));
                let a = choose|a: int| 0 <= a < xs@.len() && #[trigger] xs@[a].key@ == ys@[b].key@;
                assert(xk[a] == yk[b]);
            }
            lemma_ascending_unique(xk, yk);
            assert forall|i: int| #![trigger xs@[i]] 0 <= i < xs@.len() implies ys@[i].key@ == xs@[i].key@ && same_tree(
                xs@[i].value,
                ys@[i].value,
            ) by {
                assert(member_at(xs@, i));
                let j = choose|j: int| 0 <= j < ys@.len() && #[trigger] ys@[j].key@ == xs@[i].key@ && reorders(xs@[i].value, ys@[j].value);
                assert(yk[j] == xk[i]);
                assert(xk[i] == yk[i]);
                if j < i {
                    assert(bytes_before(yk[j], yk[i]));
                    lemma_before_irreflexive(yk[i]);
                } else if i < j {
                    assert(bytes_before(yk[i], yk[j]));
                    lemma_before_irreflexive(yk[i]);
                }
                lemma_canonical_reorder_is_same(xs@[i].value, ys@[i].value);
            }
        },
        _ => {},
    }
}

/// The canonical form does not depend on member order: two documents that
/// differ only in the order of their objects' members have the same
/// canonical form, so signer and verifier derive the same bytes.
pub proof fn lemma_canonical_form_unique(a: JsonTree, b: JsonTree, x: JsonTree, y: JsonTree)
    requires
        reorders(a, b),
        canonical(x),
        reorders(a, x),
        canonical(y),
        reorders(b, y),
    ensures
        same_tree(x, y),
{
    lemma_canonical_has_unique_keys(x);
    lemma_reorders_symmetric(a, x);
    lemma_reorders_transitive(x, a, b);
    lemma_reorders_transitive(x, b, y);
    lemma_canonical_reorder_is_same(x, y);
}

} // verus!
