//! The deletion-aware merge of the engine's key store.
//!
//! A key store is a JSON object: category name to an object of item id to
//! item value. An update has the same shape; within a category of the update
//! an item mapped to `null` is deleted and any other value is inserted or
//! overwrites the stored one. Categories and items that the update does not
//! name are left as they were.
use vstd::prelude::*;
use crate::json::{
    JsonMap, empty_map, entries_of, into_object, json_is_null, json_object, map_has, map_insert,
    map_pairs, map_remove, no_entries, object_entries, object_value, pairs_to_map,
};

verus! {

/// Store key of the engine's credentials, replaced whole on each update.
pub const CREDS_KEY: &'static str = "baileys_creds";

/// Store key of the engine's key store, merged on each update.
pub const KEYS_KEY: &'static str = "baileys_keys";

/// A category of the store as the merge reads it: an object of items, or any
/// other value, which the merge leaves alone.
pub enum Category {
    Items(Map<Seq<char>, serde_json::Value>),
    Other(serde_json::Value),
}

/// How the merge reads a stored category.
pub open spec fn category_of(v: serde_json::Value) -> Category {
    match json_object(v) {
        Some(m) => Category::Items(object_entries(m)),
        None => Category::Other(v),
    }
}

/// The items after one category's update: an id mapped to `null` is removed,
/// an id mapped to anything else takes that value, other ids are unchanged.
pub open spec fn apply_items(
    items: Map<Seq<char>, serde_json::Value>,
    upd: Map<Seq<char>, serde_json::Value>,
) -> Map<Seq<char>, serde_json::Value> {
    Map::new(
        |id: Seq<char>|
            if upd.contains_key(id) {
                !json_is_null(upd[id])
            } else {
                items.contains_key(id)
            },
        |id: Seq<char>|
            if upd.contains_key(id) {
                upd[id]
            } else {
                items[id]
            },
    )
}

/// One category after its update: only an object of items merged with an
/// object changes.
pub open spec fn merge_category(cur: Category, upd: serde_json::Value) -> Category {
    match cur {
        Category::Items(items) => match entries_of(upd) {
            Some(u) => Category::Items(apply_items(items, u)),
            None => cur,
        },
        Category::Other(_) => cur,
    }
}

/// The category `c` of a store before an update touches it: a missing one
/// counts as an empty object.
pub open spec fn category_before(base: Map<Seq<char>, serde_json::Value>, c: Seq<char>) -> Category {
    if base.contains_key(c) {
        category_of(base[c])
    } else {
        Category::Items(Map::empty())
    }
}

/// `res` holds the categories of `base` merged with those of `upd`.
pub open spec fn keys_merged(
    base: Map<Seq<char>, serde_json::Value>,
    upd: Map<Seq<char>, serde_json::Value>,
    res: Map<Seq<char>, serde_json::Value>,
) -> bool {
    &&& res.dom() == base.dom().union(upd.dom())
    &&& forall|c: Seq<char>| #[trigger]
        res.contains_key(c) && !upd.contains_key(c) ==> res[c] == base[c]
    &&& forall|c: Seq<char>| #[trigger]
        upd.contains_key(c) ==> category_of(res[c]) == merge_category(
            category_before(base, c),
            upd[c],
        )
}

/// The categories of a stored snapshot, an absent one counting as an empty
/// object; `None` when the stored value is not an object.
pub open spec fn stored_categories(existing: Option<serde_json::Value>) -> Option<
    Map<Seq<char>, serde_json::Value>,
> {
    match existing {
        Some(e) => entries_of(e),
        None => Some(no_entries()),
    }
}

/// `r` is the snapshot that merging `update` into `existing` gives.
pub open spec fn snapshot_merged(
    existing: Option<serde_json::Value>,
    update: serde_json::Value,
    r: serde_json::Value,
) -> bool {
    match (stored_categories(existing), entries_of(update)) {
        (Some(base), Some(upd)) => match entries_of(r) {
            Some(res) => keys_merged(base, upd, res),
            None => false,
        },
        (Some(base), None) => match existing {
            Some(e) => r == e,
            None => entries_of(r) == Some(no_entries()),
        },
        (None, _) => Some(r) == existing,
    }
}

proof fn lemma_pairs_absent(s: Seq<(String, serde_json::Value)>, k: Seq<char>)
    requires
        forall|j: int| 0 <= j < s.len() ==> s[j].0@ != k,
    ensures
        !pairs_to_map(s).contains_key(k),
    decreases s.len(),
{
    if s.len() > 0 {
        lemma_pairs_absent(s.drop_last(), k);
    }
}

/// Applies one category's update to its items in place.
fn apply_category_update(items: &mut JsonMap, upd: &JsonMap)
    ensures
        object_entries(*final(items)) == apply_items(object_entries(*old(items)), object_entries(*upd)),
{
    let ghost start = object_entries(*items);
    let pairs = map_pairs(upd);
    let ghost all = pairs@;
    let mut i: usize = 0;
    while i < pairs.len()
        invariant
            i <= pairs.len(),
            pairs@ == all,
            pairs_to_map(all) == object_entries(*upd),
            object_entries(*items) == apply_items(start, pairs_to_map(all.take(i as int))),
        decreases pairs.len() - i,
    {
        let id = &pairs[i].0;
        let val = &pairs[i].1;
        let ghost before = pairs_to_map(all.take(i as int));
        if val.is_null() {
            map_remove(items, id.as_str());
        } else {
            map_insert(items, id.clone(), val.clone());
        }
        proof {
            assert(all.take(i + 1).drop_last() == all.take(i as int));
            assert(object_entries(*items) =~= apply_items(start, before.insert(id@, *val)));
        }
        i += 1;
    }
    proof {
        assert(all.take(pairs.len() as int) == all);
    }
}

/// Merges one category of an update into the store's categories in place.
fn merge_category_into(cats: &mut JsonMap, name: &String, upd: &serde_json::Value)
    ensures
        object_entries(*final(cats)).dom() == object_entries(*old(cats)).dom().insert(name@),
        forall|c: Seq<char>|
            c != name@ && #[trigger] object_entries(*old(cats)).contains_key(c) ==> object_entries(
                *final(cats),
            )[c] == object_entries(*old(cats))[c],
        category_of(object_entries(*final(cats))[name@]) == merge_category(
            category_before(object_entries(*old(cats)), name@),
            *upd,
        ),
{
    if !map_has(cats, name.as_str()) {
        map_insert(cats, name.clone(), object_value(empty_map()));
    }
    let ghost filled = object_entries(*cats);
    assert(category_of(filled[name@]) == category_before(object_entries(*old(cats)), name@));
    if let Some(src) = upd.as_object() {
        if let Some(stored) = map_remove(cats, name.as_str()) {
            match into_object(stored) {
                Ok(mut items) => {
                    apply_category_update(&mut items, src);
                    map_insert(cats, name.clone(), object_value(items));
                },
                Err(other) => {
                    map_insert(cats, name.clone(), other);
                },
            }
            assert(object_entries(*cats) =~= filled.insert(name@, object_entries(*cats)[name@]));
        }
    }
}

/// Merges a key-store update into the stored snapshot and returns the new
/// snapshot, which replaces the stored one. An absent snapshot counts as an
/// empty object. Each category of the update is created empty if it is not
/// stored yet, then its items are applied: `null` deletes an id, any other
/// value inserts or overwrites it. A snapshot or an update that is not an
/// object leaves the snapshot as it was.
pub fn merge_keys(existing: Option<serde_json::Value>, update: &serde_json::Value) -> (r: serde_json::Value)
    ensures
        snapshot_merged(existing, *update, r),
{
    let current = match existing {
        Some(v) => v,
        None => object_value(empty_map()),
    };
    let src = match update.as_object() {
        Some(m) => m,
        None => {
            return current;
        },
    };
    let mut cats = match into_object(current) {
        Ok(m) => m,
        Err(other) => {
            return other;
        },
    };
    let ghost base = object_entries(cats);
    let ghost upd = object_entries(*src);
    let pairs = map_pairs(src);
    let ghost all = pairs@;
    let mut i: usize = 0;
    proof {
        assert(all.take(0) =~= Seq::<(String, serde_json::Value)>::empty());
        assert(base.dom().union(pairs_to_map(all.take(0)).dom()) =~= base.dom());
    }
    while i < pairs.len()
        invariant
            i <= pairs.len(),
            pairs@ == all,
            pairs_to_map(all) == upd,
            forall|a: int, b: int| 0 <= a < b < all.len() ==> all[a].0@ != all[b].0@,
            keys_merged(base, pairs_to_map(all.take(i as int)), object_entries(cats)),
        decreases pairs.len() - i,
    {
        let name = &pairs[i].0;
        let val = &pairs[i].1;
        let ghost done = pairs_to_map(all.take(i as int));
        let ghost prev = object_entries(cats);
        proof {
            lemma_pairs_absent(all.take(i as int), name@);
            assert(!done.contains_key(name@));
            assert(prev.contains_key(name@) == base.contains_key(name@));
            assert(category_before(prev, name@) == category_before(base, name@));
        }
        merge_category_into(&mut cats, name, val);
        proof {
            assert(all.take(i + 1).drop_last() == all.take(i as int));
            let next = done.insert(name@, *val);
            assert(pairs_to_map(all.take(i + 1)) == next);
            let res = object_entries(cats);
            assert(res.dom() =~= base.dom().union(next.dom()));
            assert forall|c: Seq<char>| #[trigger]
                res.contains_key(c) && !next.contains_key(c) implies res[c] == base[c] by {}
            assert forall|c: Seq<char>| #[trigger]
                next.contains_key(c) implies category_of(res[c]) == merge_category(
                    category_before(base, c),
                    next[c],
                ) by {
                if c != name@ {
                    assert(done.contains_key(c));
                    assert(prev.contains_key(c));
                    assert(res[c] == prev[c]);
                    assert(next[c] == done[c]);
                }
            }
        }
        i += 1;
    }
    proof {
        assert(all.take(pairs.len() as int) == all);
    }
    object_value(cats)
}

/// Whether the categories `cats` hold item `id` in category `c`.
pub open spec fn holds_item(cats: Option<Map<Seq<char>, serde_json::Value>>, c: Seq<char>, id: Seq<char>) -> bool {
    match cats {
        Some(m) => m.contains_key(c) && match category_of(m[c]) {
            Category::Items(items) => items.contains_key(id),
            Category::Other(_) => false,
        },
        None => false,
    }
}

/// Whether an update deletes item `id` of category `c`.
pub open spec fn deletes_item(update: serde_json::Value, c: Seq<char>, id: Seq<char>) -> bool {
    match entries_of(update) {
        Some(u) => u.contains_key(c) && match entries_of(u[c]) {
            Some(items) => items.contains_key(id) && json_is_null(items[id]),
            None => false,
        },
        None => false,
    }
}

/// Two snapshots that agree as key stores: the same categories, each read
/// the same way.
pub open spec fn same_store(a: serde_json::Value, b: serde_json::Value) -> bool {
    match (entries_of(a), entries_of(b)) {
        (Some(x), Some(y)) => x.dom() == y.dom() && forall|c: Seq<char>|
            #[trigger] x.contains_key(c) ==> category_of(x[c]) == category_of(y[c]),
        (None, None) => a == b,
        _ => false,
    }
}

/// Deleting an id that the snapshot does not hold is a no-op on that id: it
/// is still absent afterwards.
pub proof fn lemma_delete_of_absent_id(
    existing: Option<serde_json::Value>,
    update: serde_json::Value,
    r: serde_json::Value,
    c: Seq<char>,
    id: Seq<char>,
)
    requires
        snapshot_merged(existing, update, r),
        deletes_item(update, c, id),
        !holds_item(stored_categories(existing), c, id),
    ensures
        !holds_item(entries_of(r), c, id),
{
    if let Some(base) = stored_categories(existing) {
        let upd = entries_of(update)->Some_0;
        let res = entries_of(r)->Some_0;
        assert(upd.contains_key(c));
        assert(category_of(res[c]) == merge_category(category_before(base, c), upd[c]));
    } else {
        assert(Some(r) == existing);
    }
}

/// Categories that an update does not name keep their stored value exactly.
pub proof fn lemma_unnamed_category_kept(
    existing: Option<serde_json::Value>,
    update: serde_json::Value,
    r: serde_json::Value,
    c: Seq<char>,
)
    requires
        snapshot_merged(existing, update, r),
        stored_categories(existing) is Some,
        stored_categories(existing)->Some_0.contains_key(c),
        entries_of(update) is Some ==> !entries_of(update)->Some_0.contains_key(c),
    ensures
        entries_of(r) is Some,
        entries_of(r)->Some_0.contains_key(c),
        entries_of(r)->Some_0[c] == stored_categories(existing)->Some_0[c],
{
    if entries_of(update) is None {
        if existing is None {
            assert(no_entries().contains_key(c) == false);
        }
    }
}

proof fn lemma_apply_items_twice(items: Map<Seq<char>, serde_json::Value>, upd: Map<Seq<char>, serde_json::Value>)
    ensures
        apply_items(apply_items(items, upd), upd) == apply_items(items, upd),
{
    assert(apply_items(apply_items(items, upd), upd) =~= apply_items(items, upd));
}

proof fn lemma_merge_category_twice(cur: Category, upd: serde_json::Value)
    ensures
        merge_category(merge_category(cur, upd), upd) == merge_category(cur, upd),
{
    if let Category::Items(items) = cur {
        if let Some(u) = entries_of(upd) {
            lemma_apply_items_twice(items, u);
        }
    }
}

/// Merging the same update a second time changes nothing: the store after
/// the second merge reads as the store after the first.
pub proof fn lemma_merge_idempotent(
    existing: Option<serde_json::Value>,
    update: serde_json::Value,
    r1: serde_json::Value,
    r2: serde_json::Value,
)
    requires
        snapshot_merged(existing, update, r1),
        snapshot_merged(Some(r1), update, r2),
    ensures
        same_store(r1, r2),
{
    match (stored_categories(existing), entries_of(update)) {
        (Some(base), Some(upd)) => {
            let x = entries_of(r1)->Some_0;
            let y = entries_of(r2)->Some_0;
            assert(x.dom() =~= y.dom());
            assert forall|c: Seq<char>| #[trigger] x.contains_key(c) implies category_of(x[c])
                == category_of(y[c]) by {
                if upd.contains_key(c) {
                    lemma_merge_category_twice(category_before(base, c), upd[c]);
                }
            }
        },
        (Some(base), None) => {
            if existing is None {
                assert(entries_of(r1) == Some(no_entries()));
            }
        },
        (None, _) => {},
    }
}

} // verus!
