//! Lists of named items, read as maps from name to item.
//!
//! The interpreter keeps its destinations and its attributes in small lists,
//! each item under a name that occurs once. This module says which map such a
//! list stands for, and how the map changes when the list does.

use vstd::prelude::*;

verus! {

/// No name occurs twice.
pub open spec fn distinct(names: Seq<Seq<char>>) -> bool {
    forall|i: int, j: int| 0 <= i < j < names.len() ==> names[i] != names[j]
}

/// A place where the name occurs, if it occurs.
pub open spec fn position(names: Seq<Seq<char>>, name: Seq<char>) -> int {
    choose|i: int| 0 <= i < names.len() && names[i] == name
}

/// The map that a list of names and the list of their items stand for.
pub open spec fn named<V>(names: Seq<Seq<char>>, items: Seq<V>) -> Map<Seq<char>, V> {
    Map::new(|name: Seq<char>| names.contains(name), |name: Seq<char>| items[position(names, name)])
}

/// Where names are distinct, a name's place is the one place it occurs.
pub proof fn lemma_position(names: Seq<Seq<char>>, i: int)
    requires
        distinct(names),
        0 <= i < names.len(),
    ensures
        position(names, names[i]) == i,
        names.contains(names[i]),
{
}

/// The map holds exactly the names of the list, each with the item at its
/// place.
pub proof fn lemma_named_item<V>(names: Seq<Seq<char>>, items: Seq<V>, i: int)
    requires
        distinct(names),
        0 <= i < names.len(),
    ensures
        named(names, items).contains_key(names[i]),
        named(names, items)[names[i]] == items[i],
{
    lemma_position(names, i);
}

/// A new name at the end of the list is a new key in the map.
pub proof fn lemma_named_push<V>(names: Seq<Seq<char>>, items: Seq<V>, name: Seq<char>, item: V)
    requires
        distinct(names),
        names.len() == items.len(),
        !names.contains(name),
    ensures
        distinct(names.push(name)),
        named(names.push(name), items.push(item)) == named(names, items).insert(name, item),
{
    let names2 = names.push(name);
    let items2 = items.push(item);
    assert forall|key: Seq<char>| names2.contains(key) <==> (names.contains(key) || key
        == name) by {
        if names.contains(key) {
            let k = choose|k: int| 0 <= k < names.len() && names[k] == key;
            assert(names2[k] == key);
        }
        if key == name {
            assert(names2[names.len() as int] == key);
        }
    }
    assert forall|key: Seq<char>| names2.contains(key) implies #[trigger] named(names2, items2)[key]
        == named(names, items).insert(name, item)[key] by {
        let k = choose|k: int| 0 <= k < names2.len() && names2[k] == key;
        lemma_position(names2, k);
        if k < names.len() {
            lemma_position(names, k);
        }
    }
}

/// A new item at a place of the list is a new value under that place's name.
pub proof fn lemma_named_update<V>(names: Seq<Seq<char>>, items: Seq<V>, i: int, item: V)
    requires
        distinct(names),
        names.len() == items.len(),
        0 <= i < names.len(),
    ensures
        named(names, items.update(i, item)) == named(names, items).insert(names[i], item),
{
    let items2 = items.update(i, item);
    lemma_position(names, i);
    assert forall|key: Seq<char>| names.contains(key) implies #[trigger] named(names, items2)[key]
        == named(names, items).insert(names[i], item)[key] by {
        let k = choose|k: int| 0 <= k < names.len() && names[k] == key;
        lemma_position(names, k);
    }
}

} // verus!
