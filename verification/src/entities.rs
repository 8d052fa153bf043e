use vstd::prelude::*;
use crate::entity::{first_with_index, Entity, EntityList};

verus! {

/// The entities at indices `1..=max` that exist and are not the local player, in index order.
pub open spec fn spec_entities_up_to(list: &EntityList, max: int) -> Seq<Entity>
    decreases max,
{
    if max < 1 {
        Seq::empty()
    } else {
        let prev = spec_entities_up_to(list, max - 1);
        match list.spec_by_index(max as i32) {
            Some(e) => if !e.local_player {
                prev.push(*e)
            } else {
                prev
            },
            None => prev,
        }
    }
}

/// The entities at indices `1..=max_entities` except the local player.
pub fn generic_iter<'a>(list: &'a EntityList, max_entities: i32) -> (r: Vec<&'a Entity>)
    ensures
        r@.map_values(|e: &Entity| *e) == spec_entities_up_to(list, max_entities as int),
{
    let mut r: Vec<&'a Entity> = Vec::new();
    let mut i: i64 = 1;
    if max_entities < 1 {
        assert(r@.map_values(|e: &Entity| *e) =~= spec_entities_up_to(list, max_entities as int));
        return r;
    }
    while i <= max_entities as i64
        invariant
            1 <= i,
            i <= max_entities + 1,
            r@.map_values(|e: &Entity| *e) == spec_entities_up_to(list, i - 1),
        decreases max_entities - i + 1,
    {
        match list.get_entity_by_index(i as i32) {
            Some(e) => if !e.is_local_player() {
                r.push(e);
            },
            None => {},
        }
        assert(r@.map_values(|e: &Entity| *e) =~= spec_entities_up_to(list, i as int));
        i = i + 1;
    }
    r
}

/// Every entity up to the highest index in use, except the local player.
pub fn iter<'a>(list: &'a EntityList, highest_entity_index: i32) -> (r: Vec<&'a Entity>)
    ensures
        r@.map_values(|e: &Entity| *e) == spec_entities_up_to(list, highest_entity_index as int),
{
    generic_iter(list, highest_entity_index)
}

/// Every player slot up to the server's maximum, except the local player.
pub fn players_iter<'a>(list: &'a EntityList, max_clients: i32) -> (r: Vec<&'a Entity>)
    ensures
        r@.map_values(|e: &Entity| *e) == spec_entities_up_to(list, max_clients as int),
{
    generic_iter(list, max_clients)
}


/// Iteration never yields the local player, and yields each entity-list index at most once
/// and in increasing order.
pub proof fn law_iter_skips_local_player(list: &EntityList, max: int)
    requires
        max <= i32::MAX,
    ensures
        forall|i: int| 0 <= i < spec_entities_up_to(list, max).len() ==> !(#[trigger] spec_entities_up_to(list, max)[i]).local_player,
        forall|i: int, j: int|
            0 <= i < j < spec_entities_up_to(list, max).len() ==> (#[trigger] spec_entities_up_to(list, max)[i]).networkable.index
                < (#[trigger] spec_entities_up_to(list, max)[j]).networkable.index,
        forall|i: int|
            0 <= i < spec_entities_up_to(list, max).len() ==> 1 <= (#[trigger] spec_entities_up_to(list, max)[i]).networkable.index <= max,
    decreases max,
{
    if max >= 1 {
        law_iter_skips_local_player(list, max - 1);
        let prev = spec_entities_up_to(list, max - 1);
        match list.spec_by_index(max as i32) {
            Some(e) => {
                if !e.local_player {
                    lemma_by_index_has_index(list, max as i32);
                    assert(spec_entities_up_to(list, max) == prev.push(*e));
                }
            },
            None => {},
        }
    }
}

/// The entity found at an index has that index.
proof fn lemma_by_index_has_index(list: &EntityList, index: i32)
    requires
        list.spec_by_index(index) is Some,
    ensures
        list.spec_by_index(index)->0.networkable.index == index,
{
    lemma_first_with_index_found(list.entities@, index);
}

proof fn lemma_first_with_index_found(s: Seq<Entity>, index: i32)
    ensures
        first_with_index(s, index) matches Some(i) ==> 0 <= i < s.len() && s[i].networkable.index == index,
    decreases s.len(),
{
    if s.len() > 0 {
        lemma_first_with_index_found(s.drop_last(), index);
    }
}

} // verus!
