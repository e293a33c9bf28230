//! The inventory screen: the item list, equipping and unequipping, and
//! rearranging the party between active members and the bench.

use crate::core_plugin::{GameState, Party};
use crate::shop::{nav_cursor, navigate};
use crate::data::{slot_name, slot_name_spec, Element, EquipmentSlot, GameData};
use crate::strmap::StrMap;
use crate::text::{
    first_index, is_first_index, position_of,
    bytes_of, concat2, decimal, lemma_lex_transitive, lemma_lex_trichotomy, lex_lt, push_decimal, push_signed,
    signed_decimal, str_lt, string_seq,
};
use vstd::multiset::Multiset;
use vstd::prelude::*;
use vstd::string::StringExecFns;

verus! {

broadcast use {vstd::string::group_string_axioms, vstd::multiset::group_multiset_axioms};

/// Strictly increasing by bytes, so without repeats.
pub open spec fn sorted_unique(v: Seq<String>) -> bool {
    forall|i: int, j: int| 0 <= i < j < v.len() ==> lex_lt(bytes_of(#[trigger] v[i]), bytes_of(#[trigger] v[j]))
}

proof fn lemma_same_bytes_same_string(a: String, b: String)
    requires
        bytes_of(a) == bytes_of(b),
    ensures
        a@ == b@,
{
    vstd::utf8::encode_utf8_decode_utf8(a@);
    vstd::utf8::encode_utf8_decode_utf8(b@);
}

/// The distinct inventory IDs in byte order, for stable cursor positions.
pub fn build_item_list(party: &Party) -> (ids: Vec<String>)
    ensures
        sorted_unique(ids@),
        string_seq(ids@).to_set() == string_seq(party.inventory@).to_set(),
{
    let mut list: Vec<String> = Vec::new();
    let mut i: usize = 0;
    while i < party.inventory.len()
        invariant
            i <= party.inventory@.len(),
            sorted_unique(list@),
            string_seq(list@).to_set() == string_seq(party.inventory@.take(i as int)).to_set(),
        decreases party.inventory@.len() - i,
    {
        let x = &party.inventory[i];
        let mut j: usize = 0;
        while j < list.len() && str_lt(list[j].as_str(), x.as_str())
            invariant
                j <= list@.len(),
                sorted_unique(list@),
                forall|a: int| 0 <= a < j ==> lex_lt(bytes_of(#[trigger] list@[a]), bytes_of(*x)),
            decreases list@.len() - j,
        {
            j = j + 1;
        }
        let ghost old_list = list@;
        proof {
            assert(party.inventory@.take(i + 1) =~= party.inventory@.take(i as int).push(*x));
            assert(string_seq(party.inventory@.take(i + 1)) =~= string_seq(party.inventory@.take(i as int)).push(x@));
            string_seq(party.inventory@.take(i as int)).lemma_push_to_set_commute(x@);
        }
        if j < list.len() && list[j] == *x {
            proof {
                assert(string_seq(list@)[j as int] == x@);
                assert(string_seq(list@).to_set().contains(x@));
                assert(string_seq(party.inventory@.take(i + 1)).to_set() =~= string_seq(list@).to_set());
            }
        } else {
            proof {
                if j < list@.len() {
                    lemma_lex_trichotomy(bytes_of(list@[j as int]), bytes_of(*x));
                    if bytes_of(list@[j as int]) == bytes_of(*x) {
                        lemma_same_bytes_same_string(list@[j as int], *x);
                    }
                    assert(lex_lt(bytes_of(*x), bytes_of(list@[j as int])));
                }
            }
            list.insert(j, x.clone());
            proof {
                assert forall|a: int, b: int| 0 <= a < b < list@.len() implies lex_lt(bytes_of(#[trigger] list@[a]), bytes_of(#[trigger] list@[b])) by {
                    if b < j {
                        assert(list@[a] == old_list[a] && list@[b] == old_list[b]);
                    } else if b == j {
                        assert(list@[a] == old_list[a]);
                    } else if a == j {
                        assert(list@[b] == old_list[b - 1]);
                        if b - 1 > j {
                            assert(lex_lt(bytes_of(old_list[j as int]), bytes_of(old_list[b - 1])));
                            lemma_lex_transitive(bytes_of(*x), bytes_of(old_list[j as int]), bytes_of(old_list[b - 1]));
                        }
                    } else if a < j {
                        assert(list@[a] == old_list[a] && list@[b] == old_list[b - 1]);
                    } else {
                        assert(list@[a] == old_list[a - 1] && list@[b] == old_list[b - 1]);
                    }
                }
                assert(string_seq(list@) =~= string_seq(old_list).insert(j as int, x@));
                assert forall|s: Seq<char>| string_seq(list@).to_set().contains(s) <==> string_seq(old_list).to_set().insert(x@).contains(s) by {
                    if string_seq(list@).to_set().contains(s) {
                        let k = choose|k: int| 0 <= k < string_seq(list@).len() && string_seq(list@)[k] == s;
                        if k < j {
                            assert(string_seq(old_list)[k] == s);
                        } else if k > j {
                            assert(string_seq(old_list)[k - 1] == s);
                        }
                    }
                    if string_seq(old_list).to_set().contains(s) && s != x@ {
                        let k = choose|k: int| 0 <= k < string_seq(old_list).len() && string_seq(old_list)[k] == s;
                        if k < j {
                            assert(string_seq(list@)[k] == s);
                        } else {
                            assert(string_seq(list@)[k + 1] == s);
                        }
                    }
                    if s == x@ {
                        assert(string_seq(list@)[j as int] == s);
                    }
                }
                assert(string_seq(list@).to_set() =~= string_seq(old_list).to_set().insert(x@));
                assert(string_seq(party.inventory@.take(i + 1)).to_set() =~= string_seq(party.inventory@.take(i as int)).to_set().insert(x@));
            }
        }
        i = i + 1;
    }
    assert(party.inventory@.take(i as int) =~= party.inventory@);
    list
}

/// The items held in a unit's slots.
pub open spec fn slot_items(m: StrMap<String>) -> Multiset<Seq<char>> {
    string_seq(m.values()).to_multiset()
}

/// Union of a sequence of multisets.
pub open spec fn sum_ms(s: Seq<Multiset<Seq<char>>>) -> Multiset<Seq<char>>
    decreases s.len(),
{
    if s.len() == 0 {
        Multiset::empty()
    } else {
        sum_ms(s.drop_last()).add(s.last())
    }
}

/// Every equipped item, over all units and slots.
pub open spec fn equipped_items(eq: StrMap<StrMap<String>>) -> Multiset<Seq<char>> {
    sum_ms(slot_sets(eq))
}

/// The items of each unit, in unit order.
pub open spec fn slot_sets(eq: StrMap<StrMap<String>>) -> Seq<Multiset<Seq<char>>> {
    Seq::new(eq.size(), |i: int| slot_items(eq.value(i)))
}

/// Everything the party owns: the inventory and what its units wear.
pub open spec fn owned_items(p: Party) -> Multiset<Seq<char>> {
    string_seq(p.inventory@).to_multiset().add(equipped_items(p.equipment))
}

proof fn lemma_sum_update(s: Seq<Multiset<Seq<char>>>, i: int, t: Multiset<Seq<char>>)
    requires
        0 <= i < s.len(),
    ensures
        sum_ms(s.update(i, t)).add(s[i]) == sum_ms(s).add(t),
    decreases s.len(),
{
    let u = s.update(i, t);
    let d = s.drop_last();
    assert(sum_ms(s) == sum_ms(d).add(s.last()));
    assert(sum_ms(u) == sum_ms(u.drop_last()).add(u.last()));
    if i == s.len() - 1 {
        assert(u.drop_last() =~= d);
        assert(sum_ms(u).add(s[i]) =~= sum_ms(s).add(t));
    } else {
        lemma_sum_update(d, i, t);
        assert(u.drop_last() =~= d.update(i, t));
        assert(u.last() == s.last());
        assert(sum_ms(u).add(s[i]) =~= sum_ms(d.update(i, t)).add(d[i]).add(s.last()));
        assert(sum_ms(u).add(s[i]) =~= sum_ms(s).add(t));
    }
}

proof fn lemma_sum_push(s: Seq<Multiset<Seq<char>>>, t: Multiset<Seq<char>>)
    ensures
        sum_ms(s.push(t)) =~= sum_ms(s).add(t),
{
    assert(s.push(t).drop_last() =~= s);
}

/// The item in `slot` of `unit`, if the unit wears one there.
pub open spec fn slot_item(eq: Map<Seq<char>, StrMap<String>>, unit: Seq<char>, slot: Seq<char>) -> Option<Seq<char>> {
    if eq.contains_key(unit) && eq[unit]@.contains_key(slot) {
        Some(eq[unit]@[slot]@)
    } else {
        None
    }
}

/// Takes the item out of a unit's slot and puts it back in the inventory.
/// Returns false, changing nothing, when the slot is empty.
pub fn unequip_slot(party: &mut Party, unit_id: &str, slot: &str) -> (removed: bool)
    requires
        old(party).wf(),
    ensures
        final(party).wf(),
        removed == (slot_item(old(party).equipment@, unit_id@, slot@) is Some),
        !removed ==> *final(party) == *old(party),
        removed ==> {
            &&& string_seq(final(party).inventory@) == string_seq(old(party).inventory@).push(
                slot_item(old(party).equipment@, unit_id@, slot@)->0,
            )
            &&& final(party).equipment@.dom() == old(party).equipment@.dom()
            &&& final(party).equipment@[unit_id@]@ == old(party).equipment@[unit_id@]@.remove(slot@)
            &&& forall|u: Seq<char>| u != unit_id@ && #[trigger] old(party).equipment@.contains_key(u)
                ==> final(party).equipment@[u] == old(party).equipment@[u]
        },
        final(party).active == old(party).active,
        final(party).bench == old(party).bench,
        final(party).gold == old(party).gold,
        final(party).unit_levels == old(party).unit_levels,
        final(party).unit_hp_pp == old(party).unit_hp_pp,
        final(party).djinn_assignments == old(party).djinn_assignments,
        final(party).story_flags == old(party).story_flags,
        final(party).difficulty == old(party).difficulty,
        owned_items(*final(party)) == owned_items(*old(party)),
{
    let i = match party.equipment.find(unit_id) {
        Some(i) => i,
        None => {
            return false;
        },
    };
    let j = match party.equipment.value_at(i).find(slot) {
        Some(j) => j,
        None => {
            return false;
        },
    };
    let ghost pre = *party;
    let ghost inner = pre.equipment.value(i as int);
    proof {
        assert(inner.wf());
        pre.equipment.lemma_view_at(i as int);
        inner.lemma_view_at(j as int);
    }
    let mut slots = party.equipment.replace_value_at(i, StrMap::new());
    let ghost mid = party.equipment;
    proof {
        assert(mid.keys()[i as int] == pre.equipment.keys()[i as int]);
    }
    let item = slots.value_at(j).clone();
    slots.remove(slot);
    party.equipment.set_value_at(i, slots);
    party.inventory.push(item);
    proof {
        let post = *party;
        assert forall|k: int| 0 <= k < post.equipment.size() implies (#[trigger] post.equipment.value(k)).wf() by {
            assert(post.equipment.values()[k] == post.equipment.value(k));
            if k != i {
                assert(post.equipment.values()[k] == pre.equipment.values()[k]);
                assert(pre.equipment.values()[k] == pre.equipment.value(k));
            }
        }
        assert(string_seq(post.inventory@) =~= string_seq(pre.inventory@).push(item@));
        assert(post.equipment@.dom() =~= pre.equipment@.dom());
        // conservation
        let sv = slot_sets(pre.equipment);
        assert(slot_sets(post.equipment) =~= sv.update(i as int, slot_items(slots))) by {
            assert forall|k: int| 0 <= k < sv.len() implies slot_sets(post.equipment)[k] == sv.update(i as int, slot_items(slots))[k] by {
                assert(post.equipment.values()[k] == post.equipment.value(k));
                assert(pre.equipment.values()[k] == pre.equipment.value(k));
            }
        }
        lemma_sum_update(sv, i as int, slot_items(slots));
        assert(sv[i as int] == slot_items(inner));
        assert(string_seq(slots.values()) =~= string_seq(inner.values()).remove(j as int));
        string_seq(inner.values()).to_multiset_ensures();
        assert(string_seq(inner.values())[j as int] == item@);
        assert(slot_items(slots).insert(item@) =~= slot_items(inner));
        string_seq(pre.inventory@).to_multiset_ensures();
        let ep = equipped_items(post.equipment);
        let e0 = equipped_items(pre.equipment);
        assert(ep == sum_ms(sv.update(i as int, slot_items(slots))));
        assert(ep.add(slot_items(inner)) == e0.add(slot_items(slots)));
        assert forall|x: Seq<char>| ep.insert(item@).count(x) == e0.count(x) by {
            assert(ep.add(slot_items(inner)).count(x) == e0.add(slot_items(slots)).count(x));
            assert(slot_items(inner).count(x) == slot_items(slots).insert(item@).count(x));
        }
        assert(ep.insert(item@) =~= e0);
        assert(owned_items(post) =~= owned_items(pre));
    }
    true
}

proof fn lemma_ms_update(s: Seq<Seq<char>>, j: int, x: Seq<char>)
    requires
        0 <= j < s.len(),
    ensures
        s.update(j, x).to_multiset().insert(s[j]) =~= s.to_multiset().insert(x),
{
    let u = s.update(j, x);
    assert(u.remove(j) =~= s.remove(j));
    u.to_multiset_ensures();
    s.to_multiset_ensures();
    assert(u.to_multiset() =~= s.remove(j).to_multiset().insert(x));
    assert(s.to_multiset() =~= s.remove(j).to_multiset().insert(s[j]));
}

/// The inventory after equipping: the previous occupant of the slot comes
/// back into the inventory, then the first copy of the new item leaves it.
pub open spec fn inventory_after_equip(inv: Seq<Seq<char>>, prev: Option<Seq<char>>, item: Seq<char>) -> Seq<Seq<char>> {
    let inv1 = match prev {
        Some(o) => inv.push(o),
        None => inv,
    };
    if inv1.contains(item) {
        inv1.remove(first_index(inv1, item))
    } else {
        inv1
    }
}

/// Puts `item_id` into `slot` of `unit_id`. Whatever the slot held goes back
/// to the inventory, and the first copy of the item is taken out of it. When
/// the item came from the inventory (or was already in that slot) the party
/// owns exactly what it owned before.
pub fn equip_in_slot(party: &mut Party, unit_id: &str, slot: &str, item_id: &str)
    requires
        old(party).wf(),
    ensures
        final(party).wf(),
        string_seq(final(party).inventory@) == inventory_after_equip(
            string_seq(old(party).inventory@),
            slot_item(old(party).equipment@, unit_id@, slot@),
            item_id@,
        ),
        final(party).equipment@.dom() == old(party).equipment@.dom().insert(unit_id@),
        final(party).equipment@[unit_id@]@.dom() == (if old(party).equipment@.contains_key(unit_id@) {
            old(party).equipment@[unit_id@]@.dom()
        } else {
            Set::empty()
        }).insert(slot@),
        final(party).equipment@[unit_id@]@[slot@]@ == item_id@,
        forall|sl: Seq<char>| sl != slot@ && #[trigger] final(party).equipment@[unit_id@]@.contains_key(sl)
            ==> final(party).equipment@[unit_id@]@[sl] == old(party).equipment@[unit_id@]@[sl],
        forall|u: Seq<char>| u != unit_id@ && #[trigger] old(party).equipment@.contains_key(u)
            ==> final(party).equipment@[u] == old(party).equipment@[u],
        final(party).active == old(party).active,
        final(party).bench == old(party).bench,
        final(party).gold == old(party).gold,
        final(party).unit_levels == old(party).unit_levels,
        final(party).unit_hp_pp == old(party).unit_hp_pp,
        final(party).djinn_assignments == old(party).djinn_assignments,
        final(party).story_flags == old(party).story_flags,
        final(party).difficulty == old(party).difficulty,
        ({
            let prev = slot_item(old(party).equipment@, unit_id@, slot@);
            string_seq(old(party).inventory@).contains(item_id@) || prev == Some(item_id@)
        }) ==> owned_items(*final(party)) == owned_items(*old(party)),
{
    let ghost pre = *party;
    let mut prev: Option<String> = None;
    match party.equipment.find(unit_id) {
        Some(i) => {
            proof {
                assert(party.equipment.value(i as int).wf());
            }
            match party.equipment.value_at(i).get(slot) {
                Some(v) => {
                    prev = Some(v.clone());
                },
                None => {},
            }
        },
        None => {},
    }
    assert(prev matches Some(o) ==> slot_item(pre.equipment@, unit_id@, slot@) == Some(o@));
    assert(prev is None ==> slot_item(pre.equipment@, unit_id@, slot@) is None);
    let ghost inv0 = string_seq(party.inventory@);
    let ghost pv = slot_item(pre.equipment@, unit_id@, slot@);
    match prev {
        Some(o) => {
            party.inventory.push(o);
        },
        None => {},
    }
    let ghost inv1 = string_seq(party.inventory@);
    let ghost inv1_strings = party.inventory@;
    proof {
        assert(pv matches Some(o) ==> inv1 =~= inv0.push(o));
        assert(pv is None ==> inv1 =~= inv0);
    }
    match position_of(&party.inventory, item_id) {
        Some(pos) => {
            proof {
                assert(is_first_index(inv1, item_id@, pos as int));
                assert forall|p: int| is_first_index(inv1, item_id@, p) implies p == pos by {
                    if p < pos {
                        assert(inv1_strings[p]@ != item_id@);
                    } else if p > pos {
                        assert(inv1[pos as int] == item_id@);
                    }
                }
                assert(inv1.contains(item_id@));
            }
            party.inventory.remove(pos);
            proof {
                assert(string_seq(party.inventory@) =~= inv1.remove(pos as int));
            }
        },
        None => {
            proof {
                if inv1.contains(item_id@) {
                    let k = choose|k: int| 0 <= k < inv1.len() && inv1[k] == item_id@;
                    assert(inv1_strings[k]@ == item_id@);
                }
            }
        },
    }
    let ghost inv2 = string_seq(party.inventory@);
    proof {
        inv1.to_multiset_ensures();
        inv0.to_multiset_ensures();
        if inv1.contains(item_id@) {
            assert(inv2.to_multiset().insert(item_id@) =~= inv1.to_multiset()) by {
                let p = first_index(inv1, item_id@);
                assert(inv1[p] == item_id@);
            }
        }
    }
    match party.equipment.find(unit_id) {
        Some(i) => {
            let ghost inner = pre.equipment.value(i as int);
            proof {
                assert(inner.wf());
                pre.equipment.lemma_view_at(i as int);
            }
            let mut slots = party.equipment.replace_value_at(i, StrMap::new());
            let ghost mid = party.equipment;
            proof {
                assert(mid.keys()[i as int] == pre.equipment.keys()[i as int]);
            }
            slots.insert(slot, item_id.to_owned());
            party.equipment.set_value_at(i, slots);
            proof {
                let post = *party;
                assert forall|k: int| 0 <= k < post.equipment.size() implies (#[trigger] post.equipment.value(k)).wf() by {
                    assert(post.equipment.values()[k] == post.equipment.value(k));
                    if k != i {
                        assert(post.equipment.values()[k] == pre.equipment.values()[k]);
                        assert(pre.equipment.values()[k] == pre.equipment.value(k));
                    }
                }
                assert(post.equipment@.dom() =~= pre.equipment@.dom().insert(unit_id@));
                assert(post.equipment@[unit_id@]@.dom() =~= inner@.dom().insert(slot@));
                let sv = slot_sets(pre.equipment);
                assert(slot_sets(post.equipment) =~= sv.update(i as int, slot_items(slots))) by {
                    assert forall|k: int| 0 <= k < sv.len() implies slot_sets(post.equipment)[k] == sv.update(i as int, slot_items(slots))[k] by {
                        assert(post.equipment.values()[k] == post.equipment.value(k));
                        assert(pre.equipment.values()[k] == pre.equipment.value(k));
                    }
                }
                lemma_sum_update(sv, i as int, slot_items(slots));
                assert(sv[i as int] == slot_items(inner));
                let ep = equipped_items(post.equipment);
                let e0 = equipped_items(pre.equipment);
                assert(ep == sum_ms(sv.update(i as int, slot_items(slots))));
                if inv0.contains(item_id@) || pv == Some(item_id@) {
                    assert(inv1.contains(item_id@)) by {
                        if inv0.contains(item_id@) {
                            let k = choose|k: int| 0 <= k < inv0.len() && inv0[k] == item_id@;
                            assert(inv1[k] == item_id@);
                        } else {
                            assert(inv1[inv0.len() as int] == item_id@);
                        }
                    }
                    if inner@.contains_key(slot@) {
                        let j = inner.index_of(slot@);
                        inner.lemma_view_at(j);
                        let o = inner.value(j)@;
                        assert(pv == Some(o));
                        assert(string_seq(slots.values()) =~= string_seq(inner.values()).update(j, item_id@));
                        lemma_ms_update(string_seq(inner.values()), j, item_id@);
                        assert(string_seq(inner.values())[j] == o);
                        assert(inv1 =~= inv0.push(o));
                        assert forall|x: Seq<char>| owned_items(post).count(x) == owned_items(pre).count(x) by {
                            assert(ep.add(slot_items(inner)).count(x) == e0.add(slot_items(slots)).count(x));
                            assert(slot_items(slots).insert(o).count(x) == slot_items(inner).insert(item_id@).count(x));
                            assert(inv2.to_multiset().insert(item_id@).count(x) == inv1.to_multiset().count(x));
                            assert(inv1.to_multiset().count(x) == inv0.to_multiset().insert(o).count(x));
                        }
                    } else {
                        assert(pv is None);
                        assert(string_seq(slots.values()) =~= string_seq(inner.values()).push(item_id@));
                        string_seq(inner.values()).to_multiset_ensures();
                        assert forall|x: Seq<char>| owned_items(post).count(x) == owned_items(pre).count(x) by {
                            assert(ep.add(slot_items(inner)).count(x) == e0.add(slot_items(slots)).count(x));
                            assert(slot_items(slots).count(x) == slot_items(inner).insert(item_id@).count(x));
                            assert(inv2.to_multiset().insert(item_id@).count(x) == inv1.to_multiset().count(x));
                        }
                    }
                    assert(owned_items(post) =~= owned_items(pre));
                }
            }
        },
        None => {
            let mut slots: StrMap<String> = StrMap::new();
            slots.insert(slot, item_id.to_owned());
            let ghost new_slots = slots;
            party.equipment.insert(unit_id, slots);
            proof {
                let post = *party;
                let n = pre.equipment.size() as int;
                assert forall|k: int| 0 <= k < post.equipment.size() implies (#[trigger] post.equipment.value(k)).wf() by {
                    assert(post.equipment.values()[k] == post.equipment.value(k));
                    if k < n {
                        assert(pre.equipment.values()[k] == pre.equipment.value(k));
                    }
                }
                assert(post.equipment@.dom() =~= pre.equipment@.dom().insert(unit_id@));
                assert(new_slots@.dom() =~= Set::<Seq<char>>::empty().insert(slot@));
                let sv = slot_sets(pre.equipment);
                assert(slot_sets(post.equipment) =~= sv.push(slot_items(new_slots))) by {
                    assert forall|k: int| 0 <= k < sv.len() + 1 implies slot_sets(post.equipment)[k] == sv.push(slot_items(new_slots))[k] by {
                        assert(post.equipment.values()[k] == post.equipment.value(k));
                        if k < n {
                            assert(pre.equipment.values()[k] == pre.equipment.value(k));
                        }
                    }
                }
                lemma_sum_push(sv, slot_items(new_slots));
                assert(string_seq(new_slots.values()) =~= seq![item_id@]);
                seq![item_id@].to_multiset_ensures();
                Seq::<Seq<char>>::empty().to_multiset_ensures();
                assert(seq![item_id@] =~= Seq::<Seq<char>>::empty().push(item_id@));
                if inv0.contains(item_id@) || pv == Some(item_id@) {
                    assert(pv is None);
                    assert(inv1.contains(item_id@));
                    assert forall|x: Seq<char>| owned_items(post).count(x) == owned_items(pre).count(x) by {
                        assert(inv2.to_multiset().insert(item_id@).count(x) == inv1.to_multiset().count(x));
                    }
                    assert(owned_items(post) =~= owned_items(pre));
                }
            }
        },
    }
}

/// Unit `i` of the equipment map wears `id` in some slot.
pub open spec fn wears(eq: StrMap<StrMap<String>>, i: int, id: Seq<char>) -> bool {
    exists|j: int| 0 <= j < eq.value(i).size() && (#[trigger] eq.value(i).value(j))@ == id
}

/// `i` is the first unit, in entry order, that wears `id`.
pub open spec fn is_first_wearer(eq: StrMap<StrMap<String>>, id: Seq<char>, i: int) -> bool {
    &&& 0 <= i < eq.size()
    &&& wears(eq, i, id)
    &&& forall|k: int| 0 <= k < i ==> !wears(eq, k, id)
}

/// `j` is the first slot, in entry order, holding `id`.
pub open spec fn is_first_slot(m: StrMap<String>, id: Seq<char>, j: int) -> bool {
    &&& 0 <= j < m.size()
    &&& m.value(j)@ == id
    &&& forall|k: int| 0 <= k < j ==> m.value(k)@ != id
}

/// Position of the first slot holding `id`.
pub fn find_slot_of(slots: &StrMap<String>, id: &str) -> (r: Option<usize>)
    ensures
        match r {
            Some(j) => is_first_slot(*slots, id@, j as int),
            None => forall|k: int| 0 <= k < slots.size() ==> slots.value(k)@ != id@,
        },
{
    let key = id.to_owned();
    let mut j: usize = 0;
    while j < slots.len()
        invariant
            j <= slots.size(),
            key@ == id@,
            forall|k: int| 0 <= k < j ==> slots.value(k)@ != id@,
        decreases slots.size() - j,
    {
        if *slots.value_at(j) == key {
            return Some(j);
        }
        j = j + 1;
    }
    None
}

/// Position of the first unit wearing `id`.
pub fn find_wearer(equipment: &StrMap<StrMap<String>>, id: &str) -> (r: Option<usize>)
    ensures
        match r {
            Some(i) => is_first_wearer(*equipment, id@, i as int),
            None => forall|k: int| 0 <= k < equipment.size() ==> !wears(*equipment, k, id@),
        },
{
    let mut i: usize = 0;
    while i < equipment.len()
        invariant
            i <= equipment.size(),
            forall|k: int| 0 <= k < i ==> !wears(*equipment, k, id@),
        decreases equipment.size() - i,
    {
        match find_slot_of(equipment.value_at(i), id) {
            Some(j) => {
                return Some(i);
            },
            None => {
                assert(!wears(*equipment, i as int, id@));
            },
        }
        i = i + 1;
    }
    None
}

/// The unit that has `equipment_id` equipped: the first one, in entry
/// order, that wears it in some slot.
pub fn find_equipped_unit(equipment_id: &str, party: &Party) -> (r: Option<String>)
    ensures
        match r {
            Some(u) => exists|i: int| is_first_wearer(party.equipment, equipment_id@, i) && #[trigger] party.equipment.key(i) == u@,
            None => forall|k: int| 0 <= k < party.equipment.size() ==> !wears(party.equipment, k, equipment_id@),
        },
{
    match find_wearer(&party.equipment, equipment_id) {
        Some(i) => Some(party.equipment.key_at(i).clone()),
        None => None,
    }
}

/// The party list: active members first, then the bench, with the number
/// of active members.
pub fn build_party_member_list(party: &Party) -> (r: (Vec<String>, usize))
    ensures
        r.0@ == party.active@ + party.bench@,
        r.1 == party.active@.len(),
{
    let mut members: Vec<String> = Vec::new();
    let mut i: usize = 0;
    while i < party.active.len()
        invariant
            i <= party.active@.len(),
            members@ == party.active@.take(i as int),
        decreases party.active@.len() - i,
    {
        members.push(party.active[i].clone());
        i = i + 1;
        assert(members@ =~= party.active@.take(i as int));
    }
    let active_count = members.len();
    let mut k: usize = 0;
    while k < party.bench.len()
        invariant
            k <= party.bench@.len(),
            members@ == party.active@ + party.bench@.take(k as int),
        decreases party.bench@.len() - k,
    {
        members.push(party.bench[k].clone());
        k = k + 1;
        assert(members@ =~= party.active@ + party.bench@.take(k as int));
    }
    assert(party.active@.take(party.active@.len() as int) =~= party.active@);
    assert(party.bench@.take(k as int) =~= party.bench@);
    (members, active_count)
}

/// A unit's display name, or its ID when it has no definition.
pub open spec fn unit_label_spec(data: GameData, id: Seq<char>) -> Seq<char> {
    if data.units@.contains_key(id) {
        data.units@[id].name@
    } else {
        id
    }
}

/// A unit's display name in the party list, or "???" when unknown.
pub open spec fn member_label_spec(data: GameData, id: Seq<char>) -> Seq<char> {
    if data.units@.contains_key(id) {
        data.units@[id].name@
    } else {
        "???"@
    }
}

/// A piece of equipment's display name, or its ID when undefined.
pub open spec fn equipment_label_spec(data: GameData, id: Seq<char>) -> Seq<char> {
    if data.equipment@.contains_key(id) {
        data.equipment@[id].name@
    } else {
        id
    }
}

pub fn unit_label(data: &GameData, id: &str) -> (s: String)
    requires
        data.wf(),
    ensures
        s@ == unit_label_spec(*data, id@),
{
    match data.units.get(id) {
        Some(u) => u.name.clone(),
        None => id.to_owned(),
    }
}

pub fn member_label(data: &GameData, id: &str) -> (s: String)
    requires
        data.wf(),
    ensures
        s@ == member_label_spec(*data, id@),
{
    match data.units.get(id) {
        Some(u) => u.name.clone(),
        None => "???".to_owned(),
    }
}

pub fn equipment_label(data: &GameData, id: &str) -> (s: String)
    requires
        data.wf(),
    ensures
        s@ == equipment_label_spec(*data, id@),
{
    match data.equipment.get(id) {
        Some(e) => e.name.clone(),
        None => id.to_owned(),
    }
}

#[derive(Clone, Copy, Debug, PartialEq, Eq, Structural)]
pub struct InventoryCursor {
    pub selected: usize,
    pub count: usize,
}

#[derive(Clone, Copy, Debug, PartialEq, Eq, Structural)]
pub enum InventoryMode {
    Browse,
    EquipSelectUnit,
}

/// Which top-level tab the inventory screen shows.
#[derive(Clone, Copy, Debug, PartialEq, Eq, Structural)]
pub enum InventoryTab {
    Items,
    Party,
}

/// Sorted, deduplicated item IDs for stable cursor indexing.
pub struct InventoryItemList {
    pub ids: Vec<String>,
}

pub struct InventoryState {
    pub cursor: InventoryCursor,
    pub mode: InventoryMode,
    pub unit_cursor: usize,
    pub status_message: String,
    pub tab: InventoryTab,
    /// Position in the combined active + bench list.
    pub party_cursor: usize,
    /// Number of members in the combined list.
    pub party_count: usize,
    /// First member picked for a swap, if a swap is under way.
    pub party_first_selected: Option<usize>,
}

/// Keys pressed on this frame.
#[derive(Clone, Copy, Debug, PartialEq, Eq, Structural)]
pub struct InventoryKeys {
    pub up: bool,
    pub down: bool,
    pub enter: bool,
    pub unequip: bool,
    pub tab: bool,
    pub escape: bool,
}

/// What a frame of input asks of the screen around it.
#[derive(Clone, Copy, Debug, PartialEq, Eq, Structural)]
pub struct InputOutcome {
    pub next_state: Option<GameState>,
    pub rebuild: bool,
}

/// The state the screen opens with.
pub fn initial_inventory_state(party: &Party, item_count: usize) -> (s: InventoryState)
    requires
        party.active@.len() + party.bench@.len() <= usize::MAX,
    ensures
        s.cursor == (InventoryCursor { selected: 0, count: item_count }),
        s.mode == InventoryMode::Browse,
        s.unit_cursor == 0,
        s.status_message@ == Seq::<char>::empty(),
        s.tab == InventoryTab::Items,
        s.party_cursor == 0,
        s.party_count == party.active@.len() + party.bench@.len(),
        s.party_first_selected is None,
{
    InventoryState {
        cursor: InventoryCursor { selected: 0, count: item_count },
        mode: InventoryMode::Browse,
        unit_cursor: 0,
        status_message: String::new(),
        tab: InventoryTab::Items,
        party_cursor: 0,
        party_count: party.active.len() + party.bench.len(),
        party_first_selected: None,
    }
}

/// The state after the screen is rebuilt for a changed party: cursors keep
/// their place, pulled back to the last line when the list shrank.
pub fn rebuilt_inventory_state(old: &InventoryState, party: &Party, item_count: usize) -> (s: InventoryState)
    requires
        party.active@.len() + party.bench@.len() <= usize::MAX,
    ensures
        s.cursor.count == item_count,
        s.cursor.selected == (if item_count == 0 { 0 } else if old.cursor.selected < item_count { old.cursor.selected as int } else { item_count - 1 }),
        s.mode == old.mode,
        s.unit_cursor == old.unit_cursor,
        s.status_message == old.status_message,
        s.tab == old.tab,
        s.party_count == party.active@.len() + party.bench@.len(),
        s.party_cursor == (if s.party_count == 0 { 0 } else if old.party_cursor < s.party_count { old.party_cursor as int } else { s.party_count - 1 }),
        s.party_first_selected == old.party_first_selected,
{
    let selected = if item_count == 0 {
        0
    } else if old.cursor.selected < item_count {
        old.cursor.selected
    } else {
        item_count - 1
    };
    let party_count = party.active.len() + party.bench.len();
    let party_cursor = if party_count == 0 {
        0
    } else if old.party_cursor < party_count {
        old.party_cursor
    } else {
        party_count - 1
    };
    InventoryState {
        cursor: InventoryCursor { selected, count: item_count },
        mode: old.mode,
        unit_cursor: old.unit_cursor,
        status_message: old.status_message.clone(),
        tab: old.tab,
        party_cursor,
        party_count,
        party_first_selected: old.party_first_selected,
    }
}

/// Browse mode, up or down: moves the item cursor (wrapping) and clears
/// the status line, when there are items.
pub fn browse_navigate(state: &mut InventoryState, up: bool, down: bool)
    ensures
        old(state).cursor.count > 0 && (up || down) ==> final(state).status_message@ == Seq::<char>::empty()
            && final(state).cursor.selected == nav_cursor(old(state).cursor.selected as int, old(state).cursor.count as int, up, down),
        !(old(state).cursor.count > 0 && (up || down)) ==> final(state).status_message == old(state).status_message
            && final(state).cursor == old(state).cursor,
        final(state).cursor.count == old(state).cursor.count,
        final(state).mode == old(state).mode,
        final(state).unit_cursor == old(state).unit_cursor,
        final(state).tab == old(state).tab,
        final(state).party_cursor == old(state).party_cursor,
        final(state).party_count == old(state).party_count,
        final(state).party_first_selected == old(state).party_first_selected,
{
    if state.cursor.count > 0 && (up || down) {
        state.status_message = String::new();
        state.cursor.selected = navigate(state.cursor.selected, state.cursor.count, up, down);
    }
}

/// Browse mode, Enter on an item: equipment opens the choice of unit to
/// wear it (if there is an active member); anything else is refused.
pub fn browse_enter(state: &mut InventoryState, party: &Party, data: &GameData, item_list: &InventoryItemList)
    requires
        data.wf(),
        old(state).cursor.count > 0,
    ensures
        final(state).cursor == old(state).cursor,
        final(state).tab == old(state).tab,
        final(state).party_cursor == old(state).party_cursor,
        final(state).party_count == old(state).party_count,
        final(state).party_first_selected == old(state).party_first_selected,
        ({
            let sel = old(state).cursor.selected as int;
            if sel < item_list.ids@.len() {
                let item = item_list.ids@[sel]@;
                if data.equipment@.contains_key(item) {
                    if party.active@.len() == 0 {
                        &&& final(state).status_message@ == "No party members to equip."@
                        &&& final(state).mode == old(state).mode
                        &&& final(state).unit_cursor == old(state).unit_cursor
                    } else {
                        &&& final(state).mode == InventoryMode::EquipSelectUnit
                        &&& final(state).unit_cursor == 0
                        &&& final(state).status_message@ == Seq::<char>::empty()
                    }
                } else {
                    &&& final(state).status_message@ == "Not an equippable item."@
                    &&& final(state).mode == old(state).mode
                    &&& final(state).unit_cursor == old(state).unit_cursor
                }
            } else {
                &&& final(state).status_message == old(state).status_message
                &&& final(state).mode == old(state).mode
                &&& final(state).unit_cursor == old(state).unit_cursor
            }
        }),
{
    let selected = state.cursor.selected;
    if selected < item_list.ids.len() {
        let item_id = &item_list.ids[selected];
        if data.equipment.contains_key(item_id.as_str()) {
            if party.active.len() == 0 {
                state.status_message = "No party members to equip.".to_owned();
            } else {
                state.mode = InventoryMode::EquipSelectUnit;
                state.unit_cursor = 0;
                state.status_message = String::new();
            }
        } else {
            state.status_message = "Not an equippable item.".to_owned();
        }
    }
}

/// The unequip message.
pub open spec fn unequipped_message(data: GameData, item: Seq<char>, unit: Seq<char>) -> Seq<char> {
    "Unequipped "@ + equipment_label_spec(data, item) + " from "@ + unit_label_spec(data, unit) + "."@
}

/// Browse mode, U on an item: takes it off the first unit wearing it (its
/// first slot holding it) and returns it to the inventory. Returns whether
/// the screen needs rebuilding.
pub fn browse_unequip(state: &mut InventoryState, party: &mut Party, data: &GameData, item_list: &InventoryItemList) -> (rebuild: bool)
    requires
        data.wf(),
        old(party).wf(),
        old(state).cursor.count > 0,
    ensures
        final(party).wf(),
        owned_items(*final(party)) == owned_items(*old(party)),
        keeps_records(*old(party), *final(party)),
        final(party).active == old(party).active,
        final(party).bench == old(party).bench,
        final(party).gold == old(party).gold,
        final(state).cursor == old(state).cursor,
        final(state).mode == old(state).mode,
        final(state).unit_cursor == old(state).unit_cursor,
        final(state).tab == old(state).tab,
        final(state).party_cursor == old(state).party_cursor,
        final(state).party_count == old(state).party_count,
        final(state).party_first_selected == old(state).party_first_selected,
        ({
            let sel = old(state).cursor.selected as int;
            let eq = old(party).equipment;
            if sel < item_list.ids@.len() {
                let item = item_list.ids@[sel]@;
                if data.equipment@.contains_key(item) {
                    if exists|i: int| is_first_wearer(eq, item, i) {
                        let i = choose|i: int| is_first_wearer(eq, item, i);
                        let j = choose|j: int| is_first_slot(eq.value(i), item, j);
                        let unit = eq.key(i);
                        let slot = eq.value(i).key(j);
                        &&& rebuild
                        &&& final(state).status_message@ == unequipped_message(*data, item, unit)
                        &&& string_seq(final(party).inventory@) == string_seq(old(party).inventory@).push(item)
                        &&& final(party).equipment@.dom() == eq@.dom()
                        &&& final(party).equipment@[unit]@ == eq@[unit]@.remove(slot)
                        &&& forall|u: Seq<char>| u != unit && #[trigger] eq@.contains_key(u)
                            ==> final(party).equipment@[u] == eq@[u]
                    } else {
                        &&& !rebuild
                        &&& final(state).status_message@ == "Item is not currently equipped."@
                        &&& *final(party) == *old(party)
                    }
                } else {
                    &&& !rebuild
                    &&& final(state).status_message@ == "Not an equippable item."@
                    &&& *final(party) == *old(party)
                }
            } else {
                &&& !rebuild
                &&& final(state).status_message == old(state).status_message
                &&& *final(party) == *old(party)
            }
        }),
{
    let selected = state.cursor.selected;
    if selected >= item_list.ids.len() {
        return false;
    }
    let item_id = item_list.ids[selected].clone();
    if !data.equipment.contains_key(item_id.as_str()) {
        state.status_message = "Not an equippable item.".to_owned();
        return false;
    }
    let ghost eq = party.equipment;
    match find_wearer(&party.equipment, item_id.as_str()) {
        Some(i) => {
            proof {
                assert(eq.value(i as int).wf());
            }
            match find_slot_of(party.equipment.value_at(i), item_id.as_str()) {
                Some(j) => {
                    let unit_id = party.equipment.key_at(i).clone();
                    let slot = party.equipment.value_at(i).key_at(j).clone();
                    proof {
                        assert forall|i2: int| is_first_wearer(eq, item_id@, i2) implies i2 == i by {
                            if i2 < i {
                                assert(!wears(eq, i2, item_id@));
                            } else if i2 > i {
                                assert(!wears(eq, i as int, item_id@));
                            }
                        }
                        let inner = eq.value(i as int);
                        assert forall|j2: int| is_first_slot(inner, item_id@, j2) implies j2 == j by {
                            if j2 < j {
                                assert(inner.value(j2)@ != item_id@);
                            } else if j2 > j {
                                assert(inner.value(j as int)@ != item_id@);
                            }
                        }
                        eq.lemma_view_at(i as int);
                        inner.lemma_view_at(j as int);
                        assert(slot_item(eq@, unit_id@, slot@) == Some(item_id@));
                    }
                    let removed = unequip_slot(party, unit_id.as_str(), slot.as_str());
                    let eq_name = equipment_label(data, item_id.as_str());
                    let unit_name = unit_label(data, unit_id.as_str());
                    let mut msg = concat2("Unequipped ", eq_name.as_str());
                    msg.append(" from ");
                    msg.append(unit_name.as_str());
                    msg.append(".");
                    state.status_message = msg;
                    true
                },
                None => {
                    proof {
                        let inner = eq.value(i as int);
                        let jj = choose|jj: int| 0 <= jj < inner.size() && (#[trigger] inner.value(jj))@ == item_id@;
                        assert(inner.value(jj)@ != item_id@);
                    }
                    false
                },
            }
        },
        None => {
            state.status_message = "Item is not currently equipped.".to_owned();
            false
        },
    }
}

/// Items tab, Tab: switches to the Party tab, cancels any swap and keeps the
/// party cursor within the list.
pub fn browse_tab(state: &mut InventoryState, party: &Party)
    requires
        party.active@.len() + party.bench@.len() <= usize::MAX,
    ensures
        final(state).tab == InventoryTab::Party,
        final(state).status_message@ == Seq::<char>::empty(),
        final(state).party_first_selected is None,
        final(state).party_count == party.active@.len() + party.bench@.len(),
        final(state).party_cursor == (if old(state).party_cursor >= final(state).party_count { 0 } else { old(state).party_cursor as int }),
        final(state).cursor == old(state).cursor,
        final(state).mode == old(state).mode,
        final(state).unit_cursor == old(state).unit_cursor,
{
    state.tab = InventoryTab::Party;
    state.status_message = String::new();
    state.party_first_selected = None;
    let party_count = party.active.len() + party.bench.len();
    state.party_count = party_count;
    if state.party_cursor >= party_count {
        state.party_cursor = 0;
    }
}

/// Element compatibility: an empty list allows every element.
pub open spec fn element_allowed(allowed: Seq<Element>, e: Element) -> bool {
    allowed.len() == 0 || allowed.contains(e)
}

fn contains_element(v: &Vec<Element>, e: Element) -> (b: bool)
    ensures
        b == v@.contains(e),
{
    let mut i: usize = 0;
    while i < v.len()
        invariant
            i <= v@.len(),
            forall|k: int| 0 <= k < i ==> v@[k] != e,
        decreases v@.len() - i,
    {
        if v[i] == e {
            return true;
        }
        i = i + 1;
    }
    false
}

/// A unit's element, Neutral when it has no definition.
pub open spec fn unit_element_spec(data: GameData, id: Seq<char>) -> Element {
    if data.units@.contains_key(id) {
        data.units@[id].element
    } else {
        Element::Neutral
    }
}

/// Choosing a unit, Enter: equips the selected item on the unit under the
/// unit cursor when the unit's element allows it, then returns to browsing.
/// Returns whether the screen needs rebuilding.
pub fn select_unit_enter(state: &mut InventoryState, party: &mut Party, data: &GameData, item_list: &InventoryItemList) -> (rebuild: bool)
    requires
        data.wf(),
        old(party).wf(),
    ensures
        final(party).wf(),
        keeps_records(*old(party), *final(party)),
        final(party).active == old(party).active,
        final(party).bench == old(party).bench,
        final(party).gold == old(party).gold,
        final(state).cursor == old(state).cursor,
        final(state).unit_cursor == old(state).unit_cursor,
        final(state).tab == old(state).tab,
        final(state).party_cursor == old(state).party_cursor,
        final(state).party_count == old(state).party_count,
        final(state).party_first_selected == old(state).party_first_selected,
        ({
            let sel = old(state).cursor.selected as int;
            let uc = old(state).unit_cursor as int;
            if sel < item_list.ids@.len() && data.equipment@.contains_key(item_list.ids@[sel]@) && uc < old(party).active@.len() {
                let item = item_list.ids@[sel]@;
                let def = data.equipment@[item];
                let unit = old(party).active@[uc]@;
                if !element_allowed(def.allowed_elements@, unit_element_spec(*data, unit)) {
                    &&& !rebuild
                    &&& *final(party) == *old(party)
                    &&& final(state).mode == old(state).mode
                    &&& final(state).status_message@ == unit_label_spec(*data, unit) + " cannot equip "@ + def.name@ + " (element incompatible)."@
                } else {
                    let slot = slot_name_spec(def.slot);
                    &&& rebuild
                    &&& final(state).mode == InventoryMode::Browse
                    &&& final(state).status_message@ == "Equipped "@ + def.name@ + " on "@ + unit_label_spec(*data, unit) + "."@
                    &&& string_seq(final(party).inventory@) == inventory_after_equip(string_seq(old(party).inventory@), slot_item(old(party).equipment@, unit, slot), item)
                    &&& final(party).equipment@.dom() == old(party).equipment@.dom().insert(unit)
                    &&& final(party).equipment@[unit]@[slot]@ == item
                    &&& forall|sl: Seq<char>| sl != slot && #[trigger] final(party).equipment@[unit]@.contains_key(sl)
                        ==> final(party).equipment@[unit]@[sl] == old(party).equipment@[unit]@[sl]
                    &&& forall|u: Seq<char>| u != unit && #[trigger] old(party).equipment@.contains_key(u)
                        ==> final(party).equipment@[u] == old(party).equipment@[u]
                    &&& (string_seq(old(party).inventory@).contains(item) || slot_item(old(party).equipment@, unit, slot) == Some(item))
                        ==> owned_items(*final(party)) == owned_items(*old(party))
                }
            } else {
                &&& !rebuild
                &&& *final(party) == *old(party)
                &&& final(state).mode == old(state).mode
                &&& final(state).status_message == old(state).status_message
            }
        }),
{
    let sel = state.cursor.selected;
    let uc = state.unit_cursor;
    if sel >= item_list.ids.len() || uc >= party.active.len() {
        return false;
    }
    let item_id = item_list.ids[sel].clone();
    let def = match data.equipment.get(item_id.as_str()) {
        Some(d) => d,
        None => {
            return false;
        },
    };
    let unit_id = party.active[uc].clone();
    let element = match data.units.get(unit_id.as_str()) {
        Some(u) => u.element,
        None => Element::Neutral,
    };
    if def.allowed_elements.len() > 0 && !contains_element(&def.allowed_elements, element) {
        let mut msg = unit_label(data, unit_id.as_str());
        msg.append(" cannot equip ");
        msg.append(def.name.as_str());
        msg.append(" (element incompatible).");
        state.status_message = msg;
        return false;
    }
    let slot = slot_name(def.slot);
    equip_in_slot(party, unit_id.as_str(), slot.as_str(), item_id.as_str());
    let mut msg = concat2("Equipped ", def.name.as_str());
    msg.append(" on ");
    let unit_name = unit_label(data, unit_id.as_str());
    msg.append(unit_name.as_str());
    msg.append(".");
    state.status_message = msg;
    state.mode = InventoryMode::Browse;
    true
}

/// Choosing a unit, up or down: moves the unit cursor over the active
/// members, wrapping around.
pub fn select_unit_navigate(state: &mut InventoryState, active_count: usize, up: bool, down: bool)
    ensures
        final(state).unit_cursor == nav_cursor(old(state).unit_cursor as int, active_count as int, up, down),
        final(state).cursor == old(state).cursor,
        final(state).mode == old(state).mode,
        final(state).status_message == old(state).status_message,
        final(state).tab == old(state).tab,
        final(state).party_cursor == old(state).party_cursor,
        final(state).party_count == old(state).party_count,
        final(state).party_first_selected == old(state).party_first_selected,
{
    state.unit_cursor = navigate(state.unit_cursor, active_count, up, down);
}

/// `after` keeps everything of `before` but its items and equipment: the
/// line-up, gold, levels, points, djinn, story flags and difficulty.
pub open spec fn keeps_records(before: Party, after: Party) -> bool {
    &&& after.active == before.active
    &&& after.bench == before.bench
    &&& after.gold == before.gold
    &&& after.unit_levels == before.unit_levels
    &&& after.unit_hp_pp == before.unit_hp_pp
    &&& after.djinn_assignments == before.djinn_assignments
    &&& after.story_flags == before.story_flags
    &&& after.difficulty == before.difficulty
}

/// The item under the list cursor at `sel`, if the cursor is on the list.
pub open spec fn item_at(list: InventoryItemList, sel: int) -> Option<Seq<char>> {
    if 0 <= sel < list.ids@.len() {
        Some(list.ids@[sel]@)
    } else {
        None
    }
}

/// Browse mode, up or down: the item cursor moves, wrapping around, when
/// there are items.
pub open spec fn browsed_cursor(c: InventoryCursor, up: bool, down: bool) -> InventoryCursor {
    if c.count > 0 && (up || down) {
        InventoryCursor { selected: nav_cursor(c.selected as int, c.count as int, up, down) as usize, count: c.count }
    } else {
        c
    }
}

/// The status line after Enter on `item` in browse mode.
pub open spec fn enter_message(p: Party, data: GameData, item: Seq<char>) -> Seq<char> {
    if !data.equipment@.contains_key(item) {
        "Not an equippable item."@
    } else if p.active@.len() == 0 {
        "No party members to equip."@
    } else {
        Seq::empty()
    }
}

/// Some unit wears `item`.
pub open spec fn is_worn(eq: StrMap<StrMap<String>>, item: Seq<char>) -> bool {
    exists|i: int| is_first_wearer(eq, item, i)
}

/// The unit and the slot that U takes `item` from: the first slot holding it
/// on the first unit wearing it.
pub open spec fn unequip_target(eq: StrMap<StrMap<String>>, item: Seq<char>) -> (Seq<char>, Seq<char>) {
    let i = choose|i: int| is_first_wearer(eq, item, i);
    let j = choose|j: int| is_first_slot(eq.value(i), item, j);
    (eq.key(i), eq.value(i).key(j))
}

/// The status line after U on `item` in browse mode.
pub open spec fn unequip_message_for(p: Party, data: GameData, item: Seq<char>) -> Seq<char> {
    if !data.equipment@.contains_key(item) {
        "Not an equippable item."@
    } else if is_worn(p.equipment, item) {
        unequipped_message(data, item, unequip_target(p.equipment, item).0)
    } else {
        "Item is not currently equipped."@
    }
}

/// `after` is `before` with `item` taken off its first wearer and returned
/// to the inventory; everything else of the party stays.
pub open spec fn unequipped_from(before: Party, after: Party, item: Seq<char>) -> bool {
    let eq = before.equipment;
    let unit = unequip_target(eq, item).0;
    let slot = unequip_target(eq, item).1;
    &&& string_seq(after.inventory@) == string_seq(before.inventory@).push(item)
    &&& after.equipment@.dom() == eq@.dom()
    &&& after.equipment@[unit]@ == eq@[unit]@.remove(slot)
    &&& forall|u: Seq<char>| u != unit && #[trigger] eq@.contains_key(u) ==> after.equipment@[u] == eq@[u]
    &&& keeps_records(before, after)
}

/// The element of `unit` lets it wear `item`.
pub open spec fn can_equip(data: GameData, item: Seq<char>, unit: Seq<char>) -> bool {
    element_allowed(data.equipment@[item].allowed_elements@, unit_element_spec(data, unit))
}

/// Equipment with no element restriction fits a unit of any element; a
/// restricted piece fits exactly the units of an element it lists.
pub proof fn lemma_element_compatibility(data: GameData, item: Seq<char>, unit: Seq<char>)
    ensures
        data.equipment@[item].allowed_elements@.len() == 0 ==> can_equip(data, item, unit),
        data.equipment@[item].allowed_elements@.len() > 0 ==> (can_equip(data, item, unit)
            <==> data.equipment@[item].allowed_elements@.contains(unit_element_spec(data, unit))),
{
}

/// The status line after Enter on `unit` while choosing who wears `item`.
pub open spec fn equip_message(data: GameData, item: Seq<char>, unit: Seq<char>) -> Seq<char> {
    let def = data.equipment@[item];
    if can_equip(data, item, unit) {
        "Equipped "@ + def.name@ + " on "@ + unit_label_spec(data, unit) + "."@
    } else {
        unit_label_spec(data, unit) + " cannot equip "@ + def.name@ + " (element incompatible)."@
    }
}

/// `after` is `before` with `item` put on `unit` in the item's slot; what
/// the slot held goes back to the inventory; everything else of the party
/// stays.
pub open spec fn equipped_on(before: Party, after: Party, data: GameData, item: Seq<char>, unit: Seq<char>) -> bool {
    let slot = slot_name_spec(data.equipment@[item].slot);
    &&& string_seq(after.inventory@) == inventory_after_equip(string_seq(before.inventory@), slot_item(before.equipment@, unit, slot), item)
    &&& after.equipment@.dom() == before.equipment@.dom().insert(unit)
    &&& after.equipment@[unit]@[slot]@ == item
    &&& forall|sl: Seq<char>| sl != slot && #[trigger] after.equipment@[unit]@.contains_key(sl)
        ==> after.equipment@[unit]@[sl] == before.equipment@[unit]@[sl]
    &&& forall|u: Seq<char>| u != unit && #[trigger] before.equipment@.contains_key(u)
        ==> after.equipment@[u] == before.equipment@[u]
    &&& keeps_records(before, after)
}

/// What one frame of input on the Items tab does, from screen state `s0`
/// and party `p0` to `s1` and `p1`, with outcome `out`.
///
/// Browsing: up/down move the cursor (clearing the status line); Enter on
/// equipment opens the choice of unit when there are active members; U takes
/// the item off its first wearer; Tab switches to the Party tab (cancelling
/// a swap, keeping the party cursor in the list) and asks for a rebuild;
/// Escape, without Tab, leaves for the overworld. Each step in that order
/// may rewrite the status line.
///
/// Choosing a unit: up/down move the unit cursor; Enter equips the item on
/// the unit under it when its element allows, and goes back to browsing;
/// Escape goes back to browsing with a clear status line.
pub open spec fn items_input_post(
    k: InventoryKeys,
    s0: InventoryState,
    s1: InventoryState,
    p0: Party,
    p1: Party,
    data: GameData,
    list: InventoryItemList,
    out: InputOutcome,
) -> bool {
    match s0.mode {
        InventoryMode::Browse => {
            let c1 = browsed_cursor(s0.cursor, k.up, k.down);
            let live = s0.cursor.count > 0;
            let item = item_at(list, c1.selected as int);
            let opens = k.enter && live && item is Some && data.equipment@.contains_key(item->0) && p0.active@.len() > 0;
            let takes_off = k.unequip && live && item is Some && data.equipment@.contains_key(item->0)
                && is_worn(p0.equipment, item->0);
            &&& out.next_state == (if !k.tab && k.escape { Some(GameState::Overworld) } else { None })
            &&& out.rebuild == (k.tab || takes_off)
            &&& s1.cursor == c1
            &&& s1.mode == (if opens { InventoryMode::EquipSelectUnit } else { InventoryMode::Browse })
            &&& s1.unit_cursor == (if opens { 0 } else { s0.unit_cursor as int })
            &&& s1.status_message@ == (if k.tab {
                Seq::empty()
            } else if k.unequip && live && item is Some {
                unequip_message_for(p0, data, item->0)
            } else if k.enter && live && item is Some {
                enter_message(p0, data, item->0)
            } else if live && (k.up || k.down) {
                Seq::empty()
            } else {
                s0.status_message@
            })
            &&& k.tab ==> {
                &&& s1.tab == InventoryTab::Party
                &&& s1.party_first_selected is None
                &&& s1.party_count == p0.active@.len() + p0.bench@.len()
                &&& s1.party_cursor == (if s0.party_cursor >= s1.party_count { 0 } else { s0.party_cursor as int })
            }
            &&& !k.tab ==> {
                &&& s1.tab == s0.tab
                &&& s1.party_first_selected == s0.party_first_selected
                &&& s1.party_count == s0.party_count
                &&& s1.party_cursor == s0.party_cursor
            }
            &&& takes_off ==> unequipped_from(p0, p1, item->0)
            &&& !takes_off ==> p1 == p0
        },
        InventoryMode::EquipSelectUnit => {
            let uc = nav_cursor(s0.unit_cursor as int, p0.active@.len() as int, k.up, k.down);
            let item = item_at(list, s0.cursor.selected as int);
            let target = k.enter && item is Some && data.equipment@.contains_key(item->0) && uc < p0.active@.len();
            let unit = p0.active@[uc]@;
            let equips = target && can_equip(data, item->0, unit);
            &&& out.next_state is None
            &&& out.rebuild == equips
            &&& s1.cursor == s0.cursor
            &&& s1.unit_cursor == uc
            &&& s1.tab == s0.tab
            &&& s1.party_first_selected == s0.party_first_selected
            &&& s1.party_count == s0.party_count
            &&& s1.party_cursor == s0.party_cursor
            &&& s1.mode == (if k.escape || equips { InventoryMode::Browse } else { InventoryMode::EquipSelectUnit })
            &&& s1.status_message@ == (if k.escape {
                Seq::empty()
            } else if target {
                equip_message(data, item->0, unit)
            } else {
                s0.status_message@
            })
            &&& equips ==> equipped_on(p0, p1, data, item->0, unit)
            &&& !equips ==> p1 == p0
        },
    }
}

/// Confirming the unit for a piece of equipment without element
/// restriction always equips it: the item goes into its slot on the unit
/// under the cursor, the screen goes back to browsing and asks for a
/// rebuild, and the status line reports the equipping.
pub proof fn lemma_unrestricted_equipment_is_worn(
    k: InventoryKeys,
    s0: InventoryState,
    s1: InventoryState,
    p0: Party,
    p1: Party,
    data: GameData,
    list: InventoryItemList,
    out: InputOutcome,
)
    requires
        items_input_post(k, s0, s1, p0, p1, data, list, out),
        s0.mode == InventoryMode::EquipSelectUnit,
        k.enter,
        !k.escape,
        !k.up,
        !k.down,
        item_at(list, s0.cursor.selected as int) is Some,
        data.equipment@.contains_key(item_at(list, s0.cursor.selected as int)->0),
        data.equipment@[item_at(list, s0.cursor.selected as int)->0].allowed_elements@.len() == 0,
        s0.unit_cursor < p0.active@.len(),
    ensures
        ({
            let it = item_at(list, s0.cursor.selected as int)->0;
            let unit = p0.active@[s0.unit_cursor as int]@;
            let def = data.equipment@[it];
            &&& out.rebuild
            &&& s1.mode == InventoryMode::Browse
            &&& s1.status_message@ == "Equipped "@ + def.name@ + " on "@ + unit_label_spec(data, unit) + "."@
            &&& p1.equipment@[unit]@[slot_name_spec(def.slot)]@ == it
        }),
{
    let it = item_at(list, s0.cursor.selected as int)->0;
    let unit = p0.active@[s0.unit_cursor as int]@;
    lemma_element_compatibility(data, it, unit);
}

/// One frame of input on the Items tab. In browse mode: up/down, Enter to
/// choose a unit for equipment, U to unequip, Tab to the Party tab, Escape
/// to leave. While choosing a unit: up/down, Enter to equip, Escape to go
/// back to browsing. Whatever happens, the party owns what it owned before
/// (equipping takes items out of the item list, which holds inventory IDs).
pub fn inventory_input_items(
    keys: &InventoryKeys,
    state: &mut InventoryState,
    party: &mut Party,
    data: &GameData,
    item_list: &InventoryItemList,
) -> (out: InputOutcome)
    requires
        data.wf(),
        old(party).wf(),
        old(party).active@.len() + old(party).bench@.len() <= usize::MAX,
        forall|i: int| 0 <= i < item_list.ids@.len() ==> string_seq(old(party).inventory@).contains(#[trigger] item_list.ids@[i]@),
    ensures
        final(party).wf(),
        final(party).active == old(party).active,
        final(party).bench == old(party).bench,
        final(party).gold == old(party).gold,
        owned_items(*final(party)) == owned_items(*old(party)),
        keeps_records(*old(party), *final(party)),
        out.next_state is Some ==> out.next_state == Some(GameState::Overworld),
        !keys.up && !keys.down && !keys.enter && !keys.unequip && !keys.tab && !keys.escape ==> out == (InputOutcome {
            next_state: None,
            rebuild: false,
        }) && *final(party) == *old(party),
        items_input_post(*keys, *old(state), *final(state), *old(party), *final(party), *data, *item_list, out),
{
    let mut out = InputOutcome { next_state: None, rebuild: false };
    match state.mode {
        InventoryMode::Browse => {
            let count = state.cursor.count;
            browse_navigate(state, keys.up, keys.down);
            if keys.enter && count > 0 {
                browse_enter(state, party, data, item_list);
            }
            if keys.unequip && count > 0 {
                if browse_unequip(state, party, data, item_list) {
                    out.rebuild = true;
                }
            }
            if keys.tab {
                browse_tab(state, party);
                out.rebuild = true;
                return out;
            }
            if keys.escape {
                out.next_state = Some(GameState::Overworld);
            }
        },
        InventoryMode::EquipSelectUnit => {
            select_unit_navigate(state, party.active.len(), keys.up, keys.down);
            if keys.enter {
                let ghost before = *party;
                proof {
                    let sel = state.cursor.selected as int;
                    let uc = state.unit_cursor as int;
                    if sel < item_list.ids@.len() && data.equipment@.contains_key(item_list.ids@[sel]@) && uc < party.active@.len() {
                        assert(string_seq(party.inventory@).contains(item_list.ids@[sel]@));
                    }
                }
                if select_unit_enter(state, party, data, item_list) {
                    out.rebuild = true;
                }
            }
            if keys.escape {
                state.mode = InventoryMode::Browse;
                state.status_message = String::new();
            }
        },
    }
    out
}

/// The combined roster: active members then the bench.
pub open spec fn roster(p: Party) -> Seq<Seq<char>> {
    string_seq(p.active@ + p.bench@)
}

/// The party tab's bookkeeping matches the party: the member count is the
/// roster size and the cursor and a pending swap point into the roster.
pub open spec fn party_tab_consistent(state: InventoryState, party: Party) -> bool {
    &&& state.party_count == party.active@.len() + party.bench@.len()
    &&& (state.party_count > 0 ==> state.party_cursor < state.party_count)
    &&& (state.party_first_selected matches Some(f) ==> f < state.party_count)
}

fn swap_strings(v: &mut Vec<String>, i: usize, j: usize)
    requires
        i < old(v)@.len(),
        j < old(v)@.len(),
    ensures
        final(v)@ == old(v)@.update(i as int, old(v)@[j as int]).update(j as int, old(v)@[i as int]),
{
    let a = v[i].clone();
    let b = v[j].clone();
    v.set(i, b);
    v.set(j, a);
}

proof fn lemma_swap_multiset(s: Seq<Seq<char>>, i: int, j: int)
    requires
        0 <= i < s.len(),
        0 <= j < s.len(),
    ensures
        s.update(i, s[j]).update(j, s[i]).to_multiset() == s.to_multiset(),
{
    let t = s.update(i, s[j]);
    lemma_ms_update(s, i, s[j]);
    lemma_ms_update(t, j, s[i]);
    if i == j {
        assert(t.update(j, s[i]) =~= s);
    } else {
        assert(t[j] == s[j]);
        assert forall|x: Seq<char>| t.update(j, s[i]).to_multiset().count(x) == s.to_multiset().count(x) by {
            assert(t.update(j, s[i]).to_multiset().insert(t[j]).count(x) == t.to_multiset().insert(s[i]).count(x));
            assert(t.to_multiset().insert(s[i]).count(x) == s.to_multiset().insert(s[j]).count(x));
        }
        assert(t.update(j, s[i]).to_multiset() =~= s.to_multiset());
    }
}

/// The message after swapping roster positions `f` and `c`.
pub open spec fn swap_message(data: GameData, r: Seq<Seq<char>>, active_count: int, f: int, c: int) -> Seq<char> {
    if f < active_count && c < active_count {
        "Swapped "@ + member_label_spec(data, r[c]) + " and "@ + member_label_spec(data, r[f]) + " positions."@
    } else if f >= active_count && c >= active_count {
        "Swapped "@ + member_label_spec(data, r[c]) + " and "@ + member_label_spec(data, r[f]) + " on bench."@
    } else {
        let (a, b) = if f < active_count { (f, c) } else { (c, f) };
        "Swapped "@ + member_label_spec(data, r[b]) + " (to active) and "@ + member_label_spec(data, r[a]) + " (to bench)."@
    }
}

/// Swaps roster positions `first` and `current` (active members first,
/// then the bench) and returns the message describing the swap.
fn swap_members(party: &mut Party, data: &GameData, first: usize, current: usize) -> (msg: String)
    requires
        data.wf(),
        old(party).wf(),
        first != current,
        first < old(party).active@.len() + old(party).bench@.len(),
        current < old(party).active@.len() + old(party).bench@.len(),
    ensures
        final(party).wf(),
        roster(*final(party)) == roster(*old(party)).update(first as int, roster(*old(party))[current as int]).update(
            current as int,
            roster(*old(party))[first as int],
        ),
        roster(*final(party)).to_multiset() == roster(*old(party)).to_multiset(),
        final(party).active@.len() == old(party).active@.len(),
        final(party).bench@.len() == old(party).bench@.len(),
        final(party).gold == old(party).gold,
        final(party).inventory == old(party).inventory,
        final(party).equipment == old(party).equipment,
        final(party).unit_levels == old(party).unit_levels,
        final(party).unit_hp_pp == old(party).unit_hp_pp,
        final(party).djinn_assignments == old(party).djinn_assignments,
        final(party).story_flags == old(party).story_flags,
        final(party).difficulty == old(party).difficulty,
        msg@ == swap_message(*data, roster(*old(party)), old(party).active@.len() as int, first as int, current as int),
{
    let active_count = party.active.len();
    let ghost r = roster(*party);
    let ghost pre = *party;
    let first_is_active = first < active_count;
    let second_is_active = current < active_count;
    let mut msg = "Swapped ".to_owned();
    if first_is_active && second_is_active {
        swap_strings(&mut party.active, first, current);
        let name_a = member_label(data, party.active[first].as_str());
        let name_b = member_label(data, party.active[current].as_str());
        msg.append(name_a.as_str());
        msg.append(" and ");
        msg.append(name_b.as_str());
        msg.append(" positions.");
        proof {
            assert(pre.active@[current as int]@ == r[current as int]);
            assert(pre.active@[first as int]@ == r[first as int]);
            assert(party.active@ + party.bench@ =~= (pre.active@ + pre.bench@).update(first as int, (pre.active@ + pre.bench@)[current as int]).update(current as int, (pre.active@ + pre.bench@)[first as int]));
        }
    } else if !first_is_active && !second_is_active {
        let bench_a = first - active_count;
        let bench_b = current - active_count;
        swap_strings(&mut party.bench, bench_a, bench_b);
        let name_a = member_label(data, party.bench[bench_a].as_str());
        let name_b = member_label(data, party.bench[bench_b].as_str());
        msg.append(name_a.as_str());
        msg.append(" and ");
        msg.append(name_b.as_str());
        msg.append(" on bench.");
        proof {
            assert(pre.bench@[bench_b as int]@ == r[current as int]);
            assert(pre.bench@[bench_a as int]@ == r[first as int]);
            assert(party.active@ + party.bench@ =~= (pre.active@ + pre.bench@).update(first as int, (pre.active@ + pre.bench@)[current as int]).update(current as int, (pre.active@ + pre.bench@)[first as int]));
        }
    } else {
        let (active_idx, bench_idx) = if first_is_active {
            (first, current - active_count)
        } else {
            (current, first - active_count)
        };
        let active_id = party.active[active_idx].clone();
        let bench_id = party.bench[bench_idx].clone();
        party.active.set(active_idx, bench_id.clone());
        party.bench.set(bench_idx, active_id.clone());
        let name_active = member_label(data, active_id.as_str());
        let name_bench = member_label(data, bench_id.as_str());
        msg.append(name_bench.as_str());
        msg.append(" (to active) and ");
        msg.append(name_active.as_str());
        msg.append(" (to bench).");
        proof {
            assert(party.active@ + party.bench@ =~= (pre.active@ + pre.bench@).update(first as int, (pre.active@ + pre.bench@)[current as int]).update(current as int, (pre.active@ + pre.bench@)[first as int]));
        }
    }
    proof {
        let full = pre.active@ + pre.bench@;
        let swapped = full.update(first as int, full[current as int]).update(current as int, full[first as int]);
        assert(roster(*party) =~= string_seq(swapped));
        assert(string_seq(swapped) =~= r.update(first as int, r[current as int]).update(current as int, r[first as int]));
        lemma_swap_multiset(r, first as int, current as int);
    }
    msg
}

/// What one frame of input on the Party tab does, from screen state `s0`
/// and party `p0` to `s1` and `p1`, with outcome `out`.
pub open spec fn party_input_post(k: InventoryKeys, s0: InventoryState, s1: InventoryState, p0: Party, p1: Party, data: GameData, out: InputOutcome) -> bool {
    &&& p1.wf()
    &&& party_tab_consistent(s1, p1)
    &&& roster(p1).to_multiset() == roster(p0).to_multiset()
    &&& p1.active@.len() == p0.active@.len()
    &&& p1.bench@.len() == p0.bench@.len()
    &&& p1.gold == p0.gold
    &&& p1.inventory == p0.inventory
    &&& p1.equipment == p0.equipment
    &&& p1.story_flags == p0.story_flags
    &&& p1.unit_levels == p0.unit_levels
    &&& p1.unit_hp_pp == p0.unit_hp_pp
    &&& p1.djinn_assignments == p0.djinn_assignments
    &&& p1.difficulty == p0.difficulty
    &&& s1.cursor == s0.cursor
    &&& s1.mode == s0.mode
    &&& k.tab ==> {
            &&& out == (InputOutcome { next_state: None, rebuild: true })
            &&& s1.tab == InventoryTab::Items
            &&& s1.status_message@ == Seq::<char>::empty()
            &&& s1.party_first_selected is None
            &&& p1 == p0
    }
    &&& !k.tab && k.escape ==> {
            &&& p1 == p0
            &&& s1.party_first_selected is None
            &&& s0.party_first_selected is Some ==> out.next_state is None
                && s1.status_message@ == "Swap cancelled."@
            &&& s0.party_first_selected is None ==> out.next_state == Some(GameState::Overworld)
                && s1.status_message == s0.status_message
            &&& !out.rebuild
            &&& s1.tab == s0.tab
            &&& s1.party_cursor == s0.party_cursor
    }
    &&& !k.tab && !k.escape ==> ({
            let n = s0.party_count as int;
            let c = nav_cursor(s0.party_cursor as int, n, k.up, k.down);
            let r = roster(p0);
            let ac = p0.active@.len() as int;
            &&& out.next_state is None
            &&& out.rebuild == (n > 0 && (k.up || k.down || (k.enter && s0.party_first_selected is Some
                && s0.party_first_selected != Some(c as usize))))
            &&& s1.tab == s0.tab
            &&& (n == 0 || !k.enter) ==> s1.status_message@ == (if n > 0 && (k.up || k.down) {
                Seq::<char>::empty()
            } else {
                s0.status_message@
            })
            &&& n == 0 ==> p1 == p0 && s1.party_cursor == s0.party_cursor
                && s1.party_first_selected == s0.party_first_selected
            &&& n > 0 ==> s1.party_cursor == c
            &&& n > 0 && !k.enter ==> p1 == p0
                && s1.party_first_selected == s0.party_first_selected
            &&& n > 0 && k.enter && s0.party_first_selected is None ==> {
                &&& p1 == p0
                &&& s1.party_first_selected == Some(c as usize)
                &&& s1.status_message@ == "Selected "@ + member_label_spec(data, r[c]) + ". Choose another member to swap."@
            }
            &&& n > 0 && k.enter && s0.party_first_selected == Some(c as usize) ==> {
                &&& p1 == p0
                &&& s1.party_first_selected is None
                &&& s1.status_message@ == "Swap cancelled (same member)."@
            }
            &&& n > 0 && k.enter && s0.party_first_selected is Some && s0.party_first_selected != Some(c as usize) ==> {
                let f = s0.party_first_selected->0 as int;
                &&& roster(p1) == r.update(f, r[c]).update(c, r[f])
                &&& s1.party_first_selected is None
                &&& s1.status_message@ == swap_message(data, r, ac, f, c)
                &&& out.rebuild
            }
    })
}

/// One frame of input on the Party tab. Tab returns to the Items tab; Escape
/// cancels a swap under way or leaves the screen; up/down move the cursor;
/// Enter picks a member, and a second Enter on another member swaps the two
/// (within the active members, within the bench, or across). A swap keeps
/// the same members and the same number of active ones.
pub fn inventory_input_party(keys: &InventoryKeys, state: &mut InventoryState, party: &mut Party, data: &GameData) -> (out: InputOutcome)
    requires
        data.wf(),
        old(party).wf(),
        party_tab_consistent(*old(state), *old(party)),
    ensures
        party_input_post(*keys, *old(state), *final(state), *old(party), *final(party), *data, out),
{
    let mut out = InputOutcome { next_state: None, rebuild: false };
    let party_count = state.party_count;
    if keys.tab {
        state.tab = InventoryTab::Items;
        state.status_message = String::new();
        state.party_first_selected = None;
        out.rebuild = true;
        return out;
    }
    if keys.escape {
        if state.party_first_selected.is_some() {
            state.party_first_selected = None;
            state.status_message = "Swap cancelled.".to_owned();
        } else {
            out.next_state = Some(GameState::Overworld);
        }
        return out;
    }
    if party_count == 0 {
        return out;
    }
    if keys.up || keys.down {
        state.status_message = String::new();
        state.party_cursor = navigate(state.party_cursor, party_count, keys.up, keys.down);
        out.rebuild = true;
    }
    if keys.enter {
        let current = state.party_cursor;
        let active_count = party.active.len();
        let ghost r = roster(*party);
        let ghost pre = *party;
        proof {
            assert(r.len() == party_count);
        }
        match state.party_first_selected {
            Some(first) => {
                if first == current {
                    state.party_first_selected = None;
                    state.status_message = "Swap cancelled (same member).".to_owned();
                    return out;
                }
                let msg = swap_members(party, data, first, current);
                state.status_message = msg;
                state.party_first_selected = None;
                state.party_count = party.active.len() + party.bench.len();
                out.rebuild = true;
            },
            None => {
                let (members, _) = build_party_member_list(party);
                let unit_name = member_label(data, members[current].as_str());
                let mut msg = concat2("Selected ", unit_name.as_str());
                msg.append(". Choose another member to swap.");
                state.party_first_selected = Some(current);
                state.status_message = msg;
            },
        }
    }
    out
}

/// One frame of input on the inventory screen, handled by the active tab.
pub fn inventory_input(
    keys: &InventoryKeys,
    state: &mut InventoryState,
    party: &mut Party,
    data: &GameData,
    item_list: &InventoryItemList,
) -> (out: InputOutcome)
    requires
        data.wf(),
        old(party).wf(),
        old(party).active@.len() + old(party).bench@.len() <= usize::MAX,
        forall|i: int| 0 <= i < item_list.ids@.len() ==> string_seq(old(party).inventory@).contains(#[trigger] item_list.ids@[i]@),
        old(state).tab == InventoryTab::Party ==> party_tab_consistent(*old(state), *old(party)),
    ensures
        old(state).tab == InventoryTab::Items ==> items_input_post(*keys, *old(state), *final(state), *old(party), *final(party), *data, *item_list, out),
        old(state).tab == InventoryTab::Party ==> party_input_post(*keys, *old(state), *final(state), *old(party), *final(party), *data, out),
        final(party).wf(),
        owned_items(*final(party)) == owned_items(*old(party)),
        roster(*final(party)).to_multiset() == roster(*old(party)).to_multiset(),
        final(party).gold == old(party).gold,
        out.next_state is Some ==> out.next_state == Some(GameState::Overworld),
{
    match state.tab {
        InventoryTab::Items => inventory_input_items(keys, state, party, data, item_list),
        InventoryTab::Party => inventory_input_party(keys, state, party, data),
    }
}

/// How many copies of `id` the inventory holds.
pub fn count_copies(inv: &Vec<String>, id: &str) -> (n: usize)
    ensures
        n == string_seq(inv@).to_multiset().count(id@),
{
    let key = id.to_owned();
    let mut n: usize = 0;
    let mut i: usize = 0;
    proof {
        let e = string_seq(inv@.take(0));
        assert(e =~= Seq::<Seq<char>>::empty());
        e.to_multiset_ensures();
        if e.to_multiset().count(id@) > 0 {
            assert(e.contains(id@));
        }
    }
    while i < inv.len()
        invariant
            i <= inv@.len(),
            key@ == id@,
            n == string_seq(inv@.take(i as int)).to_multiset().count(id@),
            n <= i,
        decreases inv@.len() - i,
    {
        proof {
            assert(string_seq(inv@.take(i + 1)) =~= string_seq(inv@.take(i as int)).push(inv@[i as int]@));
            string_seq(inv@.take(i as int)).to_multiset_ensures();
        }
        if inv[i] == key {
            n = n + 1;
        }
        i = i + 1;
    }
    assert(inv@.take(i as int) =~= inv@);
    n
}

/// The debug name of an element.
pub open spec fn element_name_spec(e: Element) -> Seq<char> {
    match e {
        Element::Venus => "Venus"@,
        Element::Mars => "Mars"@,
        Element::Mercury => "Mercury"@,
        Element::Jupiter => "Jupiter"@,
        Element::Neutral => "Neutral"@,
    }
}

pub fn element_name(e: Element) -> (s: String)
    ensures
        s@ == element_name_spec(e),
{
    match e {
        Element::Venus => "Venus".to_owned(),
        Element::Mars => "Mars".to_owned(),
        Element::Mercury => "Mercury".to_owned(),
        Element::Jupiter => "Jupiter".to_owned(),
        Element::Neutral => "Neutral".to_owned(),
    }
}

/// Display name and description of an owned ID.
pub open spec fn item_text_spec(data: GameData, id: Seq<char>) -> (Seq<char>, Seq<char>) {
    if data.items@.contains_key(id) {
        (data.items@[id].name@, data.items@[id].description@)
    } else if data.equipment@.contains_key(id) {
        (data.equipment@[id].name@, data.equipment@[id].description@)
    } else {
        ("Unknown Item ("@ + id + ")"@, "No description available."@)
    }
}

/// The equipped tag of an item line: who wears it, if anyone.
pub open spec fn equip_tag_spec(party: Party, data: GameData, id: Seq<char>) -> Seq<char> {
    if exists|i: int| is_first_wearer(party.equipment, id, i) {
        let i = choose|i: int| is_first_wearer(party.equipment, id, i);
        " [E:"@ + unit_label_spec(data, party.equipment.key(i)) + "]"@
    } else {
        Seq::empty()
    }
}

/// An inventory line: name, number of copies, who wears it, description.
pub open spec fn item_line_spec(item_id: Seq<char>, party: Party, data: GameData) -> Seq<char> {
    let (name, description) = item_text_spec(data, item_id);
    name + " x"@ + decimal(string_seq(party.inventory@).to_multiset().count(item_id)) + equip_tag_spec(party, data, item_id)
        + " - "@ + description
}

pub fn format_item_line(item_id: &str, party: &Party, data: &GameData) -> (line: String)
    requires
        data.wf(),
    ensures
        line@ == item_line_spec(item_id@, *party, *data),
{
    let amount = count_copies(&party.inventory, item_id);
    let (mut line, description) = match data.items.get(item_id) {
        Some(def) => (def.name.clone(), def.description.clone()),
        None => match data.equipment.get(item_id) {
            Some(def) => (def.name.clone(), def.description.clone()),
            None => {
                let mut n = concat2("Unknown Item (", item_id);
                n.append(")");
                (n, "No description available.".to_owned())
            },
        },
    };
    line.append(" x");
    push_decimal(&mut line, amount as u64);
    match find_wearer(&party.equipment, item_id) {
        Some(i) => {
            proof {
                assert forall|i2: int| is_first_wearer(party.equipment, item_id@, i2) implies i2 == i by {
                    if i2 < i {
                        assert(!wears(party.equipment, i2, item_id@));
                    } else if i2 > i {
                        assert(!wears(party.equipment, i as int, item_id@));
                    }
                }
            }
            let unit_name = unit_label(data, party.equipment.key_at(i).as_str());
            line.append(" [E:");
            line.append(unit_name.as_str());
            line.append("]");
        },
        None => {},
    }
    line.append(" - ");
    line.append(description.as_str());
    line
}

/// A slot of the equipment summary: the slot name and what is in it.
pub open spec fn slot_text_spec(unit_id: Seq<char>, slot: EquipmentSlot, party: Party, data: GameData) -> Seq<char> {
    let name = slot_name_spec(slot);
    let eq_name = match slot_item(party.equipment@, unit_id, name) {
        Some(id) => if data.equipment@.contains_key(id) {
            data.equipment@[id].name@
        } else {
            "--"@
        },
        None => "--"@,
    };
    "["@ + name + ": "@ + eq_name + "]"@
}

pub fn format_slot(unit_id: &str, slot: EquipmentSlot, party: &Party, data: &GameData) -> (s: String)
    requires
        data.wf(),
        party.wf(),
    ensures
        s@ == slot_text_spec(unit_id@, slot, *party, *data),
{
    let name = slot_name(slot);
    let mut eq_name = "--".to_owned();
    match party.equipment.get(unit_id) {
        Some(slots) => {
            proof {
                let i = party.equipment.index_of(unit_id@);
                party.equipment.lemma_view_at(i);
                assert(party.equipment.value(i).wf());
            }
            match slots.get(name.as_str()) {
                Some(id) => match data.equipment.get(id.as_str()) {
                    Some(def) => {
                        eq_name = def.name.clone();
                    },
                    None => {},
                },
                None => {},
            }
        },
        None => {},
    }
    let mut s = concat2("[", name.as_str());
    s.append(": ");
    s.append(eq_name.as_str());
    s.append("]");
    s
}

/// A unit's level as the party records it, 1 when unrecorded.
pub open spec fn unit_level_spec(party: Party, unit_id: Seq<char>) -> u8 {
    if party.unit_levels@.contains_key(unit_id) {
        party.unit_levels@[unit_id].0
    } else {
        1
    }
}

/// A line of the party list: name, level, element and role.
pub open spec fn member_line_spec(unit_id: Seq<char>, party: Party, data: GameData) -> Seq<char> {
    let (name, element, role) = if data.units@.contains_key(unit_id) {
        (data.units@[unit_id].name@, element_name_spec(data.units@[unit_id].element), data.units@[unit_id].role@)
    } else {
        (unit_id, "???"@, "Unknown"@)
    };
    name + "  Lv."@ + decimal(unit_level_spec(party, unit_id) as nat) + "  "@ + element + "  "@ + role
}

fn unit_level(party: &Party, unit_id: &str) -> (l: u8)
    requires
        party.wf(),
    ensures
        l == unit_level_spec(*party, unit_id@),
{
    match party.unit_levels.get(unit_id) {
        Some(v) => v.0,
        None => 1,
    }
}

pub fn format_party_member_line(unit_id: &str, party: &Party, data: &GameData) -> (s: String)
    requires
        data.wf(),
        party.wf(),
    ensures
        s@ == member_line_spec(unit_id@, *party, *data),
{
    let (mut s, element, role) = match data.units.get(unit_id) {
        Some(def) => (def.name.clone(), element_name(def.element), def.role.clone()),
        None => (unit_id.to_owned(), "???".to_owned(), "Unknown".to_owned()),
    };
    let level = unit_level(party, unit_id);
    s.append("  Lv.");
    push_decimal(&mut s, level as u64);
    s.append("  ");
    s.append(element.as_str());
    s.append("  ");
    s.append(role.as_str());
    s
}

/// A stat at a level: the base value plus one growth step per level gained.
pub open spec fn stat_at(base: i32, growth: i32, level: u8) -> int {
    base + growth * (level - 1)
}

/// The unit details panel text.
pub open spec fn unit_stats_spec(unit_id: Seq<char>, party: Party, data: GameData) -> Seq<char> {
    if !data.units@.contains_key(unit_id) {
        "Unknown unit: "@ + unit_id
    } else {
        let d = data.units@[unit_id];
        let l = unit_level_spec(party, unit_id);
        d.name@ + "\nLevel: "@ + decimal(l as nat) + "  Element: "@ + element_name_spec(d.element) + "\nRole: "@ + d.role@
            + "\nHP: "@ + signed_decimal(stat_at(d.base_hp, d.growth.hp, l)) + "  PP: "@
            + signed_decimal(stat_at(d.base_pp, d.growth.pp, l)) + "\nATK: "@
            + signed_decimal(stat_at(d.base_atk, d.growth.atk, l)) + "  DEF: "@
            + signed_decimal(stat_at(d.base_def, d.growth.def, l)) + "  MAG: "@
            + signed_decimal(stat_at(d.base_mag, d.growth.mag, l)) + "  SPD: "@
            + signed_decimal(stat_at(d.base_spd, d.growth.spd, l))
    }
}

fn stat_value(base: i32, growth: i32, level: u8) -> (v: i64)
    ensures
        v == stat_at(base, growth, level),
{
    let gained: i64 = level as i64 - 1;
    proof {
        assert(-2147483648 * 254 <= growth * gained <= 2147483647 * 254) by (nonlinear_arith)
            requires
                -1 <= gained <= 254,
                -2147483648 <= growth <= 2147483647,
        ;
    }
    base as i64 + growth as i64 * gained
}

/// The stats of a unit at its current level, as the details panel shows them.
pub fn compute_unit_stats(unit_id: &str, party: &Party, data: &GameData) -> (s: String)
    requires
        data.wf(),
        party.wf(),
    ensures
        s@ == unit_stats_spec(unit_id@, *party, *data),
{
    let def = match data.units.get(unit_id) {
        Some(d) => d,
        None => {
            return concat2("Unknown unit: ", unit_id);
        },
    };
    let level = unit_level(party, unit_id);
    let mut s = def.name.clone();
    s.append("\nLevel: ");
    push_decimal(&mut s, level as u64);
    s.append("  Element: ");
    let e = element_name(def.element);
    s.append(e.as_str());
    s.append("\nRole: ");
    s.append(def.role.as_str());
    s.append("\nHP: ");
    push_signed(&mut s, stat_value(def.base_hp, def.growth.hp, level));
    s.append("  PP: ");
    push_signed(&mut s, stat_value(def.base_pp, def.growth.pp, level));
    s.append("\nATK: ");
    push_signed(&mut s, stat_value(def.base_atk, def.growth.atk, level));
    s.append("  DEF: ");
    push_signed(&mut s, stat_value(def.base_def, def.growth.def, level));
    s.append("  MAG: ");
    push_signed(&mut s, stat_value(def.base_mag, def.growth.mag, level));
    s.append("  SPD: ");
    push_signed(&mut s, stat_value(def.base_spd, def.growth.spd, level));
    s
}

} // verus!
