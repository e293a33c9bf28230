//! The bestiary: which enemies the player has met and defeated.

use crate::strmap::StrMap;
use vstd::prelude::*;

verus! {

#[derive(Clone, Debug)]
pub struct BestiaryEntry {
    pub enemy_id: String,
    pub enemy_name: String,
    pub times_encountered: u32,
    pub times_defeated: u32,
    pub first_encountered: bool,
}

/// A share of a whole: `num / den`.
#[derive(Clone, Copy, Debug, PartialEq, Eq, Structural)]
pub struct Fraction {
    pub num: u64,
    pub den: u64,
}

#[derive(Clone, Debug)]
pub struct Bestiary {
    /// Enemy ID -> entry.
    pub entries: StrMap<BestiaryEntry>,
}

/// The entry a first encounter creates.
pub open spec fn first_entry(id: Seq<char>, name: Seq<char>, e: BestiaryEntry) -> bool {
    &&& e.enemy_id@ == id
    &&& e.enemy_name@ == name
    &&& e.times_encountered == 1
    &&& e.times_defeated == 0
    &&& e.first_encountered
}

/// `e2` is `e1` after one more encounter.
pub open spec fn encountered_again(e1: BestiaryEntry, e2: BestiaryEntry) -> bool {
    &&& e2.enemy_id == e1.enemy_id
    &&& e2.enemy_name == e1.enemy_name
    &&& e2.times_encountered == e1.times_encountered + 1
    &&& e2.times_defeated == e1.times_defeated
    &&& e2.first_encountered == (if e1.times_encountered + 1 > 1 { false } else { e1.first_encountered })
}

impl Default for Bestiary {
    fn default() -> (b: Self)
        ensures
            b.entries.wf(),
            b.entries@ == Map::<Seq<char>, BestiaryEntry>::empty(),
    {
        Bestiary { entries: StrMap::new() }
    }
}

impl Bestiary {
    /// Records an encounter with an enemy. The first one creates an entry
    /// with one encounter and `first_encountered` set; later ones count up
    /// and clear `first_encountered`.
    pub fn record_encounter(&mut self, enemy_id: &str, enemy_name: &str)
        requires
            old(self).entries.wf(),
            old(self).entries@.contains_key(enemy_id@) ==> old(self).entries@[enemy_id@].times_encountered < u32::MAX,
        ensures
            final(self).entries.wf(),
            final(self).entries@.dom() == old(self).entries@.dom().insert(enemy_id@),
            forall|k: Seq<char>| k != enemy_id@ && #[trigger] old(self).entries@.contains_key(k)
                ==> final(self).entries@[k] == old(self).entries@[k],
            !old(self).entries@.contains_key(enemy_id@) ==> first_entry(enemy_id@, enemy_name@, final(self).entries@[enemy_id@]),
            old(self).entries@.contains_key(enemy_id@) ==> encountered_again(old(self).entries@[enemy_id@], final(self).entries@[enemy_id@]),
    {
        match self.entries.find(enemy_id) {
            Some(i) => {
                let e = self.entries.value_at(i);
                let times = e.times_encountered + 1;
                let first = if times > 1 { false } else { e.first_encountered };
                let updated = BestiaryEntry {
                    enemy_id: e.enemy_id.clone(),
                    enemy_name: e.enemy_name.clone(),
                    times_encountered: times,
                    times_defeated: e.times_defeated,
                    first_encountered: first,
                };
                self.entries.set_value_at(i, updated);
                proof {
                    assert(self.entries@.dom() =~= old(self).entries@.dom().insert(enemy_id@));
                }
            },
            None => {
                let entry = BestiaryEntry {
                    enemy_id: enemy_id.to_owned(),
                    enemy_name: enemy_name.to_owned(),
                    times_encountered: 1,
                    times_defeated: 0,
                    first_encountered: true,
                };
                self.entries.insert(enemy_id, entry);
                proof {
                    assert(self.entries@.dom() =~= old(self).entries@.dom().insert(enemy_id@));
                }
            },
        }
    }

    /// Records a defeat of a known enemy; unknown enemies are ignored. It
    /// does not count as an encounter.
    pub fn record_defeat(&mut self, enemy_id: &str)
        requires
            old(self).entries.wf(),
            old(self).entries@.contains_key(enemy_id@) ==> old(self).entries@[enemy_id@].times_defeated < u32::MAX,
        ensures
            final(self).entries.wf(),
            final(self).entries@.dom() == old(self).entries@.dom(),
            forall|k: Seq<char>| k != enemy_id@ && #[trigger] old(self).entries@.contains_key(k)
                ==> final(self).entries@[k] == old(self).entries@[k],
            old(self).entries@.contains_key(enemy_id@) ==> ({
                let e1 = old(self).entries@[enemy_id@];
                let e2 = final(self).entries@[enemy_id@];
                &&& e2.enemy_id == e1.enemy_id
                &&& e2.enemy_name == e1.enemy_name
                &&& e2.times_encountered == e1.times_encountered
                &&& e2.times_defeated == e1.times_defeated + 1
                &&& e2.first_encountered == e1.first_encountered
            }),
            !old(self).entries@.contains_key(enemy_id@) ==> final(self).entries@ == old(self).entries@,
    {
        match self.entries.find(enemy_id) {
            Some(i) => {
                let e = self.entries.value_at(i);
                let updated = BestiaryEntry {
                    enemy_id: e.enemy_id.clone(),
                    enemy_name: e.enemy_name.clone(),
                    times_encountered: e.times_encountered,
                    times_defeated: e.times_defeated + 1,
                    first_encountered: e.first_encountered,
                };
                self.entries.set_value_at(i, updated);
                proof {
                    assert(self.entries@.dom() =~= old(self).entries@.dom());
                }
            },
            None => {},
        }
    }

    /// Returns true if the enemy has been encountered at least once.
    pub fn is_discovered(&self, enemy_id: &str) -> (b: bool)
        requires
            self.entries.wf(),
        ensures
            b == self.entries@.contains_key(enemy_id@),
    {
        self.entries.contains_key(enemy_id)
    }

    /// Share of enemy types discovered, between 0 and 100 percent: the
    /// percentage is `100 * num / den`, where `num` is the number of
    /// discovered enemies, capped at the number of types. With no enemy types
    /// at all the share is zero.
    pub fn completion_percent(&self, total_enemy_types: usize) -> (f: Fraction)
        requires
            self.entries.wf(),
        ensures
            total_enemy_types == 0 ==> f.num == 0 && f.den == 1,
            total_enemy_types > 0 ==> f.den == total_enemy_types && f.num == (if self.entries@.len() <= total_enemy_types {
                self.entries@.len() as int
            } else {
                total_enemy_types as int
            }),
            f.num <= f.den,
            f.den > 0,
    {
        if total_enemy_types == 0 {
            return Fraction { num: 0, den: 1 };
        }
        let n = self.entries.len();
        let capped = if n <= total_enemy_types { n } else { total_enemy_types };
        Fraction { num: capped as u64, den: total_enemy_types as u64 }
    }
}

/// Counts only grow: an encounter adds one to its enemy's encounters and
/// never changes a defeat count.
pub proof fn lemma_encounter_counts(e0: BestiaryEntry, e1: BestiaryEntry)
    requires
        encountered_again(e0, e1),
    ensures
        e1.times_encountered > e0.times_encountered,
        e1.times_defeated == e0.times_defeated,
        !e1.first_encountered || e1.times_encountered <= 1,
{
}

} // verus!
