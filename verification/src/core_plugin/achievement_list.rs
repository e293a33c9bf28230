//! Achievements: milestones that unlock once and stay unlocked.

use crate::strmap::{count_prefix, count_where, StrMap};
use vstd::prelude::*;

verus! {

broadcast use vstd::string::group_string_axioms;

#[derive(Clone, Debug)]
pub struct AchievementEntry {
    pub id: String,
    pub name: String,
    pub description: String,
    pub unlocked: bool,
}

#[derive(Clone, Debug)]
pub struct Achievements {
    /// Achievement ID -> entry.
    pub unlocked: StrMap<AchievementEntry>,
}

/// The registered achievements, in order: (id, name, description).
pub open spec fn achievement_table() -> Seq<(Seq<char>, Seq<char>, Seq<char>)> {
    seq![
        ("first_blood"@, "First Blood"@, "Win your first battle"@),
        ("full_party"@, "Band of Heroes"@, "Recruit all party members"@),
        ("tower_entered"@, "Into the Depths"@, "Enter the Tower of Trials"@),
        ("tower_completed"@, "Tower Conqueror"@, "Complete all 10 floors"@),
        ("bestiary_25"@, "Monster Scholar"@, "Discover 25 enemy types"@),
        ("bestiary_50"@, "Monster Master"@, "Discover all 50 enemy types"@),
        ("gold_1000"@, "Wealthy Adept"@, "Accumulate 1000 gold"@),
        ("hard_mode"@, "Hardcore"@, "Win a battle on Hard difficulty"@),
        ("no_ko"@, "Flawless Victory"@, "Win a battle with no party members KO'd"@),
        ("level_10"@, "Seasoned Warrior"@, "Reach level 10 with any unit"@),
    ]
}

/// Whether achievement `id` is registered and unlocked in `m`.
pub open spec fn is_unlocked_in(m: Map<Seq<char>, AchievementEntry>, id: Seq<char>) -> bool {
    m.contains_key(id) && m[id].unlocked
}

impl Default for Achievements {
    /// No achievement registered at all.
    fn default() -> (a: Self)
        ensures
            a.unlocked.wf(),
            a.unlocked@ == Map::<Seq<char>, AchievementEntry>::empty(),
    {
        Achievements { unlocked: StrMap::new() }
    }
}

fn register(map: &mut StrMap<AchievementEntry>, id: &str, name: &str, description: &str)
    requires
        old(map).wf(),
        !old(map)@.contains_key(id@),
    ensures
        final(map).wf(),
        final(map)@ == old(map)@.insert(id@, final(map)@[id@]),
        final(map).keys() == old(map).keys().push(id@),
        final(map)@[id@].id@ == id@,
        final(map)@[id@].name@ == name@,
        final(map)@[id@].description@ == description@,
        !final(map)@[id@].unlocked,
{
    let entry = AchievementEntry {
        id: id.to_owned(),
        name: name.to_owned(),
        description: description.to_owned(),
        unlocked: false,
    };
    map.insert(id, entry);
}

impl Achievements {
    /// All ten achievements, registered and locked.
    pub fn build_default() -> (a: Self)
        ensures
            a.unlocked.wf(),
            a.unlocked.size() == 10,
            a.unlocked@.len() == 10,
            forall|i: int| 0 <= i < 10 ==> a.unlocked.key(i) == #[trigger] achievement_table()[i].0,
            forall|i: int| 0 <= i < 10 ==> {
                let e = a.unlocked@[#[trigger] achievement_table()[i].0];
                &&& a.unlocked@.contains_key(achievement_table()[i].0)
                &&& e.id@ == achievement_table()[i].0
                &&& e.name@ == achievement_table()[i].1
                &&& e.description@ == achievement_table()[i].2
                &&& !e.unlocked
            },
            forall|k: Seq<char>| #[trigger] a.unlocked@.contains_key(k) ==> exists|i: int| 0 <= i < 10 && achievement_table()[i].0 == k,
    {
        proof {
            reveal_strlit("first_blood");
            reveal_strlit("full_party");
            reveal_strlit("tower_entered");
            reveal_strlit("tower_completed");
            reveal_strlit("bestiary_25");
            reveal_strlit("bestiary_50");
            reveal_strlit("gold_1000");
            reveal_strlit("hard_mode");
            reveal_strlit("no_ko");
            reveal_strlit("level_10");
            assert("first_blood"@.len() == 11 && "first_blood"@[0] == 'f');
            assert("full_party"@.len() == 10 && "full_party"@[0] == 'f');
            assert("tower_entered"@.len() == 13 && "tower_entered"@[0] == 't');
            assert("tower_completed"@.len() == 15 && "tower_completed"@[0] == 't');
            assert("bestiary_25"@.len() == 11 && "bestiary_25"@[0] == 'b');
            assert("bestiary_50"@.len() == 11 && "bestiary_50"@[0] == 'b');
            assert("gold_1000"@.len() == 9 && "gold_1000"@[0] == 'g');
            assert("hard_mode"@.len() == 9 && "hard_mode"@[0] == 'h');
            assert("no_ko"@.len() == 5 && "no_ko"@[0] == 'n');
            assert("level_10"@.len() == 8 && "level_10"@[0] == 'l');
            assert("bestiary_25"@[9] != "bestiary_50"@[9]);
        }
        let mut m: StrMap<AchievementEntry> = StrMap::new();
        register(&mut m, "first_blood", "First Blood", "Win your first battle");
        register(&mut m, "full_party", "Band of Heroes", "Recruit all party members");
        register(&mut m, "tower_entered", "Into the Depths", "Enter the Tower of Trials");
        register(&mut m, "tower_completed", "Tower Conqueror", "Complete all 10 floors");
        register(&mut m, "bestiary_25", "Monster Scholar", "Discover 25 enemy types");
        register(&mut m, "bestiary_50", "Monster Master", "Discover all 50 enemy types");
        register(&mut m, "gold_1000", "Wealthy Adept", "Accumulate 1000 gold");
        register(&mut m, "hard_mode", "Hardcore", "Win a battle on Hard difficulty");
        register(&mut m, "no_ko", "Flawless Victory", "Win a battle with no party members KO'd");
        register(&mut m, "level_10", "Seasoned Warrior", "Reach level 10 with any unit");
        proof {
            m.lemma_len();
            let ids = achievement_table().map_values(|t: (Seq<char>, Seq<char>, Seq<char>)| t.0);
            assert(m.keys() =~= ids);
            assert forall|i: int| 0 <= i < 10 implies m.key(i) == #[trigger] achievement_table()[i].0 by {
                assert(m.keys()[i] == ids[i]);
            }
            assert forall|k: Seq<char>| #[trigger] m@.contains_key(k) implies exists|i: int| 0 <= i < 10 && achievement_table()[i].0 == k by {
                assert(m.keys().to_set().contains(k));
                let i = choose|i: int| 0 <= i < m.keys().len() && m.keys()[i] == k;
                assert(ids[i] == k);
            }
        }
        Achievements { unlocked: m }
    }

    /// Marks the achievement as unlocked; an unknown ID changes nothing.
    pub fn unlock(&mut self, id: &str)
        requires
            old(self).unlocked.wf(),
        ensures
            final(self).unlocked.wf(),
            final(self).unlocked@.dom() == old(self).unlocked@.dom(),
            forall|k: Seq<char>| k != id@ && #[trigger] old(self).unlocked@.contains_key(k)
                ==> final(self).unlocked@[k] == old(self).unlocked@[k],
            old(self).unlocked@.contains_key(id@) ==> ({
                let e1 = old(self).unlocked@[id@];
                let e2 = final(self).unlocked@[id@];
                &&& e2.id == e1.id
                &&& e2.name == e1.name
                &&& e2.description == e1.description
                &&& e2.unlocked
            }),
            !old(self).unlocked@.contains_key(id@) ==> final(self).unlocked@ == old(self).unlocked@,
    {
        match self.unlocked.find(id) {
            Some(i) => {
                let e = self.unlocked.value_at(i);
                let updated = AchievementEntry {
                    id: e.id.clone(),
                    name: e.name.clone(),
                    description: e.description.clone(),
                    unlocked: true,
                };
                self.unlocked.set_value_at(i, updated);
                proof {
                    assert(self.unlocked@.dom() =~= old(self).unlocked@.dom());
                }
            },
            None => {},
        }
    }

    /// Returns true if the achievement exists and has been unlocked.
    pub fn is_unlocked(&self, id: &str) -> (b: bool)
        requires
            self.unlocked.wf(),
        ensures
            b == is_unlocked_in(self.unlocked@, id@),
    {
        match self.unlocked.get(id) {
            Some(e) => e.unlocked,
            None => false,
        }
    }

    /// `(unlocked_count, total_count)` for progress display.
    pub fn completion_count(&self) -> (r: (usize, usize))
        requires
            self.unlocked.wf(),
        ensures
            r.0 == count_where(self.unlocked@, |e: AchievementEntry| e.unlocked),
            r.1 == self.unlocked@.len(),
            r.0 <= r.1,
    {
        let total = self.unlocked.len();
        let mut done: usize = 0;
        let mut i: usize = 0;
        while i < total
            invariant
                self.unlocked.wf(),
                total == self.unlocked.size(),
                i <= total,
                done == count_prefix(self.unlocked.values(), i as int, |e: AchievementEntry| e.unlocked),
                done <= i,
            decreases total - i,
        {
            let u = self.unlocked.value_at(i).unlocked;
            proof {
                assert(self.unlocked.values()[i as int] == self.unlocked.value(i as int));
            }
            if u {
                done = done + 1;
            }
            i = i + 1;
        }
        proof {
            self.unlocked.lemma_count(|e: AchievementEntry| e.unlocked);
            self.unlocked.lemma_len();
        }
        (done, total)
    }
}

/// Unlocking twice leaves the same result as unlocking once, and unlocking
/// never changes which achievements exist.
pub proof fn lemma_unlock_idempotent(
    m0: Map<Seq<char>, AchievementEntry>,
    m1: Map<Seq<char>, AchievementEntry>,
    id: Seq<char>,
)
    requires
        m1.dom() == m0.dom(),
        forall|k: Seq<char>| k != id && #[trigger] m0.contains_key(k) ==> m1[k] == m0[k],
        m0.contains_key(id) ==> m1[id].unlocked,
    ensures
        m0.contains_key(id) ==> is_unlocked_in(m1, id),
        forall|k: Seq<char>| #[trigger] is_unlocked_in(m0, k) ==> is_unlocked_in(m1, k),
{
}

} // verus!
