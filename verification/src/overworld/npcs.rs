//! The village's inhabitants: who stands where, what they say, and what
//! talking to them does.

use crate::core_plugin::{story, GameState, Party};
use crate::data::{GameData, GridPosition};
use crate::inventory::{roster, stat_at, unit_level_spec};
use crate::shop::CurrentShop;
use crate::text::{clone_strings, concat2, contains_str, str_eq, decimal, push_decimal, string_seq, to_strings};
use vstd::prelude::*;
use vstd::string::StringExecFns;

verus! {

broadcast use vstd::string::group_string_axioms;

/// What a shopkeeper sells.
pub struct ShopStock {
    pub items: Vec<String>,
    pub equipment: Vec<String>,
}

/// A villager: name, tile, dialog, and the roles that change what talking
/// to them does.
pub struct Npc {
    pub name: String,
    pub position: GridPosition,
    pub dialog: Vec<String>,
    pub shopkeeper: Option<ShopStock>,
    /// Unit that joins the party after the dialog.
    pub recruit: Option<String>,
    /// Gold an innkeeper charges to heal the party.
    pub innkeeper: Option<u32>,
    /// The Elder, whose words follow story progress.
    pub elder: bool,
    /// The Fortune Teller, whose hints follow story progress.
    pub fortune_teller: bool,
}

pub open spec fn strs(v: Seq<&str>) -> Seq<Seq<char>> {
    v.map_values(|s: &str| s@)
}
/// Name of villager `i`.
pub open spec fn npc_name(i: int) -> Seq<char> {
    if i == 0 {
        "Elder Dora"@
    }     else if i == 1 {
        "Shopkeeper"@
    }     else if i == 2 {
        "Innkeeper"@
    }     else if i == 3 {
        "Guard"@
    }     else if i == 4 {
        "Tower Guard"@
    }     else if i == 5 {
        "Scholar Liam"@
    }     else if i == 6 {
        "Little Mia"@
    }     else if i == 7 {
        "Blacksmith"@
    }     else if i == 8 {
        "Fortune Teller"@
    }     else if i == 9 {
        "Wandering Merchant"@
    }     else if i == 10 {
        "Karis"@
    }     else if i == 11 {
        "Tyrell"@
    }     else if i == 12 {
        "Amiti"@
    } else {
        Seq::empty()
    }
}

/// Tile of villager `i`.
pub open spec fn npc_position(i: int) -> GridPosition {
    if i == 0 {
        GridPosition { x: 10, y: 12 }
    }     else if i == 1 {
        GridPosition { x: 5, y: 8 }
    }     else if i == 2 {
        GridPosition { x: 22, y: 5 }
    }     else if i == 3 {
        GridPosition { x: 15, y: 5 }
    }     else if i == 4 {
        GridPosition { x: 26, y: 6 }
    }     else if i == 5 {
        GridPosition { x: 10, y: 18 }
    }     else if i == 6 {
        GridPosition { x: 21, y: 13 }
    }     else if i == 7 {
        GridPosition { x: 18, y: 12 }
    }     else if i == 8 {
        GridPosition { x: 6, y: 14 }
    }     else if i == 9 {
        GridPosition { x: 22, y: 8 }
    }     else if i == 10 {
        GridPosition { x: 12, y: 8 }
    }     else if i == 11 {
        GridPosition { x: 18, y: 14 }
    }     else if i == 12 {
        GridPosition { x: 8, y: 16 }
    } else {
        GridPosition { x: 0, y: 0 }
    }
}

/// Dialog of villager `i`.
pub open spec fn npc_dialog(i: int) -> Seq<Seq<char>> {
    if i == 0 {
        seq![
            "Welcome to Vale Village, young adept."@,
            "The tower to the north holds great danger..."@,
            "But also great treasure. Prepare yourself well."@,
        ]
    }     else if i == 1 {
        seq![
            "Welcome! I just received a fresh shipment from the Angara trade route."@,
            "Got potions, antidotes, and some Mercury Mist Elixirs — perfect for cleansing poison."@,
            "If you're planning to brave the Tower of Trials, stock up on healing items. You'll burn through them fast."@,
            "I also carry starter weapons for any new companions you recruit. Every adept needs a good blade."@,
            "A word of advice: the creatures on the upper floors resist certain elements. Bring a balanced party."@,
        ]
    }     else if i == 2 {
        seq![
            "Welcome to the Golden Sun Inn! You look weary. Come, sit by the fire."@,
            "A traveler passed through last week, pale as a ghost. He muttered about a shadow on the tower's top floor."@,
            "Some folk say there are monsters in the southern caves that haven't been seen in a hundred years."@,
            "I've also heard tell of a great beast that guards the tower's deepest secret. Even the Elder won't speak of it."@,
            "Rest here and I'll have your whole party feeling good as new. Your party has been fully restored!"@,
        ]
    }     else if i == 3 {
        seq![
            "Halt, traveler. A word of warning before you go further."@,
            "The tall grass north and west of the village is crawling with wild creatures. Step in there unprepared and you won't last long."@,
            "The Tower of Trials lies to the east — you can see its peak from here. Many brave souls have entered. Fewer have returned."@,
            "Make sure you have Djinn equipped and your party at full strength before you stray from the roads."@,
            "If you stick to the stone paths, you'll be safe. The creatures don't venture onto them."@,
        ]
    }     else if i == 4 {
        seq![
            "This is the Tower of Trials, erected by the Alchemy adepts who founded Vale Village centuries ago."@,
            "It was built as a proving ground — ten floors of increasing danger, each guarded by creatures that feed on Psynergy."@,
            "I've watched seasoned warriors flee from the fifth floor with terror in their eyes. Something unnatural lurks there."@,
            "But the rewards are real. Rare Djinn nest within, and ancient artifacts lie waiting for those strong enough to claim them."@,
            "My advice? Bring a full party, stock up on potions and antidotes, and don't be ashamed to retreat if things go wrong."@,
        ]
    }     else if i == 5 {
        seq![
            "Ah, a fellow seeker of knowledge! I've devoted my life to studying the elemental arts and the history of Alchemy."@,
            "There are four primal elements: Venus, the earth; Jupiter, the wind; Mercury, the water; and Mars, the flame."@,
            "Each element holds dominion over another. Venus overcomes Jupiter, Jupiter overcomes Mercury, Mercury overcomes Mars, and Mars overcomes Venus."@,
            "Djinn are ancient elemental spirits that bond with adepts. When set in battle, they can unleash devastating summons that shake the very ground."@,
            "Vale Village was founded by Alchemy adepts who sealed a great power within the tower. But the seal weakens with each passing year. That is why the creatures grow bolder."@,
        ]
    }     else if i == 6 {
        seq![
            "Hey, hey! Are you an adept? A real one? When I grow up, I want to be just like you!"@,
            "I snuck out to the caves south of town yesterday... please don't tell my mom!"@,
            "I saw strange glowing creatures down there. One looked like a tiny spirit made of golden light — it was so pretty!"@,
            "Scholar Liam says Djinn hide in places with strong Psynergy. Maybe that's what I saw? I should tell him!"@,
            "Oh! I almost forgot — I found a weird symbol carved into the cave wall. It looked exactly like the rune on the tower door. Spooky, right?"@,
        ]
    }     else if i == 7 {
        seq![
            "The name's Garet. I've worked this forge for twenty years, ever since my old man taught me the trade."@,
            "A good blade needs strong metal and stronger will. Same goes for the adept who wields it."@,
            "The shop sells decent starter gear, but if you want real firepower, you need something forged with Psynergy ore."@,
            "If you find rare materials in the tower — elemental shards, ancient ingots — bring them to me. I can craft weapons the ancients would envy."@,
            "And keep your gear maintained! A chipped sword in the heat of battle is a death sentence."@,
        ]
    }     else if i == 8 {
        seq![
            "The stars whisper of your destiny, child of Alchemy..."@,
        ]
    }     else if i == 9 {
        seq![
            "Greetings, friend! The name's Obaba. I've traveled from lands far beyond the eastern mountains."@,
            "In the markets of Lemuria, I once saw Djinn sold in crystal cages. Barbaric, yes, but the power they granted was undeniable."@,
            "There are rare treasures hidden on the deepest floors of towers like yours — artifacts from the age of Alchemy."@,
            "I once met a merchant who sold a single potion for a thousand gold. He claimed it could bring the dead back to life. I believed him."@,
            "If you ever venture beyond Vale Village, seek the port city of Champa. Their wares make our little shop look like a market stall."@,
        ]
    }     else if i == 10 {
        seq![
            "I am Karis, a Wind Seer."@,
            "The winds call me to join your quest!"@,
            "Karis joined the party!"@,
        ]
    }     else if i == 11 {
        seq![
            "Name's Tyrell. I fight with fire!"@,
            "Let me come along. You'll need the firepower!"@,
            "Tyrell joined the party!"@,
        ]
    }     else if i == 12 {
        seq![
            "I am Amiti, an Aqua Monk."@,
            "I shall lend my healing waters to your cause."@,
            "Amiti joined the party!"@,
        ]
    } else {
        Seq::empty()
    }
}

/// The shopkeeper's stock: items, then equipment.
pub open spec fn shop_stock_spec() -> (Seq<Seq<char>>, Seq<Seq<char>>) {
    (seq!["potion"@, "antidote"@, "jupiter-hermes-water"@, "mercury-mist-elixir"@], seq!["wooden-sword"@, "wooden-axe"@, "wooden-staff"@, "short-bow"@])
}

/// Villager `i` is the `i`-th inhabitant of the village.
pub open spec fn npc_is(n: Npc, i: int) -> bool {
    &&& n.name@ == npc_name(i)
    &&& n.position == npc_position(i)
    &&& string_seq(n.dialog@) == npc_dialog(i)
    &&& (i == 1) == n.shopkeeper is Some
    &&& n.shopkeeper matches Some(s) ==> string_seq(s.items@) == shop_stock_spec().0 && string_seq(s.equipment@) == shop_stock_spec().1
    &&& match n.recruit {
        Some(u) => (i == 10 && u@ == "wind_seer"@) || (i == 11 && u@ == "flame_user"@) || (i == 12 && u@ == "aqua_monk"@),
        None => !(i == 10 || i == 11 || i == 12),
    }
    &&& n.innkeeper == (if i == 2 { Some(25u32) } else { None })
    &&& !n.elder
    &&& n.fortune_teller == (i == 8)
}

fn make_npc(
    name: &str,
    x: i32,
    y: i32,
    dialog: &[&str],
    shopkeeper: Option<ShopStock>,
    recruit: Option<&str>,
    innkeeper: Option<u32>,
    fortune_teller: bool,
) -> (n: Npc)
    ensures
        n.name@ == name@,
        n.position == (GridPosition { x, y }),
        string_seq(n.dialog@) == strs(dialog@),
        n.shopkeeper == shopkeeper,
        match recruit {
            Some(u) => n.recruit matches Some(r) && r@ == u@,
            None => n.recruit is None,
        },
        n.innkeeper == innkeeper,
        !n.elder,
        n.fortune_teller == fortune_teller,
{
    let lines = to_strings(dialog);
    assert(string_seq(lines@) =~= strs(dialog@));
    Npc {
        name: name.to_owned(),
        position: GridPosition { x, y },
        dialog: lines,
        shopkeeper,
        recruit: match recruit {
            Some(u) => Some(u.to_owned()),
            None => None,
        },
        innkeeper,
        elder: false,
        fortune_teller,
    }
}

fn shop_stock() -> (s: ShopStock)
    ensures
        string_seq(s.items@) == shop_stock_spec().0,
        string_seq(s.equipment@) == shop_stock_spec().1,
{
    let items = to_strings(&["potion", "antidote", "jupiter-hermes-water", "mercury-mist-elixir"]);
    let equipment = to_strings(&["wooden-sword", "wooden-axe", "wooden-staff", "short-bow"]);
    assert(string_seq(items@) =~= shop_stock_spec().0);
    assert(string_seq(equipment@) =~= shop_stock_spec().1);
    ShopStock { items, equipment }
}

/// Everyone who lives in the village, in the order they are placed.
pub fn overworld_npcs() -> (npcs: Vec<Npc>)
    ensures
        npcs@.len() == 13,
        forall|i: int| 0 <= i < 13 ==> npc_is(#[trigger] npcs@[i], i),
{
    let mut npcs: Vec<Npc> = Vec::new();
    let n = make_npc(
        "Elder Dora",
        10,
        12,
        &[
            "Welcome to Vale Village, young adept.",
            "The tower to the north holds great danger...",
            "But also great treasure. Prepare yourself well.",
        ],
        None,
        None,
        None,
        false,
    );
    proof {
        assert(string_seq(n.dialog@) =~= npc_dialog(0));
        assert(npc_is(n, 0));
    }
    npcs.push(n);
    let n = make_npc(
        "Shopkeeper",
        5,
        8,
        &[
            "Welcome! I just received a fresh shipment from the Angara trade route.",
            "Got potions, antidotes, and some Mercury Mist Elixirs — perfect for cleansing poison.",
            "If you're planning to brave the Tower of Trials, stock up on healing items. You'll burn through them fast.",
            "I also carry starter weapons for any new companions you recruit. Every adept needs a good blade.",
            "A word of advice: the creatures on the upper floors resist certain elements. Bring a balanced party.",
        ],
        Some(shop_stock()),
        None,
        None,
        false,
    );
    proof {
        assert(string_seq(n.dialog@) =~= npc_dialog(1));
        assert(npc_is(n, 1));
    }
    npcs.push(n);
    let n = make_npc(
        "Innkeeper",
        22,
        5,
        &[
            "Welcome to the Golden Sun Inn! You look weary. Come, sit by the fire.",
            "A traveler passed through last week, pale as a ghost. He muttered about a shadow on the tower's top floor.",
            "Some folk say there are monsters in the southern caves that haven't been seen in a hundred years.",
            "I've also heard tell of a great beast that guards the tower's deepest secret. Even the Elder won't speak of it.",
            "Rest here and I'll have your whole party feeling good as new. Your party has been fully restored!",
        ],
        None,
        None,
        Some(25),
        false,
    );
    proof {
        assert(string_seq(n.dialog@) =~= npc_dialog(2));
        assert(npc_is(n, 2));
    }
    npcs.push(n);
    let n = make_npc(
        "Guard",
        15,
        5,
        &[
            "Halt, traveler. A word of warning before you go further.",
            "The tall grass north and west of the village is crawling with wild creatures. Step in there unprepared and you won't last long.",
            "The Tower of Trials lies to the east — you can see its peak from here. Many brave souls have entered. Fewer have returned.",
            "Make sure you have Djinn equipped and your party at full strength before you stray from the roads.",
            "If you stick to the stone paths, you'll be safe. The creatures don't venture onto them.",
        ],
        None,
        None,
        None,
        false,
    );
    proof {
        assert(string_seq(n.dialog@) =~= npc_dialog(3));
        assert(npc_is(n, 3));
    }
    npcs.push(n);
    let n = make_npc(
        "Tower Guard",
        26,
        6,
        &[
            "This is the Tower of Trials, erected by the Alchemy adepts who founded Vale Village centuries ago.",
            "It was built as a proving ground — ten floors of increasing danger, each guarded by creatures that feed on Psynergy.",
            "I've watched seasoned warriors flee from the fifth floor with terror in their eyes. Something unnatural lurks there.",
            "But the rewards are real. Rare Djinn nest within, and ancient artifacts lie waiting for those strong enough to claim them.",
            "My advice? Bring a full party, stock up on potions and antidotes, and don't be ashamed to retreat if things go wrong.",
        ],
        None,
        None,
        None,
        false,
    );
    proof {
        assert(string_seq(n.dialog@) =~= npc_dialog(4));
        assert(npc_is(n, 4));
    }
    npcs.push(n);
    let n = make_npc(
        "Scholar Liam",
        10,
        18,
        &[
            "Ah, a fellow seeker of knowledge! I've devoted my life to studying the elemental arts and the history of Alchemy.",
            "There are four primal elements: Venus, the earth; Jupiter, the wind; Mercury, the water; and Mars, the flame.",
            "Each element holds dominion over another. Venus overcomes Jupiter, Jupiter overcomes Mercury, Mercury overcomes Mars, and Mars overcomes Venus.",
            "Djinn are ancient elemental spirits that bond with adepts. When set in battle, they can unleash devastating summons that shake the very ground.",
            "Vale Village was founded by Alchemy adepts who sealed a great power within the tower. But the seal weakens with each passing year. That is why the creatures grow bolder.",
        ],
        None,
        None,
        None,
        false,
    );
    proof {
        assert(string_seq(n.dialog@) =~= npc_dialog(5));
        assert(npc_is(n, 5));
    }
    npcs.push(n);
    let n = make_npc(
        "Little Mia",
        21,
        13,
        &[
            "Hey, hey! Are you an adept? A real one? When I grow up, I want to be just like you!",
            "I snuck out to the caves south of town yesterday... please don't tell my mom!",
            "I saw strange glowing creatures down there. One looked like a tiny spirit made of golden light — it was so pretty!",
            "Scholar Liam says Djinn hide in places with strong Psynergy. Maybe that's what I saw? I should tell him!",
            "Oh! I almost forgot — I found a weird symbol carved into the cave wall. It looked exactly like the rune on the tower door. Spooky, right?",
        ],
        None,
        None,
        None,
        false,
    );
    proof {
        assert(string_seq(n.dialog@) =~= npc_dialog(6));
        assert(npc_is(n, 6));
    }
    npcs.push(n);
    let n = make_npc(
        "Blacksmith",
        18,
        12,
        &[
            "The name's Garet. I've worked this forge for twenty years, ever since my old man taught me the trade.",
            "A good blade needs strong metal and stronger will. Same goes for the adept who wields it.",
            "The shop sells decent starter gear, but if you want real firepower, you need something forged with Psynergy ore.",
            "If you find rare materials in the tower — elemental shards, ancient ingots — bring them to me. I can craft weapons the ancients would envy.",
            "And keep your gear maintained! A chipped sword in the heat of battle is a death sentence.",
        ],
        None,
        None,
        None,
        false,
    );
    proof {
        assert(string_seq(n.dialog@) =~= npc_dialog(7));
        assert(npc_is(n, 7));
    }
    npcs.push(n);
    let n = make_npc(
        "Fortune Teller",
        6,
        14,
        &[
            "The stars whisper of your destiny, child of Alchemy...",
        ],
        None,
        None,
        None,
        true,
    );
    proof {
        assert(string_seq(n.dialog@) =~= npc_dialog(8));
        assert(npc_is(n, 8));
    }
    npcs.push(n);
    let n = make_npc(
        "Wandering Merchant",
        22,
        8,
        &[
            "Greetings, friend! The name's Obaba. I've traveled from lands far beyond the eastern mountains.",
            "In the markets of Lemuria, I once saw Djinn sold in crystal cages. Barbaric, yes, but the power they granted was undeniable.",
            "There are rare treasures hidden on the deepest floors of towers like yours — artifacts from the age of Alchemy.",
            "I once met a merchant who sold a single potion for a thousand gold. He claimed it could bring the dead back to life. I believed him.",
            "If you ever venture beyond Vale Village, seek the port city of Champa. Their wares make our little shop look like a market stall.",
        ],
        None,
        None,
        None,
        false,
    );
    proof {
        assert(string_seq(n.dialog@) =~= npc_dialog(9));
        assert(npc_is(n, 9));
    }
    npcs.push(n);
    let n = make_npc(
        "Karis",
        12,
        8,
        &[
            "I am Karis, a Wind Seer.",
            "The winds call me to join your quest!",
            "Karis joined the party!",
        ],
        None,
        Some("wind_seer"),
        None,
        false,
    );
    proof {
        assert(string_seq(n.dialog@) =~= npc_dialog(10));
        assert(npc_is(n, 10));
    }
    npcs.push(n);
    let n = make_npc(
        "Tyrell",
        18,
        14,
        &[
            "Name's Tyrell. I fight with fire!",
            "Let me come along. You'll need the firepower!",
            "Tyrell joined the party!",
        ],
        None,
        Some("flame_user"),
        None,
        false,
    );
    proof {
        assert(string_seq(n.dialog@) =~= npc_dialog(11));
        assert(npc_is(n, 11));
    }
    npcs.push(n);
    let n = make_npc(
        "Amiti",
        8,
        16,
        &[
            "I am Amiti, an Aqua Monk.",
            "I shall lend my healing waters to your cause.",
            "Amiti joined the party!",
        ],
        None,
        Some("aqua_monk"),
        None,
        false,
    );
    proof {
        assert(string_seq(n.dialog@) =~= npc_dialog(12));
        assert(npc_is(n, 12));
    }
    npcs.push(n);
    npcs
}

pub open spec fn elder_lines_spec(p: Party) -> Seq<Seq<char>> {
    if p.flag("tower_completed"@) {
        seq!["You have conquered the Tower! You are a true hero of Vale Village."@]
    }     else if p.flag("tower_entered"@) {
        seq!["Push deeper into the tower. Floor 5 is a turning point."@]
    }     else if p.flag("recruited_karis"@) && p.flag("recruited_tyrell"@) && p.flag("recruited_amiti"@) {
        seq!["Your party is strong! The Tower of Trials awaits to the east."@]
    } else {
        seq!["Welcome, young adept. Seek allies for your journey. Talk to the warriors nearby."@]
    }
}

/// What the Elder says, by story progress: congratulations once the tower
/// is conquered, encouragement once it is entered, directions to the tower
/// once all three allies are recruited, and otherwise advice to find allies.
pub fn elder_dialog_lines(party: &Party) -> (lines: Vec<String>)
    requires
        party.wf(),
    ensures
        string_seq(lines@) == elder_lines_spec(*party),
{
    let lines = if party.has_flag(story::TOWER_COMPLETED) {
        to_strings(&["You have conquered the Tower! You are a true hero of Vale Village."])
    } else if party.has_flag(story::TOWER_ENTERED) {
        to_strings(&["Push deeper into the tower. Floor 5 is a turning point."])
    } else if party.has_flag(story::RECRUITED_KARIS) && party.has_flag(story::RECRUITED_TYRELL) && party.has_flag(story::RECRUITED_AMITI) {
        to_strings(&["Your party is strong! The Tower of Trials awaits to the east."])
    } else {
        to_strings(&["Welcome, young adept. Seek allies for your journey. Talk to the warriors nearby."])
    };
    assert(string_seq(lines@) =~= elder_lines_spec(*party));
    lines
}

pub open spec fn fortune_lines_spec(p: Party) -> Seq<Seq<char>> {
    if p.flag("tower_completed"@) {
        seq!["The cards fall silent... the great trial is behind you."@, "But do not grow complacent. The stars reveal new shadows gathering beyond the mountains."@, "Your destiny is far from complete, child of Alchemy. Greater trials await in distant lands."@]
    }     else if p.flag("tower_floor_5"@) {
        seq!["I see darkness... a guardian of immense power bars your path on the final floors."@, "It feeds on the fear of those who challenge it. Steel your heart, or it will consume you."@, "The key to victory lies in the balance of elements. No single force can overcome it alone."@]
    }     else if p.flag("tower_entered"@) {
        seq!["The tower has tasted your resolve... and found it wanting? No — not yet."@, "I see floors yet unclimbed, enemies yet unvanquished. Press onward, but do not rush."@, "The spirits within grow restless. They sense your Psynergy. Use it wisely."@]
    }     else if p.flag("first_battle_won"@) {
        seq!["Ah, I sense the mark of battle upon you. You have tasted combat and survived."@, "The tower to the east calls to those with such strength. Its stones hum with ancient Psynergy."@, "But beware — the tower tests more than muscle. It tests the bonds between allies."@]
    }     else if p.flag("talked_to_elder"@) {
        seq!["The Elder has spoken to you... good. Her wisdom is not to be taken lightly."@, "I see companions in your future — a wind seer, a flame wielder, and a water sage."@, "Seek them out before you face the tower. Alone, even the strongest adept will falter."@]
    } else {
        seq!["Welcome, traveler... I have been expecting you. The stars told me of your coming."@, "I am a reader of fates. The Psynergy that flows through this land speaks to me in whispers."@, "Your path is shrouded in mist, but I see a great trial ahead. Speak to the Elder — she will set you on your way."@]
    }
}

/// What the Fortune Teller says, by story progress (most advanced first):
/// tower completed, floor 5 reached, tower entered, first battle won,
/// talked to the Elder, or a first meeting.
pub fn fortune_teller_dialog_lines(party: &Party) -> (lines: Vec<String>)
    requires
        party.wf(),
    ensures
        string_seq(lines@) == fortune_lines_spec(*party),
{
    let lines = if party.has_flag(story::TOWER_COMPLETED) {
        to_strings(&["The cards fall silent... the great trial is behind you.", "But do not grow complacent. The stars reveal new shadows gathering beyond the mountains.", "Your destiny is far from complete, child of Alchemy. Greater trials await in distant lands."])
    } else if party.has_flag(story::TOWER_FLOOR_5) {
        to_strings(&["I see darkness... a guardian of immense power bars your path on the final floors.", "It feeds on the fear of those who challenge it. Steel your heart, or it will consume you.", "The key to victory lies in the balance of elements. No single force can overcome it alone."])
    } else if party.has_flag(story::TOWER_ENTERED) {
        to_strings(&["The tower has tasted your resolve... and found it wanting? No — not yet.", "I see floors yet unclimbed, enemies yet unvanquished. Press onward, but do not rush.", "The spirits within grow restless. They sense your Psynergy. Use it wisely."])
    } else if party.has_flag(story::FIRST_BATTLE_WON) {
        to_strings(&["Ah, I sense the mark of battle upon you. You have tasted combat and survived.", "The tower to the east calls to those with such strength. Its stones hum with ancient Psynergy.", "But beware — the tower tests more than muscle. It tests the bonds between allies."])
    } else if party.has_flag(story::TALKED_TO_ELDER) {
        to_strings(&["The Elder has spoken to you... good. Her wisdom is not to be taken lightly.", "I see companions in your future — a wind seer, a flame wielder, and a water sage.", "Seek them out before you face the tower. Alone, even the strongest adept will falter."])
    } else {
        to_strings(&["Welcome, traveler... I have been expecting you. The stars told me of your coming.", "I am a reader of fates. The Psynergy that flows through this land speaks to me in whispers.", "Your path is shrouded in mist, but I see a great trial ahead. Speak to the Elder — she will set you on your way."])
    };
    assert(string_seq(lines@) =~= fortune_lines_spec(*party));
    lines
}

/// The roster holds `unit`.
pub open spec fn in_roster(p: Party, unit: Seq<char>) -> bool {
    string_seq(p.active@).contains(unit) || string_seq(p.bench@).contains(unit)
}

/// What a villager says when spoken to: the Elder and the Fortune Teller
/// follow story progress; an innkeeper turns away a party that cannot pay;
/// a recruit who already joined just greets; everyone else says their lines.
pub open spec fn dialog_spec(npc: Npc, p: Party) -> Seq<Seq<char>> {
    if npc.elder {
        elder_lines_spec(p)
    } else if npc.fortune_teller {
        fortune_lines_spec(p)
    } else if npc.innkeeper is Some {
        let cost = npc.innkeeper->0;
        if p.gold < cost {
            seq!["You need "@ + decimal(cost as nat) + " gold to rest here."@, "Come back when you have enough coin."@]
        } else {
            string_seq(npc.dialog@)
        }
    } else if npc.recruit is Some {
        if in_roster(p, npc.recruit->0@) {
            seq!["Welcome back! Keep fighting the good fight."@]
        } else {
            string_seq(npc.dialog@)
        }
    } else {
        string_seq(npc.dialog@)
    }
}

pub fn dialog_for_npc(npc: &Npc, party: &Party) -> (lines: Vec<String>)
    requires
        party.wf(),
    ensures
        string_seq(lines@) == dialog_spec(*npc, *party),
{
    if npc.elder {
        return elder_dialog_lines(party);
    }
    if npc.fortune_teller {
        return fortune_teller_dialog_lines(party);
    }
    match npc.innkeeper {
        Some(cost) => {
            if party.gold < cost {
                let mut first = "You need ".to_owned();
                push_decimal(&mut first, cost as u64);
                first.append(" gold to rest here.");
                let mut lines: Vec<String> = Vec::new();
                lines.push(first);
                lines.push("Come back when you have enough coin.".to_owned());
                assert(string_seq(lines@) =~= dialog_spec(*npc, *party));
                return lines;
            }
            return clone_strings(&npc.dialog);
        },
        None => {},
    }
    match &npc.recruit {
        Some(unit) => {
            if contains_str(&party.active, unit.as_str()) || contains_str(&party.bench, unit.as_str()) {
                let mut lines: Vec<String> = Vec::new();
                lines.push("Welcome back! Keep fighting the good fight.".to_owned());
                assert(string_seq(lines@) =~= dialog_spec(*npc, *party));
                return lines;
            }
            clone_strings(&npc.dialog)
        },
        None => clone_strings(&npc.dialog),
    }
}

/// The story flag recording that a unit joined.
pub open spec fn recruit_flag(unit: Seq<char>) -> Option<Seq<char>> {
    if unit == "wind_seer"@ {
        Some("recruited_karis"@)
    } else if unit == "flame_user"@ {
        Some("recruited_tyrell"@)
    } else if unit == "aqua_monk"@ {
        Some("recruited_amiti"@)
    } else {
        None
    }
}

/// `after` is `before` once `unit` has been recruited.
pub open spec fn recruit_effect(before: Party, after: Party, unit: Seq<char>) -> bool {
    &&& after.wf()
    &&& in_roster(before, unit) ==> after == before
    &&& !in_roster(before, unit) ==> {
        &&& before.active@.len() < 4 ==> string_seq(after.active@) == string_seq(before.active@).push(unit)
            && after.bench == before.bench
        &&& before.active@.len() >= 4 ==> string_seq(after.bench@) == string_seq(before.bench@).push(unit)
            && after.active == before.active
        &&& after.story_flags@ == match recruit_flag(unit) {
            Some(f) => before.story_flags@.insert(f, true),
            None => before.story_flags@,
        }
    }
    &&& in_roster(after, unit)
    &&& after.gold == before.gold
    &&& after.inventory == before.inventory
    &&& after.equipment == before.equipment
    &&& after.unit_levels == before.unit_levels
    &&& after.unit_hp_pp == before.unit_hp_pp
    &&& after.djinn_assignments == before.djinn_assignments
    &&& after.difficulty == before.difficulty
}

/// A unit joins the party: into the active line-up while it has fewer than
/// four members, onto the bench otherwise, and its story flag is set. A
/// unit already in the party changes nothing.
pub fn recruit_unit(party: &mut Party, unit_id: &str)
    requires
        old(party).wf(),
    ensures
        recruit_effect(*old(party), *final(party), unit_id@),
{
    if contains_str(&party.active, unit_id) || contains_str(&party.bench, unit_id) {
        return;
    }
    if party.active.len() < 4 {
        party.active.push(unit_id.to_owned());
        assert(string_seq(party.active@) =~= string_seq(old(party).active@).push(unit_id@));
        assert(string_seq(party.active@)[old(party).active@.len() as int] == unit_id@);
    } else {
        party.bench.push(unit_id.to_owned());
        assert(string_seq(party.bench@) =~= string_seq(old(party).bench@).push(unit_id@));
        assert(string_seq(party.bench@)[old(party).bench@.len() as int] == unit_id@);
    }
    proof {
        reveal_strlit("wind_seer");
        reveal_strlit("flame_user");
        reveal_strlit("aqua_monk");
    }
    if str_eq(unit_id, "wind_seer") {
        party.set_flag(story::RECRUITED_KARIS, true);
    } else if str_eq(unit_id, "flame_user") {
        party.set_flag(story::RECRUITED_TYRELL, true);
    } else if str_eq(unit_id, "aqua_monk") {
        party.set_flag(story::RECRUITED_AMITI, true);
    }
}

/// Recruiting never pushes the active line-up past four members.
pub proof fn lemma_recruit_keeps_lineup(before: Party, after: Party, unit: Seq<char>)
    requires
        recruit_effect(before, after, unit),
        before.active@.len() <= 4,
    ensures
        after.active@.len() <= 4,
        after.active@.len() + after.bench@.len() <= before.active@.len() + before.bench@.len() + 1,
{
    if !in_roster(before, unit) {
        if before.active@.len() < 4 {
            assert(string_seq(after.active@).len() == after.active@.len());
            assert(string_seq(after.bench@).len() == after.bench@.len());
        } else {
            assert(string_seq(after.bench@).len() == after.bench@.len());
        }
    }
}

/// Recruiting the same unit twice is the same as recruiting it once.
pub proof fn lemma_recruit_idempotent(p0: Party, p1: Party, p2: Party, unit: Seq<char>)
    requires
        recruit_effect(p0, p1, unit),
        recruit_effect(p1, p2, unit),
    ensures
        p2 == p1,
{
}

/// Full health of a unit at its recorded level: (max HP, max PP).
pub open spec fn full_health(data: GameData, p: Party, unit: Seq<char>) -> (int, int) {
    let d = data.units@[unit];
    let l = unit_level_spec(p, unit);
    (stat_at(d.base_hp, d.growth.hp, l), stat_at(d.base_pp, d.growth.pp, l))
}

/// Full health follows the unit's growth: at level 1 (or with no recorded
/// level) it is the definition's base HP and PP, and each further level
/// adds the definition's HP and PP growth once.
pub proof fn lemma_full_health_grows_by_level(data: GameData, p: Party, q: Party, unit: Seq<char>)
    requires
        data.units@.contains_key(unit),
    ensures
        (!p.unit_levels@.contains_key(unit) || p.unit_levels@[unit].0 == 1) ==> full_health(data, p, unit)
            == (data.units@[unit].base_hp as int, data.units@[unit].base_pp as int),
        (p.unit_levels@.contains_key(unit) && q.unit_levels@.contains_key(unit)
            && q.unit_levels@[unit].0 == p.unit_levels@[unit].0 + 1) ==> {
            &&& full_health(data, q, unit).0 == full_health(data, p, unit).0 + data.units@[unit].growth.hp
            &&& full_health(data, q, unit).1 == full_health(data, p, unit).1 + data.units@[unit].growth.pp
        },
{
    let d = data.units@[unit];
    if !p.unit_levels@.contains_key(unit) || p.unit_levels@[unit].0 == 1 {
        let l = unit_level_spec(p, unit) as int;
        assert(l == 1);
        assert(d.growth.hp * (l - 1) == 0) by (nonlinear_arith)
            requires
                l == 1,
        ;
        assert(d.growth.pp * (l - 1) == 0) by (nonlinear_arith)
            requires
                l == 1,
        ;
    }
    if p.unit_levels@.contains_key(unit) && q.unit_levels@.contains_key(unit)
        && q.unit_levels@[unit].0 == p.unit_levels@[unit].0 + 1 {
        let l = p.unit_levels@[unit].0 as int;
        assert(d.growth.hp * (l + 1 - 1) == d.growth.hp * (l - 1) + d.growth.hp) by (nonlinear_arith);
        assert(d.growth.pp * (l + 1 - 1) == d.growth.pp * (l - 1) + d.growth.pp) by (nonlinear_arith);
    }
}

/// Every defined member's full health fits the stored integers.
pub open spec fn heal_fits(data: GameData, p: Party) -> bool {
    forall|u: Seq<char>| #[trigger] roster(p).contains(u) && data.units@.contains_key(u) ==> {
        let (hp, pp) = full_health(data, p, u);
        i32::MIN <= hp <= i32::MAX && i32::MIN <= pp <= i32::MAX
    }
}

/// The party rests at an inn: if it can pay, the gold is taken and every
/// member with a definition is restored to the full HP and PP of its level.
pub fn rest_at_inn(party: &mut Party, data: &GameData, cost: u32) -> (paid: bool)
    requires
        old(party).wf(),
        data.wf(),
        heal_fits(*data, *old(party)),
        old(party).active@.len() + old(party).bench@.len() <= usize::MAX,
    ensures
        final(party).wf(),
        paid == (old(party).gold >= cost),
        !paid ==> *final(party) == *old(party),
        paid ==> {
            &&& final(party).gold == old(party).gold - cost
            &&& forall|u: Seq<char>| #[trigger] roster(*old(party)).contains(u) && data.units@.contains_key(u) ==> {
                &&& final(party).unit_hp_pp@.contains_key(u)
                &&& final(party).unit_hp_pp@[u].0 == full_health(*data, *old(party), u).0
                &&& final(party).unit_hp_pp@[u].1 == full_health(*data, *old(party), u).1
            }
            &&& forall|u: Seq<char>| !(roster(*old(party)).contains(u) && data.units@.contains_key(u)) ==> {
                &&& (#[trigger] final(party).unit_hp_pp@.contains_key(u)) == old(party).unit_hp_pp@.contains_key(u)
                &&& final(party).unit_hp_pp@[u] == old(party).unit_hp_pp@[u]
            }
        },
        final(party).active == old(party).active,
        final(party).bench == old(party).bench,
        final(party).inventory == old(party).inventory,
        final(party).equipment == old(party).equipment,
        final(party).unit_levels == old(party).unit_levels,
        final(party).story_flags == old(party).story_flags,
        final(party).djinn_assignments == old(party).djinn_assignments,
        final(party).difficulty == old(party).difficulty,
{
    if party.gold < cost {
        return false;
    }
    let ghost pre = *party;
    party.gold = party.gold - cost;
    let ghost r = roster(pre);
    let na = party.active.len();
    let nb = party.bench.len();
    let mut k: usize = 0;
    while k < na + nb
        invariant
            party.wf(),
            data.wf(),
            na == pre.active@.len(),
            nb == pre.bench@.len(),
            party.active == pre.active,
            party.bench == pre.bench,
            party.unit_levels == pre.unit_levels,
            party.gold == pre.gold - cost,
            party.inventory == pre.inventory,
            party.equipment == pre.equipment,
            party.story_flags == pre.story_flags,
            party.djinn_assignments == pre.djinn_assignments,
            party.difficulty == pre.difficulty,
            r == roster(pre),
            r.len() == na + nb,
            na + nb <= usize::MAX,
            heal_fits(*data, pre),
            k <= na + nb,
            forall|u: Seq<char>| #[trigger] r.take(k as int).contains(u) && data.units@.contains_key(u) ==> {
                &&& party.unit_hp_pp@.contains_key(u)
                &&& party.unit_hp_pp@[u].0 == full_health(*data, pre, u).0
                &&& party.unit_hp_pp@[u].1 == full_health(*data, pre, u).1
            },
            forall|u: Seq<char>| !(r.take(k as int).contains(u) && data.units@.contains_key(u)) ==> {
                &&& (#[trigger] party.unit_hp_pp@.contains_key(u)) == pre.unit_hp_pp@.contains_key(u)
                &&& party.unit_hp_pp@[u] == pre.unit_hp_pp@[u]
            },
        decreases na + nb - k,
    {
        let unit_id = if k < na {
            party.active[k].clone()
        } else {
            party.bench[k - na].clone()
        };
        proof {
            assert(unit_id@ == r[k as int]);
            assert(r.take(k + 1) =~= r.take(k as int).push(unit_id@));
            assert(r.contains(unit_id@));
        }
        let ghost before = party.unit_hp_pp@;
        match data.units.get(unit_id.as_str()) {
            Some(def) => {
                let level = match party.unit_levels.get(unit_id.as_str()) {
                    Some(v) => v.0,
                    None => 1,
                };
                let gained: i64 = level as i64 - 1;
                proof {
                    assert(full_health(*data, pre, unit_id@).0 == def.base_hp + def.growth.hp * gained);
                    assert(-2147483648 * 254 <= def.growth.hp * gained <= 2147483647 * 254) by (nonlinear_arith)
                        requires
                            -1 <= gained <= 254,
                            -2147483648 <= def.growth.hp <= 2147483647,
                    ;
                    assert(-2147483648 * 254 <= def.growth.pp * gained <= 2147483647 * 254) by (nonlinear_arith)
                        requires
                            -1 <= gained <= 254,
                            -2147483648 <= def.growth.pp <= 2147483647,
                    ;
                }
                let max_hp = (def.base_hp as i64 + def.growth.hp as i64 * gained) as i32;
                let max_pp = (def.base_pp as i64 + def.growth.pp as i64 * gained) as i32;
                party.unit_hp_pp.insert(unit_id.as_str(), (max_hp, max_pp));
            },
            None => {},
        }
        proof {
            assert forall|u: Seq<char>| u != unit_id@ implies (#[trigger] party.unit_hp_pp@.contains_key(u)) == before.contains_key(u)
                && party.unit_hp_pp@[u] == before[u] by {}
            assert forall|u: Seq<char>| #[trigger] r.take(k + 1).contains(u) && data.units@.contains_key(u) implies {
                &&& party.unit_hp_pp@.contains_key(u)
                &&& party.unit_hp_pp@[u].0 == full_health(*data, pre, u).0
                &&& party.unit_hp_pp@[u].1 == full_health(*data, pre, u).1
            } by {
                if u != unit_id@ {
                    assert(r.take(k as int).contains(u));
                }
            }
            assert forall|u: Seq<char>| !(r.take(k + 1).contains(u) && data.units@.contains_key(u)) implies {
                &&& (#[trigger] party.unit_hp_pp@.contains_key(u)) == pre.unit_hp_pp@.contains_key(u)
                &&& party.unit_hp_pp@[u] == pre.unit_hp_pp@[u]
            } by {
                if u == unit_id@ {
                    assert(r.take(k + 1)[k as int] == u);
                    assert(r.take(k + 1).contains(u));
                    assert(!data.units@.contains_key(u));
                } else {
                    if r.take(k as int).contains(u) {
                        assert(r.take(k + 1).contains(u));
                    }
                    assert(!(r.take(k as int).contains(u) && data.units@.contains_key(u)));
                    assert(before.contains_key(u) == pre.unit_hp_pp@.contains_key(u));
                    assert(party.unit_hp_pp@.contains_key(u) == before.contains_key(u));
                }
            }
        }
        k = k + 1;
    }
    assert(r.take(k as int) =~= r);
    true
}

/// A unit's full health at its recorded level fits the stored integers.
pub open spec fn unit_heal_fits(data: GameData, p: Party, u: Seq<char>) -> bool {
    data.units@.contains_key(u) ==> {
        let (hp, pp) = full_health(data, p, u);
        i32::MIN <= hp <= i32::MAX && i32::MIN <= pp <= i32::MAX
    }
}

/// The unit a conversation adds to party `p`: its recruit, unless already
/// in the party.
pub open spec fn joiner(npc: Npc, p: Party) -> Option<Seq<char>> {
    match npc.recruit {
        Some(u) => if in_roster(p, u@) {
            None
        } else {
            Some(u@)
        },
        None => None,
    }
}

/// The story flags after a conversation with `npc`: the Elder records the
/// talk, and a unit that joins records its recruitment.
pub open spec fn dialog_flags(npc: Npc, p: Party) -> Map<Seq<char>, bool> {
    let f = if npc.elder {
        p.story_flags@.insert("talked_to_elder"@, true)
    } else {
        p.story_flags@
    };
    match joiner(npc, p) {
        Some(u) => match recruit_flag(u) {
            Some(flag) => f.insert(flag, true),
            None => f,
        },
        None => f,
    }
}

/// The innkeeper's fee is paid: `npc` is an innkeeper and the party has the
/// gold.
pub open spec fn inn_paid(npc: Npc, p: Party) -> bool {
    npc.innkeeper matches Some(cost) && p.gold >= cost
}

/// `after` is `before` once a conversation with `npc` is over, each of the
/// villager's roles taking effect in turn: the Elder sets the flag that the
/// party talked to her; a recruit not yet in the party joins (active while
/// fewer than four are active, else the bench) and its story flag is set;
/// an innkeeper whose fee the party can pay takes it and restores every
/// member with a definition, the recruit included, to the full HP and PP
/// of its level. Items, equipment, levels, djinn and difficulty stay.
pub open spec fn dialog_effect(npc: Npc, data: GameData, before: Party, after: Party) -> bool {
    &&& after.wf()
    &&& after.story_flags@ == dialog_flags(npc, before)
    &&& match joiner(npc, before) {
        Some(u) => if before.active@.len() < 4 {
            string_seq(after.active@) == string_seq(before.active@).push(u) && after.bench == before.bench
        } else {
            string_seq(after.bench@) == string_seq(before.bench@).push(u) && after.active == before.active
        },
        None => after.active == before.active && after.bench == before.bench,
    }
    &&& (npc.recruit matches Some(u) ==> in_roster(after, u@))
    &&& inn_paid(npc, before) ==> {
        &&& after.gold == before.gold - npc.innkeeper->0
        &&& forall|u: Seq<char>| #[trigger] roster(after).contains(u) && data.units@.contains_key(u) ==> {
            &&& after.unit_hp_pp@.contains_key(u)
            &&& after.unit_hp_pp@[u].0 == full_health(data, after, u).0
            &&& after.unit_hp_pp@[u].1 == full_health(data, after, u).1
        }
        &&& forall|u: Seq<char>| !(roster(after).contains(u) && data.units@.contains_key(u)) ==> {
            &&& (#[trigger] after.unit_hp_pp@.contains_key(u)) == before.unit_hp_pp@.contains_key(u)
            &&& after.unit_hp_pp@[u] == before.unit_hp_pp@[u]
        }
    }
    &&& !inn_paid(npc, before) ==> after.gold == before.gold && after.unit_hp_pp == before.unit_hp_pp
    &&& after.inventory == before.inventory
    &&& after.equipment == before.equipment
    &&& after.unit_levels == before.unit_levels
    &&& after.djinn_assignments == before.djinn_assignments
    &&& after.difficulty == before.difficulty
}

/// A recruit adds at most itself to the roster and drops no one.
proof fn lemma_recruit_roster(before: Party, after: Party, unit: Seq<char>, v: Seq<char>)
    requires
        recruit_effect(before, after, unit),
    ensures
        roster(after).contains(v) ==> roster(before).contains(v) || v == unit,
        roster(before).contains(v) ==> roster(after).contains(v),
        roster(after).len() <= roster(before).len() + 1,
{
    let a0 = string_seq(before.active@);
    let b0 = string_seq(before.bench@);
    let a1 = string_seq(after.active@);
    let b1 = string_seq(after.bench@);
    assert(roster(before) =~= a0 + b0);
    assert(roster(after) =~= a1 + b1);
    if !in_roster(before, unit) {
        if before.active@.len() < 4 {
            assert(roster(after) =~= a0.push(unit) + b0);
            if roster(after).contains(v) {
                let i = choose|i: int| 0 <= i < roster(after).len() && roster(after)[i] == v;
                if i < a0.len() {
                    assert(roster(before)[i] == v);
                } else if i > a0.len() {
                    assert(roster(before)[i - 1] == v);
                }
            }
            if roster(before).contains(v) {
                let i = choose|i: int| 0 <= i < roster(before).len() && roster(before)[i] == v;
                if i < a0.len() {
                    assert(roster(after)[i] == v);
                } else {
                    assert(roster(after)[i + 1] == v);
                }
            }
        } else {
            assert(roster(after) =~= (a0 + b0).push(unit));
            if roster(after).contains(v) {
                let i = choose|i: int| 0 <= i < roster(after).len() && roster(after)[i] == v;
                if i < roster(before).len() {
                    assert(roster(before)[i] == v);
                }
            }
            if roster(before).contains(v) {
                let i = choose|i: int| 0 <= i < roster(before).len() && roster(before)[i] == v;
                assert(roster(after)[i] == v);
            }
        }
    }
}

/// The effects of finishing a conversation: the Elder records that the
/// party talked to her, a shopkeeper opens the shop with their stock, a
/// recruit joins, an innkeeper heals the party for a fee; a villager with
/// several roles has each effect, in that order. Returns the next screen
/// when the conversation opens one.
pub fn finish_dialog(npc: &Npc, party: &mut Party, data: &GameData, current_shop: &mut CurrentShop) -> (next: Option<GameState>)
    requires
        old(party).wf(),
        data.wf(),
        npc.innkeeper is Some ==> heal_fits(*data, *old(party)),
        npc.innkeeper is Some && npc.recruit is Some ==> unit_heal_fits(*data, *old(party), npc.recruit->0@),
        old(party).active@.len() + old(party).bench@.len() <= usize::MAX,
        npc.innkeeper is Some && npc.recruit is Some ==> old(party).active@.len() + old(party).bench@.len() < usize::MAX,
    ensures
        dialog_effect(*npc, *data, *old(party), *final(party)),
        next == (if npc.shopkeeper is Some { Some(GameState::Shop) } else { None }),
        npc.shopkeeper matches Some(s) ==> string_seq(final(current_shop).items@) == string_seq(s.items@)
            && string_seq(final(current_shop).equipment@) == string_seq(s.equipment@),
        npc.shopkeeper is None ==> *final(current_shop) == *old(current_shop),
        !npc.elder && npc.recruit is None && npc.innkeeper is None ==> *final(party) == *old(party),
{
    let ghost p0 = *party;
    let mut next: Option<GameState> = None;
    if npc.elder {
        party.set_flag(story::TALKED_TO_ELDER, true);
    }
    let ghost p1 = *party;
    assert(roster(p1) == roster(p0));
    match &npc.shopkeeper {
        Some(stock) => {
            current_shop.items = clone_strings(&stock.items);
            current_shop.equipment = clone_strings(&stock.equipment);
            next = Some(GameState::Shop);
        },
        None => {},
    }
    match &npc.recruit {
        Some(unit) => {
            recruit_unit(party, unit.as_str());
        },
        None => {},
    }
    let ghost p2 = *party;
    proof {
        if npc.recruit is Some {
            let u = npc.recruit->0@;
            assert(in_roster(p1, u) == in_roster(p0, u));
            assert forall|v: Seq<char>| roster(p2).contains(v) implies roster(p0).contains(v) || v == u by {
                lemma_recruit_roster(p1, p2, u, v);
            }
            lemma_recruit_roster(p1, p2, u, u);
            assert(roster(p2).len() == p2.active@.len() + p2.bench@.len());
            assert(roster(p1).len() == p1.active@.len() + p1.bench@.len());
        } else {
            assert(p2 == p1);
        }
        if npc.innkeeper is Some {
            assert forall|v: Seq<char>| #[trigger] roster(p2).contains(v) && data.units@.contains_key(v) implies {
                let (hp, pp) = full_health(*data, p2, v);
                i32::MIN <= hp <= i32::MAX && i32::MIN <= pp <= i32::MAX
            } by {
                if roster(p0).contains(v) {
                } else {
                    assert(v == npc.recruit->0@);
                }
            }
        }
    }
    match npc.innkeeper {
        Some(cost) => {
            let _ = rest_at_inn(party, data, cost);
        },
        None => {},
    }
    proof {
        assert(roster(*party) == roster(p2));
    }
    next
}

/// A conversation in progress.
pub struct DialogState {
    pub active: bool,
    pub lines: Vec<String>,
    pub current_line: usize,
    pub speaker: String,
    /// Which villager is speaking (an index into the villager list).
    pub speaker_entity: Option<usize>,
}

impl Default for DialogState {
    fn default() -> (d: Self)
        ensures
            !d.active,
            d.lines@.len() == 0,
            d.current_line == 0,
            d.speaker@ == Seq::<char>::empty(),
            d.speaker_entity is None,
    {
        DialogState { active: false, lines: Vec::new(), current_line: 0, speaker: String::new(), speaker_entity: None }
    }
}

/// Where a facing direction points from the player.
#[derive(Clone, Copy, Debug, PartialEq, Eq, Structural)]
pub enum Facing {
    Up,
    Down,
    Left,
    Right,
}

pub open spec fn facing_offset(f: Facing) -> (int, int) {
    match f {
        Facing::Up => (0, -1),
        Facing::Down => (0, 1),
        Facing::Left => (-1, 0),
        Facing::Right => (1, 0),
    }
}

/// The first villager standing on the tile the player faces.
pub fn interact_target(npcs: &Vec<Npc>, player: GridPosition, facing: Facing) -> (r: Option<usize>)
    requires
        i32::MIN < player.x < i32::MAX,
        i32::MIN < player.y < i32::MAX,
    ensures
        match r {
            Some(i) => i < npcs@.len() && npcs@[i as int].position.x == player.x + facing_offset(facing).0
                && npcs@[i as int].position.y == player.y + facing_offset(facing).1
                && forall|k: int| 0 <= k < i ==> !(npcs@[k].position.x == player.x + facing_offset(facing).0
                    && npcs@[k].position.y == player.y + facing_offset(facing).1),
            None => forall|k: int| 0 <= k < npcs@.len() ==> !(npcs@[k].position.x == player.x + facing_offset(facing).0
                && npcs@[k].position.y == player.y + facing_offset(facing).1),
        },
{
    let (fx, fy): (i32, i32) = match facing {
        Facing::Up => (0, -1),
        Facing::Down => (0, 1),
        Facing::Left => (-1, 0),
        Facing::Right => (1, 0),
    };
    let tx = player.x + fx;
    let ty = player.y + fy;
    let mut i: usize = 0;
    while i < npcs.len()
        invariant
            i <= npcs@.len(),
            tx == player.x + facing_offset(facing).0,
            ty == player.y + facing_offset(facing).1,
            forall|k: int| 0 <= k < i ==> !(npcs@[k].position.x == tx && npcs@[k].position.y == ty),
        decreases npcs@.len() - i,
    {
        if npcs[i].position.x == tx && npcs[i].position.y == ty {
            return Some(i);
        }
        i = i + 1;
    }
    None
}

/// Opens a conversation with villager `index`.
pub fn start_dialog(dialog: &mut DialogState, npcs: &Vec<Npc>, index: usize, party: &Party)
    requires
        index < npcs@.len(),
        party.wf(),
    ensures
        final(dialog).active,
        final(dialog).speaker@ == npcs@[index as int].name@,
        final(dialog).speaker_entity == Some(index),
        final(dialog).current_line == 0,
        string_seq(final(dialog).lines@) == dialog_spec(npcs@[index as int], *party),
{
    dialog.active = true;
    dialog.speaker = npcs[index].name.clone();
    dialog.speaker_entity = Some(index);
    dialog.current_line = 0;
    dialog.lines = dialog_for_npc(&npcs[index], party);
}

/// The dialog box text for the current line: "speaker: line".
pub fn dialog_text(dialog: &DialogState) -> (s: String)
    requires
        dialog.current_line < dialog.lines@.len(),
    ensures
        s@ == dialog.speaker@ + ": "@ + dialog.lines@[dialog.current_line as int]@,
{
    let mut s = concat2(dialog.speaker.as_str(), ": ");
    s.append(dialog.lines[dialog.current_line].as_str());
    s
}

/// Moves to the next line. When the lines run out the conversation ends
/// and the speaker is handed back, so that its effects can be applied.
pub fn advance_dialog(dialog: &mut DialogState) -> (finished: Option<Option<usize>>)
    requires
        old(dialog).current_line < usize::MAX,
    ensures
        final(dialog).current_line == old(dialog).current_line + 1,
        final(dialog).lines == old(dialog).lines,
        final(dialog).speaker == old(dialog).speaker,
        old(dialog).current_line + 1 >= old(dialog).lines@.len() ==> {
            &&& finished == Some(old(dialog).speaker_entity)
            &&& !final(dialog).active
            &&& final(dialog).speaker_entity is None
        },
        old(dialog).current_line + 1 < old(dialog).lines@.len() ==> {
            &&& finished is None
            &&& final(dialog).active == old(dialog).active
            &&& final(dialog).speaker_entity == old(dialog).speaker_entity
        },
{
    dialog.current_line = dialog.current_line + 1;
    if dialog.current_line >= dialog.lines.len() {
        dialog.active = false;
        let speaker = dialog.speaker_entity;
        dialog.speaker_entity = None;
        return Some(speaker);
    }
    None
}

/// The sprite shown for a villager, by name.
pub open spec fn npc_sprite_spec(name: Seq<char>) -> Option<Seq<char>> {
    if name == "Karis"@ {
        Some("karis"@)
    } else if name == "Tyrell"@ {
        Some("tyrell"@)
    } else if name == "Amiti"@ {
        Some("mystic"@)
    } else if name == "Elder Dora"@ {
        Some("sentinel"@)
    } else if name == "Shopkeeper"@ {
        Some("ranger"@)
    } else if name == "Innkeeper"@ {
        Some("ranger"@)
    } else if name == "Guard"@ {
        Some("sentinel"@)
    } else if name == "Tower Guard"@ {
        Some("sentinel"@)
    } else if name == "Scholar Liam"@ {
        Some("mystic"@)
    } else if name == "Little Mia"@ {
        Some("karis"@)
    } else if name == "Blacksmith"@ {
        Some("war-mage"@)
    } else if name == "Fortune Teller"@ {
        Some("stormcaller"@)
    } else if name == "Wandering Merchant"@ {
        Some("ranger"@)
    } else {
        None
    }
}

/// Maps a villager's name to the unit sprite it borrows, if any.
pub fn npc_sprite_key(npc_name: &str) -> (r: Option<&'static str>)
    ensures
        match r {
            Some(k) => npc_sprite_spec(npc_name@) == Some(k@),
            None => npc_sprite_spec(npc_name@) is None,
        },
{
    if str_eq(npc_name, "Karis") {
        Some("karis")
    } else if str_eq(npc_name, "Tyrell") {
        Some("tyrell")
    } else if str_eq(npc_name, "Amiti") {
        Some("mystic")
    } else if str_eq(npc_name, "Elder Dora") {
        Some("sentinel")
    } else if str_eq(npc_name, "Shopkeeper") {
        Some("ranger")
    } else if str_eq(npc_name, "Innkeeper") {
        Some("ranger")
    } else if str_eq(npc_name, "Guard") {
        Some("sentinel")
    } else if str_eq(npc_name, "Tower Guard") {
        Some("sentinel")
    } else if str_eq(npc_name, "Scholar Liam") {
        Some("mystic")
    } else if str_eq(npc_name, "Little Mia") {
        Some("karis")
    } else if str_eq(npc_name, "Blacksmith") {
        Some("war-mage")
    } else if str_eq(npc_name, "Fortune Teller") {
        Some("stormcaller")
    } else if str_eq(npc_name, "Wandering Merchant") {
        Some("ranger")
    } else {
        None
    }
}

} // verus!
