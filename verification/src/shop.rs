//! The shop: buying from the shop's stock and selling from the inventory.

use crate::core_plugin::{GameState, Party};
use crate::data::GameData;
use crate::text::{concat2, decimal, first_index, is_first_index, position_of, push_decimal, string_seq};
use vstd::prelude::*;
use vstd::string::StringExecFns;

verus! {

broadcast use vstd::string::group_string_axioms;

/// What the shop the player is visiting sells.
pub struct CurrentShop {
    pub items: Vec<String>,
    pub equipment: Vec<String>,
}

impl Default for CurrentShop {
    fn default() -> (s: Self)
        ensures
            s.items@.len() == 0,
            s.equipment@.len() == 0,
    {
        CurrentShop { items: Vec::new(), equipment: Vec::new() }
    }
}

#[derive(Clone, Copy, Debug, PartialEq, Eq, Structural)]
pub enum ShopTab {
    Buy,
    Sell,
}

/// A line of the shop list: the ID traded, its display name and its price.
pub struct ShopEntry {
    pub id: String,
    pub name: String,
    pub price: u32,
}

pub open spec fn entry_view(e: ShopEntry) -> (Seq<char>, Seq<char>, u32) {
    (e.id@, e.name@, e.price)
}

pub open spec fn entries_view(v: Seq<ShopEntry>) -> Seq<(Seq<char>, Seq<char>, u32)> {
    v.map_values(|e: ShopEntry| entry_view(e))
}

pub open spec fn buy_item(data: GameData) -> spec_fn(String) -> Option<(Seq<char>, Seq<char>, u32)> {
    |id: String|
        if data.items@.contains_key(id@) {
            Some((data.items@[id@].id@, data.items@[id@].name@, data.items@[id@].cost))
        } else {
            None
        }
}

pub open spec fn buy_equipment(data: GameData) -> spec_fn(String) -> Option<(Seq<char>, Seq<char>, u32)> {
    |id: String|
        if data.equipment@.contains_key(id@) {
            Some((data.equipment@[id@].id@, data.equipment@[id@].name@, data.equipment@[id@].cost))
        } else {
            None
        }
}

/// The buy list: the shop's items then its equipment, leaving out IDs that
/// have no definition, each at its full cost.
pub open spec fn buy_entries_spec(shop: CurrentShop, data: GameData) -> Seq<(Seq<char>, Seq<char>, u32)> {
    shop.items@.filter_map(buy_item(data)) + shop.equipment@.filter_map(buy_equipment(data))
}

/// The sell line for an owned ID: half its cost, under its item or
/// equipment name, or as an unknown item worth nothing.
pub open spec fn sell_entry_spec(data: GameData, id: Seq<char>) -> (Seq<char>, Seq<char>, u32) {
    if data.items@.contains_key(id) {
        (id, data.items@[id].name@, data.items@[id].cost / 2)
    } else if data.equipment@.contains_key(id) {
        (id, data.equipment@[id].name@, data.equipment@[id].cost / 2)
    } else {
        (id, "Unknown ("@ + id + ")"@, 0)
    }
}

/// The cost of an owned ID's definition: its item's cost, else its
/// equipment's cost, else nothing.
pub open spec fn owned_cost(data: GameData, id: Seq<char>) -> int {
    if data.items@.contains_key(id) {
        data.items@[id].cost as int
    } else if data.equipment@.contains_key(id) {
        data.equipment@[id].cost as int
    } else {
        0
    }
}

/// Selling pays half of what the item or equipment costs, rounded down:
/// twice the price never exceeds the cost, and falls short of it by at most
/// one gold. An ID without a definition sells for nothing.
pub proof fn lemma_sell_price_is_half_cost(data: GameData, id: Seq<char>)
    ensures
        sell_entry_spec(data, id).2 * 2 <= owned_cost(data, id) < sell_entry_spec(data, id).2 * 2 + 2,
        !data.items@.contains_key(id) && !data.equipment@.contains_key(id) ==> sell_entry_spec(data, id).2 == 0,
{
}

/// The sell list: one line per inventory entry, in inventory order.
pub open spec fn sell_entries_spec(party: Party, data: GameData) -> Seq<(Seq<char>, Seq<char>, u32)> {
    party.inventory@.map_values(|id: String| sell_entry_spec(data, id@))
}

fn filter_items(ids: &Vec<String>, data: &GameData, entries: &mut Vec<ShopEntry>)
    requires
        data.wf(),
    ensures
        entries_view(final(entries)@) == entries_view(old(entries)@) + ids@.filter_map(buy_item(*data)),
{
    let ghost start = entries_view(entries@);
    let mut i: usize = 0;
    while i < ids.len()
        invariant
            data.wf(),
            i <= ids@.len(),
            entries_view(entries@) == start + ids@.take(i as int).filter_map(buy_item(*data)),
        decreases ids@.len() - i,
    {
        proof {
            assert(ids@.take(i + 1).drop_last() =~= ids@.take(i as int));
            assert(ids@.take(i + 1).last() == ids@[i as int]);
        }
        let ghost f = buy_item(*data);
        let ghost before = entries_view(entries@);
        match data.items.get(ids[i].as_str()) {
            Some(def) => {
                let e = ShopEntry { id: def.id.clone(), name: def.name.clone(), price: def.cost };
                proof {
                    assert(f(ids@[i as int]) == Some(entry_view(e)));
                    assert(ids@.take(i + 1).filter_map(f) =~= ids@.take(i as int).filter_map(f) + seq![entry_view(e)]);
                }
                entries.push(e);
                assert(entries_view(entries@) =~= before.push(entry_view(e)));
            },
            None => {
                assert(f(ids@[i as int]) is None);
                assert(ids@.take(i + 1).filter_map(f) =~= ids@.take(i as int).filter_map(f));
            },
        }
        i = i + 1;
    }
    assert(ids@.take(i as int) =~= ids@);
}

fn filter_equipment(ids: &Vec<String>, data: &GameData, entries: &mut Vec<ShopEntry>)
    requires
        data.wf(),
    ensures
        entries_view(final(entries)@) == entries_view(old(entries)@) + ids@.filter_map(buy_equipment(*data)),
{
    let ghost start = entries_view(entries@);
    let mut i: usize = 0;
    while i < ids.len()
        invariant
            data.wf(),
            i <= ids@.len(),
            entries_view(entries@) == start + ids@.take(i as int).filter_map(buy_equipment(*data)),
        decreases ids@.len() - i,
    {
        proof {
            assert(ids@.take(i + 1).drop_last() =~= ids@.take(i as int));
            assert(ids@.take(i + 1).last() == ids@[i as int]);
        }
        let ghost f = buy_equipment(*data);
        let ghost before = entries_view(entries@);
        match data.equipment.get(ids[i].as_str()) {
            Some(def) => {
                let e = ShopEntry { id: def.id.clone(), name: def.name.clone(), price: def.cost };
                proof {
                    assert(f(ids@[i as int]) == Some(entry_view(e)));
                    assert(ids@.take(i + 1).filter_map(f) =~= ids@.take(i as int).filter_map(f) + seq![entry_view(e)]);
                }
                entries.push(e);
                assert(entries_view(entries@) =~= before.push(entry_view(e)));
            },
            None => {
                assert(f(ids@[i as int]) is None);
                assert(ids@.take(i + 1).filter_map(f) =~= ids@.take(i as int).filter_map(f));
            },
        }
        i = i + 1;
    }
    assert(ids@.take(i as int) =~= ids@);
}

/// The shop's buy list.
pub fn build_buy_entries(shop: &CurrentShop, data: &GameData) -> (r: Vec<ShopEntry>)
    requires
        data.wf(),
    ensures
        entries_view(r@) == buy_entries_spec(*shop, *data),
{
    let mut entries: Vec<ShopEntry> = Vec::new();
    assert(entries_view(entries@) =~= Seq::empty());
    filter_items(&shop.items, data, &mut entries);
    filter_equipment(&shop.equipment, data, &mut entries);
    assert(entries_view(entries@) =~= buy_entries_spec(*shop, *data));
    entries
}

fn sell_entry(id: &String, data: &GameData) -> (e: ShopEntry)
    requires
        data.wf(),
    ensures
        entry_view(e) == sell_entry_spec(*data, id@),
{
    match data.items.get(id.as_str()) {
        Some(def) => ShopEntry { id: id.clone(), name: def.name.clone(), price: def.cost / 2 },
        None => match data.equipment.get(id.as_str()) {
            Some(def) => ShopEntry { id: id.clone(), name: def.name.clone(), price: def.cost / 2 },
            None => {
                let mut name = "Unknown (".to_owned();
                name.append(id.as_str());
                name.append(")");
                ShopEntry { id: id.clone(), name, price: 0 }
            },
        },
    }
}

/// The sell list for the party's inventory.
pub fn build_sell_entries(party: &Party, data: &GameData) -> (r: Vec<ShopEntry>)
    requires
        data.wf(),
    ensures
        entries_view(r@) == sell_entries_spec(*party, *data),
{
    let mut entries: Vec<ShopEntry> = Vec::new();
    let mut i: usize = 0;
    while i < party.inventory.len()
        invariant
            data.wf(),
            i <= party.inventory@.len(),
            entries_view(entries@) == party.inventory@.take(i as int).map_values(|id: String| sell_entry_spec(*data, id@)),
        decreases party.inventory@.len() - i,
    {
        let ghost before = entries_view(entries@);
        let e = sell_entry(&party.inventory[i], data);
        entries.push(e);
        proof {
            let f = |id: String| sell_entry_spec(*data, id@);
            assert(entries_view(entries@) =~= before.push(entry_view(e)));
            assert(party.inventory@.take(i + 1).map_values(f) =~= party.inventory@.take(i as int).map_values(f).push(f(party.inventory@[i as int])));
        }
        i = i + 1;
    }
    assert(party.inventory@.take(i as int) =~= party.inventory@);
    entries
}

/// Cursor, message and tab of the shop screen.
pub struct ShopState {
    pub tab: ShopTab,
    pub cursor: usize,
    pub message: String,
    /// Milliseconds the message stays on screen.
    pub message_timer: u32,
    pub message_is_error: bool,
}

impl Default for ShopState {
    fn default() -> (s: Self)
        ensures
            s.tab == ShopTab::Buy,
            s.cursor == 0,
            s.message@ == Seq::<char>::empty(),
            s.message_timer == 0,
            !s.message_is_error,
    {
        ShopState { tab: ShopTab::Buy, cursor: 0, message: String::new(), message_timer: 0, message_is_error: false }
    }
}

/// Keys pressed on this frame.
#[derive(Clone, Copy, Debug, PartialEq, Eq, Structural)]
pub struct ShopKeys {
    pub escape: bool,
    pub tab: bool,
    pub up: bool,
    pub down: bool,
    pub enter: bool,
}

/// Cursor after an up or down press in a list of `count` lines, wrapping
/// around at both ends; with no lines it stays.
pub open spec fn nav_cursor(cursor: int, count: int, up: bool, down: bool) -> int {
    if count > 0 {
        if up {
            if cursor == 0 {
                count - 1
            } else {
                cursor - 1
            }
        } else if down {
            (cursor + 1) % count
        } else {
            cursor
        }
    } else {
        cursor
    }
}

/// Cursor movement shared by the menus: up wraps from the top to the
/// bottom, down from the bottom to the top.
pub fn navigate(cursor: usize, count: usize, up: bool, down: bool) -> (c: usize)
    ensures
        c == nav_cursor(cursor as int, count as int, up, down),
{
    if count > 0 {
        if up {
            if cursor == 0 {
                count - 1
            } else {
                cursor - 1
            }
        } else if down {
            ((cursor as u128 + 1) % count as u128) as usize
        } else {
            cursor
        }
    } else {
        cursor
    }
}

/// Two seconds, in milliseconds.
pub const MESSAGE_MILLIS: u32 = 2000;

/// The party fields a trade leaves alone are unchanged.
pub open spec fn same_but_purse(a: Party, b: Party) -> bool {
    &&& a.active == b.active
    &&& a.bench == b.bench
    &&& a.equipment == b.equipment
    &&& a.unit_levels == b.unit_levels
    &&& a.unit_hp_pp == b.unit_hp_pp
    &&& a.djinn_assignments == b.djinn_assignments
    &&& a.story_flags == b.story_flags
    &&& a.difficulty == b.difficulty
}

/// Cursor position after a sale leaves `new_count` lines.
pub open spec fn cursor_after_sale(cursor: int, new_count: int) -> int {
    if new_count == 0 {
        0
    } else if cursor >= new_count {
        new_count - 1
    } else {
        cursor
    }
}

/// The line the cursor is on after this frame's navigation, if a sale
/// would happen on it.
pub open spec fn sale_pending(keys: ShopKeys, state: ShopState, party: Party, data: GameData) -> bool {
    let entries = sell_entries_spec(party, data);
    let c = nav_cursor(state.cursor as int, entries.len() as int, keys.up, keys.down);
    !keys.escape && !keys.tab && keys.enter && state.tab == ShopTab::Sell && 0 <= c < entries.len()
}

/// Handles one frame of shop input. Escape leaves for the overworld; Tab
/// switches between buying and selling and resets the cursor; up and down
/// move the cursor around the current list; Enter buys the line under the
/// cursor when the party has the gold for it, or sells it: the first copy of
/// that ID leaves the inventory for half its cost.
pub fn shop_input(
    keys: &ShopKeys,
    shop_state: &mut ShopState,
    party: &mut Party,
    data: &GameData,
    shop: &CurrentShop,
) -> (next: Option<GameState>)
    requires
        data.wf(),
        sale_pending(*keys, *old(shop_state), *old(party), *data) ==> ({
            let entries = sell_entries_spec(*old(party), *data);
            let c = nav_cursor(old(shop_state).cursor as int, entries.len() as int, keys.up, keys.down);
            old(party).gold + entries[c].2 <= u32::MAX
        }),
    ensures
        same_but_purse(*old(party), *final(party)),
        keys.escape ==> next == Some(GameState::Overworld) && *final(shop_state) == *old(shop_state)
            && *final(party) == *old(party),
        !keys.escape ==> next is None,
        !keys.escape && keys.tab ==> {
            &&& final(shop_state).tab == (if old(shop_state).tab == ShopTab::Buy { ShopTab::Sell } else { ShopTab::Buy })
            &&& final(shop_state).cursor == 0
            &&& final(shop_state).message == old(shop_state).message
            &&& final(shop_state).message_timer == old(shop_state).message_timer
            &&& final(shop_state).message_is_error == old(shop_state).message_is_error
            &&& *final(party) == *old(party)
        },
        !keys.escape && !keys.tab ==> ({
            let buy = buy_entries_spec(*shop, *data);
            let sell = sell_entries_spec(*old(party), *data);
            let entries = if old(shop_state).tab == ShopTab::Buy { buy } else { sell };
            let c = nav_cursor(old(shop_state).cursor as int, entries.len() as int, keys.up, keys.down);
            &&& final(shop_state).tab == old(shop_state).tab
            &&& !(keys.enter && 0 <= c < entries.len()) ==> {
                &&& final(shop_state).cursor == c
                &&& final(shop_state).message == old(shop_state).message
                &&& final(shop_state).message_timer == old(shop_state).message_timer
                &&& final(shop_state).message_is_error == old(shop_state).message_is_error
                &&& *final(party) == *old(party)
            }
            &&& (keys.enter && 0 <= c < entries.len() && old(shop_state).tab == ShopTab::Buy) ==> {
                let e = buy[c];
                &&& final(shop_state).cursor == c
                &&& final(shop_state).message_timer == MESSAGE_MILLIS
                &&& old(party).gold >= e.2 ==> {
                    &&& final(party).gold == old(party).gold - e.2
                    &&& string_seq(final(party).inventory@) == string_seq(old(party).inventory@).push(e.0)
                    &&& final(shop_state).message@ == "Bought "@ + e.1 + "!"@
                    &&& !final(shop_state).message_is_error
                }
                &&& old(party).gold < e.2 ==> {
                    &&& *final(party) == *old(party)
                    &&& final(shop_state).message@ == "Not enough gold!"@
                    &&& final(shop_state).message_is_error
                }
            }
            &&& (keys.enter && 0 <= c < entries.len() && old(shop_state).tab == ShopTab::Sell) ==> {
                let e = sell[c];
                let pos = first_index(string_seq(old(party).inventory@), e.0);
                &&& is_first_index(string_seq(old(party).inventory@), e.0, pos)
                &&& pos <= c
                &&& final(party).inventory@ == old(party).inventory@.remove(pos)
                &&& final(party).gold == old(party).gold + e.2
                &&& final(shop_state).message@ == "Sold "@ + e.1 + " for "@ + decimal(e.2 as nat) + "g"@
                &&& final(shop_state).message_timer == MESSAGE_MILLIS
                &&& !final(shop_state).message_is_error
                &&& final(shop_state).cursor == cursor_after_sale(c, sell.len() - 1)
            }
        }),
{
    if keys.escape {
        return Some(GameState::Overworld);
    }
    if keys.tab {
        shop_state.tab = match shop_state.tab {
            ShopTab::Buy => ShopTab::Sell,
            ShopTab::Sell => ShopTab::Buy,
        };
        shop_state.cursor = 0;
        return None;
    }
    match shop_state.tab {
        ShopTab::Buy => {
            let entries = build_buy_entries(shop, data);
            shop_state.cursor = navigate(shop_state.cursor, entries.len(), keys.up, keys.down);
            if keys.enter && shop_state.cursor < entries.len() {
                let entry = &entries[shop_state.cursor];
                proof {
                    assert(entries_view(entries@)[shop_state.cursor as int] == entry_view(*entry));
                }
                if party.gold >= entry.price {
                    party.gold = party.gold - entry.price;
                    party.inventory.push(entry.id.clone());
                    let mut msg = concat2("Bought ", entry.name.as_str());
                    msg.append("!");
                    shop_state.message = msg;
                    shop_state.message_timer = MESSAGE_MILLIS;
                    shop_state.message_is_error = false;
                    proof {
                        assert(string_seq(party.inventory@) =~= string_seq(old(party).inventory@).push(entry.id@));
                    }
                } else {
                    shop_state.message = "Not enough gold!".to_owned();
                    shop_state.message_timer = MESSAGE_MILLIS;
                    shop_state.message_is_error = true;
                }
            }
        },
        ShopTab::Sell => {
            let entries = build_sell_entries(party, data);
            shop_state.cursor = navigate(shop_state.cursor, entries.len(), keys.up, keys.down);
            if keys.enter && shop_state.cursor < entries.len() {
                let c = shop_state.cursor;
                let sell_price = entries[c].price;
                proof {
                    assert(entries_view(entries@)[c as int] == entry_view(entries@[c as int]));
                    assert(entries[c as int].id@ == party.inventory@[c as int]@);
                }
                match position_of(&party.inventory, entries[c].id.as_str()) {
                    Some(pos) => {
                        proof {
                            let inv = string_seq(party.inventory@);
                            assert(inv[pos as int] == entries[c as int].id@);
                            assert forall|j: int| 0 <= j < pos implies inv[j] != entries[c as int].id@ by {
                                assert(party.inventory@[j]@ != entries[c as int].id@);
                            }
                            assert(is_first_index(inv, entries[c as int].id@, pos as int));
                            assert forall|p: int| is_first_index(inv, entries[c as int].id@, p) implies p == pos by {
                                if p < pos {
                                    assert(inv[p] != entries[c as int].id@);
                                } else if p > pos {
                                    assert(inv[pos as int] != entries[c as int].id@);
                                }
                            }
                            assert(first_index(inv, entries[c as int].id@) == pos);
                            if c < pos {
                                assert(inv[c as int] == entries[c as int].id@);
                            }
                        }
                        party.inventory.remove(pos);
                        party.gold = party.gold + sell_price;
                        let mut msg = concat2("Sold ", entries[c].name.as_str());
                        msg.append(" for ");
                        push_decimal(&mut msg, sell_price as u64);
                        msg.append("g");
                        shop_state.message = msg;
                        shop_state.message_timer = MESSAGE_MILLIS;
                        shop_state.message_is_error = false;
                        let new_count = party.inventory.len();
                        if new_count == 0 {
                            shop_state.cursor = 0;
                        } else if shop_state.cursor >= new_count {
                            shop_state.cursor = new_count - 1;
                        }
                    },
                    None => {
                        proof {
                            assert(party.inventory@[c as int]@ == entries[c as int].id@);
                        }
                    },
                }
            }
        },
    }
    None
}

/// Counts the message timer down by `delta_ms`; when it runs out the
/// message is cleared.
pub fn tick_shop_message(shop_state: &mut ShopState, delta_ms: u32)
    ensures
        final(shop_state).tab == old(shop_state).tab,
        final(shop_state).cursor == old(shop_state).cursor,
        final(shop_state).message_is_error == old(shop_state).message_is_error,
        old(shop_state).message_timer == 0 ==> final(shop_state).message == old(shop_state).message
            && final(shop_state).message_timer == 0,
        old(shop_state).message_timer > 0 && delta_ms < old(shop_state).message_timer ==>
            final(shop_state).message == old(shop_state).message
            && final(shop_state).message_timer == old(shop_state).message_timer - delta_ms,
        old(shop_state).message_timer > 0 && delta_ms >= old(shop_state).message_timer ==>
            final(shop_state).message@ == Seq::<char>::empty() && final(shop_state).message_timer == 0,
{
    if shop_state.message_timer > 0 {
        if delta_ms >= shop_state.message_timer {
            shop_state.message = String::new();
            shop_state.message_timer = 0;
        } else {
            shop_state.message_timer = shop_state.message_timer - delta_ms;
        }
    }
}

/// The tab header: the active tab in brackets.
pub fn format_tab_text(tab: ShopTab) -> (s: String)
    ensures
        tab == ShopTab::Buy ==> s@ == "[Buy]  Sell"@,
        tab == ShopTab::Sell ==> s@ == " Buy  [Sell]"@,
{
    match tab {
        ShopTab::Buy => "[Buy]  Sell".to_owned(),
        ShopTab::Sell => " Buy  [Sell]".to_owned(),
    }
}

/// The text of one list line: a marker when selected, the name and the price.
pub open spec fn shop_line_spec(e: (Seq<char>, Seq<char>, u32), selected: bool) -> Seq<char> {
    (if selected { "> "@ } else { "  "@ }) + e.1 + " - "@ + decimal(e.2 as nat) + "g"@
}

/// The lines the shop list shows: a placeholder when empty, otherwise one
/// line per entry with the selected one marked.
pub fn shop_item_lines(entries: &Vec<ShopEntry>, selected: usize) -> (lines: Vec<String>)
    ensures
        entries@.len() == 0 ==> lines@.len() == 1 && lines@[0]@ == "-- No items --"@,
        entries@.len() > 0 ==> lines@.len() == entries@.len() && forall|i: int| 0 <= i < entries@.len()
            ==> (#[trigger] lines@[i])@ == shop_line_spec(entry_view(entries@[i]), i == selected),
{
    let mut lines: Vec<String> = Vec::new();
    if entries.len() == 0 {
        lines.push("-- No items --".to_owned());
        return lines;
    }
    let mut i: usize = 0;
    while i < entries.len()
        invariant
            i <= entries@.len(),
            lines@.len() == i,
            forall|j: int| 0 <= j < i ==> (#[trigger] lines@[j])@ == shop_line_spec(entry_view(entries@[j]), j == selected),
        decreases entries@.len() - i,
    {
        let mut line = if i == selected { "> ".to_owned() } else { "  ".to_owned() };
        line.append(entries[i].name.as_str());
        line.append(" - ");
        push_decimal(&mut line, entries[i].price as u64);
        line.append("g");
        lines.push(line);
        i = i + 1;
    }
    lines
}

/// The gold readout.
pub fn gold_text(gold: u32) -> (s: String)
    ensures
        s@ == "Gold: "@ + decimal(gold as nat),
{
    let mut s = "Gold: ".to_owned();
    push_decimal(&mut s, gold as u64);
    s
}

} // verus!
