//! What the inventory screen shows for a state: tab header, cursor marks,
//! which panel is open, the key hints and how a status message reads.

use crate::core_plugin::Party;
use crate::data::GameData;
use crate::data::EquipmentSlot;
use crate::inventory::{
    build_party_member_list, compute_unit_stats, format_item_line, format_party_member_line, format_slot,
    item_line_spec, member_line_spec, slot_text_spec, unit_label, unit_label_spec, unit_stats_spec, InventoryMode,
    InventoryState, InventoryTab,
};
use crate::text::{concat2, contains_text, has_infix, string_seq};
use vstd::prelude::*;

verus! {

/// The tab header, the open tab in brackets.
pub fn tab_header_text(tab: InventoryTab) -> (s: &'static str)
    ensures
        tab == InventoryTab::Items ==> s@ == "[Items] | Party"@,
        tab == InventoryTab::Party ==> s@ == "Items | [Party]"@,
{
    match tab {
        InventoryTab::Items => "[Items] | Party",
        InventoryTab::Party => "Items | [Party]",
    }
}

/// A list line with the cursor mark: "> " on the line under the cursor,
/// two spaces on the others.
pub fn with_cursor(selected: bool, line: &str) -> (s: String)
    ensures
        selected ==> s@ == "> "@ + line@,
        !selected ==> s@ == "  "@ + line@,
{
    if selected {
        crate::text::concat2("> ", line)
    } else {
        crate::text::concat2("  ", line)
    }
}

/// The item at `index` is under the browse cursor.
pub open spec fn item_row_selected_spec(state: InventoryState, index: int) -> bool {
    state.tab == InventoryTab::Items && state.mode == InventoryMode::Browse && index == state.cursor.selected
}

pub fn item_row_selected(state: &InventoryState, index: usize) -> (b: bool)
    ensures
        b == item_row_selected_spec(*state, index as int),
{
    state.tab == InventoryTab::Items && state.mode == InventoryMode::Browse && index == state.cursor.selected
}

/// The unit at `index` is under the cursor of the unit chooser.
pub open spec fn unit_row_selected_spec(state: InventoryState, index: int) -> bool {
    state.tab == InventoryTab::Items && state.mode == InventoryMode::EquipSelectUnit && index == state.unit_cursor
}

pub fn unit_row_selected(state: &InventoryState, index: usize) -> (b: bool)
    ensures
        b == unit_row_selected_spec(*state, index as int),
{
    state.tab == InventoryTab::Items && state.mode == InventoryMode::EquipSelectUnit && index == state.unit_cursor
}

/// Whether the unit chooser is shown: on the items tab while choosing who
/// equips.
pub fn unit_panel_visible(state: &InventoryState) -> (b: bool)
    ensures
        b == (state.tab == InventoryTab::Items && state.mode == InventoryMode::EquipSelectUnit),
{
    state.tab == InventoryTab::Items && state.mode == InventoryMode::EquipSelectUnit
}

/// How a party list line is marked: (under the cursor, picked for a swap).
pub fn member_row_marks(state: &InventoryState, index: usize) -> (r: (bool, bool))
    ensures
        r.0 == (state.tab == InventoryTab::Party && index == state.party_cursor),
        r.1 == (state.tab == InventoryTab::Party && state.party_first_selected == Some(index)),
{
    let party_tab = state.tab == InventoryTab::Party;
    let first = match state.party_first_selected {
        Some(f) => f == index,
        None => false,
    };
    (party_tab && index == state.party_cursor, party_tab && first)
}

/// The key hints for the current tab and mode.
pub fn inventory_hint_text(state: &InventoryState) -> (s: &'static str)
    ensures
        (state.tab == InventoryTab::Items && state.mode == InventoryMode::Browse)
            ==> s@ == "[Tab] Switch Tab  [Up/Down] Move  [Enter] Equip  [U] Unequip  [Escape] Close"@,
        (state.tab == InventoryTab::Items && state.mode == InventoryMode::EquipSelectUnit)
            ==> s@ == "[Up/Down] Select Unit  [Enter] Confirm  [Escape] Cancel"@,
        (state.tab == InventoryTab::Party && state.party_first_selected is Some)
            ==> s@ == "[Up/Down] Move  [Enter] Swap  [Escape] Cancel Swap  [Tab] Switch Tab"@,
        (state.tab == InventoryTab::Party && state.party_first_selected is None)
            ==> s@ == "[Tab] Switch Tab  [Up/Down] Move  [Enter] Select for Swap  [Escape] Close"@,
{
    match state.tab {
        InventoryTab::Items => match state.mode {
            InventoryMode::Browse => "[Tab] Switch Tab  [Up/Down] Move  [Enter] Equip  [U] Unequip  [Escape] Close",
            InventoryMode::EquipSelectUnit => "[Up/Down] Select Unit  [Enter] Confirm  [Escape] Cancel",
        },
        InventoryTab::Party => {
            if state.party_first_selected.is_some() {
                "[Up/Down] Move  [Enter] Swap  [Escape] Cancel Swap  [Tab] Switch Tab"
            } else {
                "[Tab] Switch Tab  [Up/Down] Move  [Enter] Select for Swap  [Escape] Close"
            }
        },
    }
}

/// A status message reads as a warning when it says something could not be
/// done: it contains "cannot", "Not ", "No party", "not currently" or
/// "cancelled".
pub open spec fn is_warning_spec(msg: Seq<char>) -> bool {
    has_infix(msg, "cannot"@) || has_infix(msg, "Not "@) || has_infix(msg, "No party"@) || has_infix(
        msg,
        "not currently"@,
    ) || has_infix(msg, "cancelled"@)
}

pub fn status_is_warning(msg: &str) -> (b: bool)
    ensures
        b == is_warning_spec(msg@),
{
    contains_text(msg, "cannot") || contains_text(msg, "Not ") || contains_text(msg, "No party")
        || contains_text(msg, "not currently") || contains_text(msg, "cancelled")
}

/// The details shown on the party tab: the stats of the member under the
/// cursor; nothing on the items tab or when the cursor is past the list.
pub fn party_stats_text(state: &InventoryState, party: &Party, data: &GameData) -> (s: Option<String>)
    requires
        party.wf(),
        data.wf(),
    ensures
        state.tab == InventoryTab::Items ==> s is None,
        state.tab == InventoryTab::Party && state.party_cursor >= party.active@.len() + party.bench@.len() ==> s is None,
        state.tab == InventoryTab::Party && state.party_cursor < party.active@.len() + party.bench@.len() ==> (s matches Some(t)
            && t@ == unit_stats_spec((party.active@ + party.bench@)[state.party_cursor as int]@, *party, *data)),
{
    if state.tab == InventoryTab::Items {
        return None;
    }
    let (members, _) = build_party_member_list(party);
    if state.party_cursor < members.len() {
        Some(compute_unit_stats(members[state.party_cursor].as_str(), party, data))
    } else {
        None
    }
}


/// The cursor mark that starts a list line.
pub open spec fn mark(selected: bool) -> Seq<char> {
    if selected {
        "> "@
    } else {
        "  "@
    }
}

/// The item panel: "No items" for an empty list, otherwise one line per
/// item, the one at `selected` marked.
pub open spec fn item_panel_spec(ids: Seq<Seq<char>>, selected: int, party: Party, data: GameData) -> Seq<Seq<char>> {
    if ids.len() == 0 {
        seq!["No items"@]
    } else {
        Seq::new(ids.len(), |i: int| mark(i == selected) + item_line_spec(ids[i], party, data))
    }
}

pub fn item_panel_lines(item_ids: &Vec<String>, selected: usize, party: &Party, data: &GameData) -> (lines: Vec<String>)
    requires
        data.wf(),
    ensures
        string_seq(lines@) == item_panel_spec(string_seq(item_ids@), selected as int, *party, *data),
{
    let ghost ids = string_seq(item_ids@);
    if item_ids.len() == 0 {
        let lines = vec!["No items".to_owned()];
        assert(string_seq(lines@) =~= item_panel_spec(ids, selected as int, *party, *data));
        return lines;
    }
    let mut lines: Vec<String> = Vec::new();
    let mut i: usize = 0;
    while i < item_ids.len()
        invariant
            data.wf(),
            ids == string_seq(item_ids@),
            i <= item_ids@.len(),
            string_seq(lines@) == Seq::new(i as nat, |k: int| mark(k == selected) + item_line_spec(ids[k], *party, *data)),
        decreases item_ids@.len() - i,
    {
        let line = format_item_line(item_ids[i].as_str(), party, data);
        let marked = with_cursor(i == selected, line.as_str());
        let ghost before = string_seq(lines@);
        lines.push(marked);
        assert(string_seq(lines@) =~= before.push(marked@));
        assert(string_seq(lines@) =~= Seq::new((i + 1) as nat, |k: int| mark(k == selected) + item_line_spec(ids[k], *party, *data)));
        i = i + 1;
    }
    lines
}

/// The equipment line of an active member: its name and its weapon, armor,
/// shield and accessory slots.
pub open spec fn equipment_summary_spec(unit: Seq<char>, party: Party, data: GameData) -> Seq<char> {
    "  "@ + unit_label_spec(data, unit) + ": "@ + slot_text_spec(unit, EquipmentSlot::Weapon, party, data) + " "@
        + slot_text_spec(unit, EquipmentSlot::Armor, party, data) + " "@ + slot_text_spec(unit, EquipmentSlot::Shield, party, data)
        + " "@ + slot_text_spec(unit, EquipmentSlot::Accessory, party, data)
}

/// The equipment panel: a header, then one line per active member.
pub open spec fn equipment_panel_spec(party: Party, data: GameData) -> Seq<Seq<char>> {
    seq!["Party Equipment:"@] + Seq::new(party.active@.len(), |i: int| equipment_summary_spec(party.active@[i]@, party, data))
}

pub fn equipment_panel_lines(party: &Party, data: &GameData) -> (lines: Vec<String>)
    requires
        data.wf(),
        party.wf(),
    ensures
        string_seq(lines@) == equipment_panel_spec(*party, *data),
{
    let mut lines: Vec<String> = vec!["Party Equipment:".to_owned()];
    let mut i: usize = 0;
    while i < party.active.len()
        invariant
            data.wf(),
            party.wf(),
            i <= party.active@.len(),
            string_seq(lines@) == seq!["Party Equipment:"@] + Seq::new(i as nat, |k: int| equipment_summary_spec(party.active@[k]@, *party, *data)),
        decreases party.active@.len() - i,
    {
        let unit_id = party.active[i].as_str();
        let name = unit_label(data, unit_id);
        let weapon = format_slot(unit_id, EquipmentSlot::Weapon, party, data);
        let armor = format_slot(unit_id, EquipmentSlot::Armor, party, data);
        let shield = format_slot(unit_id, EquipmentSlot::Shield, party, data);
        let accessory = format_slot(unit_id, EquipmentSlot::Accessory, party, data);
        let mut line = concat2("  ", name.as_str());
        line.append(": ");
        line.append(weapon.as_str());
        line.append(" ");
        line.append(armor.as_str());
        line.append(" ");
        line.append(shield.as_str());
        line.append(" ");
        line.append(accessory.as_str());
        let ghost before = string_seq(lines@);
        lines.push(line);
        assert(string_seq(lines@) =~= before.push(line@));
        assert(string_seq(lines@) =~= seq!["Party Equipment:"@] + Seq::new((i + 1) as nat, |k: int| equipment_summary_spec(party.active@[k]@, *party, *data)));
        i = i + 1;
    }
    lines
}

/// The chooser of who equips an item: a header, then the name of each active
/// member, the one at `cursor` marked.
pub open spec fn unit_select_spec(party: Party, data: GameData, cursor: int) -> Seq<Seq<char>> {
    seq!["Select party member:"@] + Seq::new(party.active@.len(), |i: int| mark(i == cursor) + unit_label_spec(data, party.active@[i]@))
}

pub fn unit_select_lines(party: &Party, data: &GameData, cursor: usize) -> (lines: Vec<String>)
    requires
        data.wf(),
    ensures
        string_seq(lines@) == unit_select_spec(*party, *data, cursor as int),
{
    let mut lines: Vec<String> = vec!["Select party member:".to_owned()];
    let mut i: usize = 0;
    while i < party.active.len()
        invariant
            data.wf(),
            i <= party.active@.len(),
            string_seq(lines@) == seq!["Select party member:"@] + Seq::new(i as nat, |k: int| mark(k == cursor) + unit_label_spec(*data, party.active@[k]@)),
        decreases party.active@.len() - i,
    {
        let name = unit_label(data, party.active[i].as_str());
        let marked = with_cursor(i == cursor, name.as_str());
        let ghost before = string_seq(lines@);
        lines.push(marked);
        assert(string_seq(lines@) =~= before.push(marked@));
        assert(string_seq(lines@) =~= seq!["Select party member:"@] + Seq::new((i + 1) as nat, |k: int| mark(k == cursor) + unit_label_spec(*data, party.active@[k]@)));
        i = i + 1;
    }
    lines
}

/// Lines for the members `ids`, numbered from `first`, the one numbered
/// `cursor` marked.
pub open spec fn member_lines_spec(ids: Seq<String>, first: int, cursor: int, party: Party, data: GameData) -> Seq<Seq<char>> {
    Seq::new(ids.len(), |i: int| mark(first + i == cursor) + member_line_spec(ids[i]@, party, data))
}

/// The party list: a header; "No party members" when there are none;
/// otherwise the active members, then, when the bench is not empty, a bench
/// separator and the bench, the member numbered `cursor` marked.
pub open spec fn party_panel_spec(party: Party, data: GameData, cursor: int) -> Seq<Seq<char>> {
    let na = party.active@.len() as int;
    if na + party.bench@.len() == 0 {
        seq!["Party Members:"@, "No party members"@]
    } else {
        let bench = if party.bench@.len() == 0 {
            Seq::empty()
        } else {
            seq!["--- Bench ---"@] + member_lines_spec(party.bench@, na, cursor, party, data)
        };
        seq!["Party Members:"@] + member_lines_spec(party.active@, 0, cursor, party, data) + bench
    }
}

fn push_member_lines(lines: &mut Vec<String>, ids: &Vec<String>, first: usize, cursor: usize, party: &Party, data: &GameData)
    requires
        data.wf(),
        party.wf(),
        first + ids@.len() <= usize::MAX,
    ensures
        string_seq(final(lines)@) == string_seq(old(lines)@) + member_lines_spec(ids@, first as int, cursor as int, *party, *data),
{
    let ghost start = string_seq(lines@);
    let mut i: usize = 0;
    while i < ids.len()
        invariant
            data.wf(),
            party.wf(),
            first + ids@.len() <= usize::MAX,
            i <= ids@.len(),
            string_seq(lines@) == start + Seq::new(i as nat, |k: int| mark(first + k == cursor) + member_line_spec(ids@[k]@, *party, *data)),
        decreases ids@.len() - i,
    {
        let line = format_party_member_line(ids[i].as_str(), party, data);
        let marked = with_cursor(first + i == cursor, line.as_str());
        let ghost before = string_seq(lines@);
        lines.push(marked);
        assert(string_seq(lines@) =~= before.push(marked@));
        assert(string_seq(lines@) =~= start + Seq::new((i + 1) as nat, |k: int| mark(first + k == cursor) + member_line_spec(ids@[k]@, *party, *data)));
        i = i + 1;
    }
    assert(Seq::new(i as nat, |k: int| mark(first + k == cursor) + member_line_spec(ids@[k]@, *party, *data))
        =~= member_lines_spec(ids@, first as int, cursor as int, *party, *data));
}

pub fn party_panel_lines(party: &Party, data: &GameData, cursor: usize) -> (lines: Vec<String>)
    requires
        data.wf(),
        party.wf(),
        party.active@.len() + party.bench@.len() <= usize::MAX,
    ensures
        string_seq(lines@) == party_panel_spec(*party, *data, cursor as int),
{
    let mut lines: Vec<String> = vec!["Party Members:".to_owned()];
    if party.active.len() + party.bench.len() == 0 {
        let none = "No party members".to_owned();
        lines.push(none);
        assert(string_seq(lines@) =~= seq!["Party Members:"@].push(none@));
        assert(string_seq(lines@) =~= party_panel_spec(*party, *data, cursor as int));
        return lines;
    }
    assert(string_seq(lines@) =~= seq!["Party Members:"@]);
    push_member_lines(&mut lines, &party.active, 0, cursor, party, data);
    let ghost head = string_seq(lines@);
    if party.bench.len() > 0 {
        let sep = "--- Bench ---".to_owned();
        lines.push(sep);
        assert(string_seq(lines@) =~= head.push(sep@));
        push_member_lines(&mut lines, &party.bench, party.active.len(), cursor, party, data);
        assert(string_seq(lines@) =~= head + (seq!["--- Bench ---"@] + member_lines_spec(party.bench@, party.active@.len() as int, cursor as int, *party, *data)));
    } else {
        assert(string_seq(lines@) =~= head + Seq::<Seq<char>>::empty());
    }
    assert(string_seq(lines@) =~= party_panel_spec(*party, *data, cursor as int));
    lines
}

} // verus!
