//! The title menu, difficulty choice, pause menu, save slots and settings:
//! what each key press selects and what each screen shows.

use crate::core_plugin::{Difficulty, GameState, Party};
use crate::text::{decimal, push_decimal};
use crate::timer::OnceTimer;
use crate::ui::{cursor_step, moved_cursor, CURSOR_COOLDOWN_MS};
use vstd::prelude::*;

verus! {

/// Entries of the title menu.
pub const MAIN_MENU_COUNT: usize = 4;
/// Entries of the pause menu.
pub const PAUSE_MENU_COUNT: usize = 5;
/// Difficulty levels offered for a new game.
pub const DIFFICULTY_COUNT: usize = 3;
/// Save slots offered in the save and load menus.
pub const SAVE_SLOT_COUNT: usize = 3;
/// Entries of the settings screen.
pub const SETTINGS_COUNT: usize = 5;
/// How long a menu message stays, in milliseconds.
pub const FEEDBACK_MS: u32 = 1500;

/// What a title menu entry does.
#[derive(Clone, Copy, Debug, PartialEq, Eq, Structural)]
pub enum MainMenuChoice {
    NewGame,
    Continue,
    Settings,
    Quit,
}

pub open spec fn main_menu_choice_spec(selected: int) -> Option<MainMenuChoice> {
    if selected == 0 {
        Some(MainMenuChoice::NewGame)
    } else if selected == 1 {
        Some(MainMenuChoice::Continue)
    } else if selected == 2 {
        Some(MainMenuChoice::Settings)
    } else if selected == 3 {
        Some(MainMenuChoice::Quit)
    } else {
        None
    }
}

/// The title menu entry at `selected`: New Game, Continue, Settings, Quit.
pub fn main_menu_choice(selected: usize) -> (c: Option<MainMenuChoice>)
    ensures
        c == main_menu_choice_spec(selected as int),
{
    match selected {
        0 => Some(MainMenuChoice::NewGame),
        1 => Some(MainMenuChoice::Continue),
        2 => Some(MainMenuChoice::Settings),
        3 => Some(MainMenuChoice::Quit),
        _ => None,
    }
}

/// Labels of the title menu, in order.
pub fn main_menu_items() -> (items: Vec<&'static str>)
    ensures
        items@.len() == MAIN_MENU_COUNT,
        items@[0]@ == "New Game"@,
        items@[1]@ == "Continue"@,
        items@[2]@ == "Settings"@,
        items@[3]@ == "Quit"@,
{
    let mut v: Vec<&'static str> = Vec::new();
    v.push("New Game");
    v.push("Continue");
    v.push("Settings");
    v.push("Quit");
    v
}

/// Shown when Continue finds no save.
pub const NO_SAVE_FOUND: &'static str = "No save found";
/// The save slot (0-based) that Continue loads.
pub const CONTINUE_SLOT: usize = 1;

/// The difficulty chooser that New Game opens.
#[derive(Clone, Copy, Debug, PartialEq, Eq, Structural)]
pub struct DifficultySelectState {
    pub active: bool,
    pub cursor: usize,
    pub cooldown: OnceTimer,
}

impl DifficultySelectState {
    pub open spec fn wf(&self) -> bool {
        self.cursor < DIFFICULTY_COUNT && self.cooldown.wf()
    }

    /// Open, with Normal preselected.
    pub fn new() -> (s: Self)
        ensures
            s.wf(),
            s.active,
            s.cursor == 1,
            s.cooldown.duration_ms == CURSOR_COOLDOWN_MS,
            s.cooldown.elapsed_ms == 0,
    {
        DifficultySelectState { active: true, cursor: 1, cooldown: OnceTimer::new(CURSOR_COOLDOWN_MS) }
    }
}

pub open spec fn difficulty_for_cursor_spec(cursor: int) -> Difficulty {
    if cursor == 0 {
        Difficulty::Easy
    } else if cursor == 2 {
        Difficulty::Hard
    } else {
        Difficulty::Normal
    }
}

/// The difficulty at a chooser position: Easy, Normal, Hard; Normal for any
/// other position.
pub fn difficulty_for_cursor(cursor: usize) -> (d: Difficulty)
    ensures
        d == difficulty_for_cursor_spec(cursor as int),
{
    match cursor {
        0 => Difficulty::Easy,
        1 => Difficulty::Normal,
        2 => Difficulty::Hard,
        _ => Difficulty::Normal,
    }
}

/// Labels of the difficulty chooser, in order.
pub fn difficulty_options() -> (items: Vec<&'static str>)
    ensures
        items@.len() == DIFFICULTY_COUNT,
        items@[0]@ == "Easy \u{2014} Reduced enemy stats, more rewards"@,
        items@[1]@ == "Normal \u{2014} Standard experience (Recommended)"@,
        items@[2]@ == "Hard \u{2014} Stronger enemies, scarce resources, greater XP"@,
{
    let mut v: Vec<&'static str> = Vec::new();
    v.push("Easy \u{2014} Reduced enemy stats, more rewards");
    v.push("Normal \u{2014} Standard experience (Recommended)");
    v.push("Hard \u{2014} Stronger enemies, scarce resources, greater XP");
    v
}

/// What a frame of the difficulty chooser leads to.
#[derive(Clone, Copy, Debug, PartialEq, Eq, Structural)]
pub enum DifficultyOutcome {
    Stay,
    /// Back to the title menu.
    Close,
    /// A new game at this difficulty.
    Start(Difficulty),
}

/// One frame of the difficulty chooser: the cursor moves as menus do;
/// Escape closes it; otherwise Enter starts a new game at the difficulty
/// under the cursor.
pub fn difficulty_select_step(state: &mut DifficultySelectState, delta_ms: u32, up: bool, down: bool, escape: bool, confirm: bool) -> (o: DifficultyOutcome)
    requires
        old(state).wf(),
    ensures
        final(state).wf(),
        final(state).active == old(state).active,
        final(state).cursor == moved_cursor(old(state).cursor as int, DIFFICULTY_COUNT as int, up, down)
            || final(state).cursor == old(state).cursor,
        old(state).cooldown.elapsed_ms + delta_ms >= old(state).cooldown.duration_ms
            ==> final(state).cursor == moved_cursor(old(state).cursor as int, DIFFICULTY_COUNT as int, up, down),
        old(state).cooldown.elapsed_ms + delta_ms < old(state).cooldown.duration_ms
            ==> final(state).cursor == old(state).cursor,
        o == (if escape {
            DifficultyOutcome::Close
        } else if confirm {
            DifficultyOutcome::Start(difficulty_for_cursor_spec(final(state).cursor as int))
        } else {
            DifficultyOutcome::Stay
        }),
{
    cursor_step(&mut state.cursor, DIFFICULTY_COUNT, &mut state.cooldown, delta_ms, up, down);
    if escape {
        return DifficultyOutcome::Close;
    }
    if !confirm {
        return DifficultyOutcome::Stay;
    }
    DifficultyOutcome::Start(difficulty_for_cursor(state.cursor))
}

/// The party a new game starts with: the default party at the chosen
/// difficulty.
pub fn new_game_party(difficulty: Difficulty) -> (p: Party)
    ensures
        p.wf(),
        p.difficulty == difficulty,
        p.active@.len() == 1,
        p.active@[0]@ == "adept"@,
        p.bench@.len() == 0,
        p.gold == 100,
        p.inventory@.len() == 0,
        p.equipment@ == Map::<Seq<char>, crate::strmap::StrMap<String>>::empty(),
        p.unit_levels@ == Map::<Seq<char>, (u8, u32)>::empty(),
        p.unit_hp_pp@ == Map::<Seq<char>, (i32, i32)>::empty(),
        p.djinn_assignments@ == Map::<Seq<char>, String>::empty(),
        p.story_flags@ == Map::<Seq<char>, bool>::empty(),
{
    let mut p = Party::default();
    p.difficulty = difficulty;
    p
}

/// What a pause menu entry does.
#[derive(Clone, Copy, Debug, PartialEq, Eq, Structural)]
pub enum PauseChoice {
    Resume,
    Save,
    Load,
    Settings,
    QuitToTitle,
}

pub open spec fn pause_choice_spec(selected: int) -> Option<PauseChoice> {
    if selected == 0 {
        Some(PauseChoice::Resume)
    } else if selected == 1 {
        Some(PauseChoice::Save)
    } else if selected == 2 {
        Some(PauseChoice::Load)
    } else if selected == 3 {
        Some(PauseChoice::Settings)
    } else if selected == 4 {
        Some(PauseChoice::QuitToTitle)
    } else {
        None
    }
}

/// The pause menu entry at `selected`: Resume, Save, Load, Settings, Quit
/// to Title.
pub fn pause_choice(selected: usize) -> (c: Option<PauseChoice>)
    ensures
        c == pause_choice_spec(selected as int),
{
    match selected {
        0 => Some(PauseChoice::Resume),
        1 => Some(PauseChoice::Save),
        2 => Some(PauseChoice::Load),
        3 => Some(PauseChoice::Settings),
        4 => Some(PauseChoice::QuitToTitle),
        _ => None,
    }
}

/// Labels of the pause menu, in order.
pub fn pause_items() -> (items: Vec<&'static str>)
    ensures
        items@.len() == PAUSE_MENU_COUNT,
        items@[0]@ == "Resume"@,
        items@[1]@ == "Save"@,
        items@[2]@ == "Load"@,
        items@[3]@ == "Settings"@,
        items@[4]@ == "Quit to Title"@,
{
    let mut v: Vec<&'static str> = Vec::new();
    v.push("Resume");
    v.push("Save");
    v.push("Load");
    v.push("Settings");
    v.push("Quit to Title");
    v
}

/// The screen a pause menu entry fades to, for the entries that leave the
/// menu: the overworld, the settings, or the title.
pub fn pause_choice_target(c: PauseChoice) -> (s: Option<GameState>)
    ensures
        s == match c {
            PauseChoice::Resume => Some(GameState::Overworld),
            PauseChoice::Settings => Some(GameState::Settings),
            PauseChoice::QuitToTitle => Some(GameState::MainMenu),
            _ => None::<GameState>,
        },
{
    match c {
        PauseChoice::Resume => Some(GameState::Overworld),
        PauseChoice::Settings => Some(GameState::Settings),
        PauseChoice::QuitToTitle => Some(GameState::MainMenu),
        _ => None,
    }
}

/// Whether the slot menu saves or loads.
#[derive(Clone, Copy, Debug, PartialEq, Eq, Structural)]
pub enum SaveSlotMode {
    Save,
    Load,
}

/// The save slot chooser of the pause menu.
#[derive(Clone, Copy, Debug, PartialEq, Eq, Structural)]
pub struct SaveSlotMenu {
    pub visible: bool,
    pub mode: SaveSlotMode,
    pub cursor: usize,
    pub cooldown: OnceTimer,
}

impl SaveSlotMenu {
    pub open spec fn wf(&self) -> bool {
        self.cursor < SAVE_SLOT_COUNT && self.cooldown.wf()
    }

    /// Shown, on the first slot.
    pub fn new(mode: SaveSlotMode) -> (m: Self)
        ensures
            m.wf(),
            m.visible,
            m.mode == mode,
            m.cursor == 0,
            m.cooldown.duration_ms == CURSOR_COOLDOWN_MS,
            m.cooldown.elapsed_ms == 0,
    {
        SaveSlotMenu { visible: true, mode, cursor: 0, cooldown: OnceTimer::new(CURSOR_COOLDOWN_MS) }
    }
}

/// The title of the slot chooser.
pub fn save_slot_title(mode: SaveSlotMode) -> (s: &'static str)
    ensures
        mode == SaveSlotMode::Save ==> s@ == "SAVE GAME"@,
        mode == SaveSlotMode::Load ==> s@ == "LOAD GAME"@,
{
    match mode {
        SaveSlotMode::Save => "SAVE GAME",
        SaveSlotMode::Load => "LOAD GAME",
    }
}

/// What a frame of the slot chooser leads to.
#[derive(Clone, Copy, Debug, PartialEq, Eq, Structural)]
pub enum SlotOutcome {
    Stay,
    /// Back to the pause menu.
    Close,
    /// Save to or load from this slot (0-based), then close.
    Act(SaveSlotMode, usize),
}

/// One frame of the slot chooser: the cursor moves as menus do; Escape
/// closes it; otherwise Enter acts on the slot under the cursor.
pub fn save_slot_step(menu: &mut SaveSlotMenu, delta_ms: u32, up: bool, down: bool, escape: bool, confirm: bool) -> (o: SlotOutcome)
    requires
        old(menu).wf(),
    ensures
        final(menu).wf(),
        final(menu).mode == old(menu).mode,
        final(menu).visible == old(menu).visible,
        old(menu).cooldown.elapsed_ms + delta_ms >= old(menu).cooldown.duration_ms
            ==> final(menu).cursor == moved_cursor(old(menu).cursor as int, SAVE_SLOT_COUNT as int, up, down),
        old(menu).cooldown.elapsed_ms + delta_ms < old(menu).cooldown.duration_ms
            ==> final(menu).cursor == old(menu).cursor,
        o == (if escape {
            SlotOutcome::Close
        } else if confirm {
            SlotOutcome::Act(old(menu).mode, final(menu).cursor)
        } else {
            SlotOutcome::Stay
        }),
{
    cursor_step(&mut menu.cursor, SAVE_SLOT_COUNT, &mut menu.cooldown, delta_ms, up, down);
    if escape {
        return SlotOutcome::Close;
    }
    if !confirm {
        return SlotOutcome::Stay;
    }
    SlotOutcome::Act(menu.mode, menu.cursor)
}

fn slot_message(prefix: &str, slot: usize, suffix: &str) -> (s: String)
    requires
        slot < usize::MAX,
    ensures
        s@ == prefix@ + decimal((slot + 1) as nat) + suffix@,
{
    let mut s = prefix.to_owned();
    push_decimal(&mut s, (slot + 1) as u64);
    s.append(suffix);
    s
}

/// "Game saved to Slot N!" with the slot counted from 1.
pub fn saved_message(slot: usize) -> (s: String)
    requires
        slot < usize::MAX,
    ensures
        s@ == "Game saved to Slot "@ + decimal((slot + 1) as nat) + "!"@,
{
    slot_message("Game saved to Slot ", slot, "!")
}

/// "Loaded from Slot N!" with the slot counted from 1.
pub fn loaded_message(slot: usize) -> (s: String)
    requires
        slot < usize::MAX,
    ensures
        s@ == "Loaded from Slot "@ + decimal((slot + 1) as nat) + "!"@,
{
    slot_message("Loaded from Slot ", slot, "!")
}

/// "No save in Slot N" with the slot counted from 1.
pub fn no_save_message(slot: usize) -> (s: String)
    requires
        slot < usize::MAX,
    ensures
        s@ == "No save in Slot "@ + decimal((slot + 1) as nat) + ""@,
{
    slot_message("No save in Slot ", slot, "")
}

/// "Save failed: " and the reason.
pub fn save_failed_message(error: &str) -> (s: String)
    ensures
        s@ == "Save failed: "@ + error@,
{
    crate::text::concat2("Save failed: ", error)
}

/// A message shown under a menu for a while.
#[derive(Clone, Debug)]
pub struct MenuFeedback {
    pub message: Option<String>,
    pub timer: OnceTimer,
}

impl MenuFeedback {
    pub open spec fn wf(&self) -> bool {
        self.timer.wf()
    }

    /// No message.
    pub fn new() -> (f: Self)
        ensures
            f.wf(),
            f.message is None,
            f.timer.duration_ms == FEEDBACK_MS,
            f.timer.elapsed_ms == 0,
    {
        MenuFeedback { message: None, timer: OnceTimer::new(FEEDBACK_MS) }
    }

    /// Shows `message` for the full time, replacing any earlier one.
    pub fn set(&mut self, message: String)
        ensures
            final(self).wf(),
            final(self).message == Some(message),
            final(self).timer.duration_ms == FEEDBACK_MS,
            final(self).timer.elapsed_ms == 0,
    {
        self.message = Some(message);
        self.timer = OnceTimer::new(FEEDBACK_MS);
    }

    /// Advances the message's time by `delta_ms`, drops it once its time is
    /// up, and returns the text to show: the message, or nothing.
    pub fn tick(&mut self, delta_ms: u32) -> (text: String)
        requires
            old(self).wf(),
        ensures
            final(self).wf(),
            old(self).message is None ==> final(self).message is None && text@ == Seq::<char>::empty(),
            old(self).message matches Some(m) ==> {
                let done = old(self).timer.elapsed_ms + delta_ms >= old(self).timer.duration_ms;
                &&& done ==> final(self).message is None && text@ == Seq::<char>::empty()
                &&& !done ==> final(self).message == old(self).message && text@ == m@
            },
    {
        if self.message.is_some() {
            self.timer.tick(delta_ms);
            if self.timer.finished() {
                self.message = None;
            }
        }
        match &self.message {
            Some(m) => m.clone(),
            None => String::new(),
        }
    }
}

/// Screen resolutions the settings offer, as (width, height).
pub open spec fn resolution_table() -> Seq<(u32, u32)> {
    seq![(960u32, 540u32), (1280u32, 720u32), (1920u32, 1080u32)]
}

pub const RESOLUTION_COUNT: usize = 3;

/// The resolution preset at `index`.
pub fn resolution(index: usize) -> (r: (u32, u32))
    requires
        index < RESOLUTION_COUNT,
    ensures
        r == resolution_table()[index as int],
{
    match index {
        0 => (960, 540),
        1 => (1280, 720),
        _ => (1920, 1080),
    }
}

/// Labels of the settings screen, in order.
pub fn settings_items() -> (items: Vec<&'static str>)
    ensures
        items@.len() == SETTINGS_COUNT,
        items@[0]@ == "Music Volume"@,
        items@[1]@ == "SFX Volume"@,
        items@[2]@ == "Fullscreen"@,
        items@[3]@ == "Resolution"@,
        items@[4]@ == "Back"@,
{
    let mut v: Vec<&'static str> = Vec::new();
    v.push("Music Volume");
    v.push("SFX Volume");
    v.push("Fullscreen");
    v.push("Resolution");
    v.push("Back");
    v
}

/// What the settings screen edits.
#[derive(Clone, Copy, Debug, PartialEq, Eq, Structural)]
pub struct SettingsUiState {
    /// Percent.
    pub music_volume: u32,
    /// Percent.
    pub sfx_volume: u32,
    pub fullscreen: bool,
    pub resolution_index: usize,
    /// The screen Back returns to.
    pub return_to: GameState,
}

impl SettingsUiState {
    pub open spec fn wf(&self) -> bool {
        self.music_volume <= 100 && self.sfx_volume <= 100 && self.resolution_index < RESOLUTION_COUNT
    }
}

/// A volume after a step of ten percent down (left) or up (right), kept
/// between 0 and 100. Left wins when both are pressed.
pub open spec fn adjusted_volume(v: u32, left: bool, right: bool) -> u32 {
    if left {
        if v < 10 {
            0
        } else {
            (v - 10) as u32
        }
    } else if right {
        if v + 10 > 100 {
            100
        } else {
            (v + 10) as u32
        }
    } else {
        v
    }
}

/// The resolution preset after right (next) or left (previous), wrapping.
/// Right wins when both are pressed.
pub open spec fn cycled_resolution(i: int, left: bool, right: bool) -> int {
    if right {
        (i + 1) % 3
    } else if left {
        if i == 0 {
            2
        } else {
            i - 1
        }
    } else {
        i
    }
}

/// Left or right on the settings row `selected`: the music and sound
/// volumes step by ten percent within 0-100, fullscreen toggles, and the
/// resolution cycles through its presets. Other rows are unaffected.
pub fn settings_adjust(state: &mut SettingsUiState, selected: usize, left: bool, right: bool)
    requires
        old(state).wf(),
    ensures
        final(state).wf(),
        final(state).return_to == old(state).return_to,
        !(left || right) ==> *final(state) == *old(state),
        (left || right) ==> {
            &&& final(state).music_volume == if selected == 0 {
                adjusted_volume(old(state).music_volume, left, right)
            } else {
                old(state).music_volume
            }
            &&& final(state).sfx_volume == if selected == 1 {
                adjusted_volume(old(state).sfx_volume, left, right)
            } else {
                old(state).sfx_volume
            }
            &&& final(state).fullscreen == if selected == 2 {
                !old(state).fullscreen
            } else {
                old(state).fullscreen
            }
            &&& final(state).resolution_index == if selected == 3 {
                cycled_resolution(old(state).resolution_index as int, left, right)
            } else {
                old(state).resolution_index as int
            }
        },
{
    if !(left || right) {
        return;
    }
    match selected {
        0 => {
            state.music_volume = step_volume(state.music_volume, left, right);
        },
        1 => {
            state.sfx_volume = step_volume(state.sfx_volume, left, right);
        },
        2 => {
            state.fullscreen = !state.fullscreen;
        },
        3 => {
            if right {
                state.resolution_index = (state.resolution_index + 1) % RESOLUTION_COUNT;
            } else if left {
                state.resolution_index = if state.resolution_index == 0 {
                    RESOLUTION_COUNT - 1
                } else {
                    state.resolution_index - 1
                };
            }
        },
        _ => {},
    }
}

fn step_volume(v: u32, left: bool, right: bool) -> (r: u32)
    requires
        v <= 100,
    ensures
        r == adjusted_volume(v, left, right),
        r <= 100,
{
    if left {
        if v < 10 {
            0
        } else {
            v - 10
        }
    } else if right {
        if v + 10 > 100 {
            100
        } else {
            v + 10
        }
    } else {
        v
    }
}

/// The value shown on settings row `index`: volumes as "N%", fullscreen as
/// "ON" or "OFF", the resolution as "WxH"; nothing for Back.
pub fn settings_value_text(state: &SettingsUiState, index: usize) -> (s: String)
    requires
        state.wf(),
    ensures
        index == 0 ==> s@ == decimal(state.music_volume as nat) + "%"@,
        index == 1 ==> s@ == decimal(state.sfx_volume as nat) + "%"@,
        index == 2 ==> s@ == (if state.fullscreen {
            "ON"@
        } else {
            "OFF"@
        }),
        index == 3 ==> s@ == decimal(resolution_table()[state.resolution_index as int].0 as nat) + "x"@
            + decimal(resolution_table()[state.resolution_index as int].1 as nat),
        index > 3 ==> s@ == Seq::<char>::empty(),
{
    match index {
        0 => {
            let mut s = String::new();
            push_decimal(&mut s, state.music_volume as u64);
            s.append("%");
            s
        },
        1 => {
            let mut s = String::new();
            push_decimal(&mut s, state.sfx_volume as u64);
            s.append("%");
            s
        },
        2 => {
            if state.fullscreen {
                "ON".to_owned()
            } else {
                "OFF".to_owned()
            }
        },
        3 => {
            let (w, h) = resolution(state.resolution_index);
            let mut s = String::new();
            push_decimal(&mut s, w as u64);
            s.append("x");
            push_decimal(&mut s, h as u64);
            s
        },
        _ => String::new(),
    }
}

/// Whether this frame leaves the settings: Escape, or Enter on Back.
pub fn settings_back(escape: bool, enter: bool, selected: usize) -> (b: bool)
    ensures
        b == (escape || (enter && selected == SETTINGS_COUNT - 1)),
{
    escape || (enter && selected == SETTINGS_COUNT - 1)
}

/// Window settings: fullscreen or not, and the resolution preset.
#[derive(Clone, Copy, Debug, PartialEq, Eq, Structural)]
pub struct DisplaySettings {
    pub fullscreen: bool,
    pub resolution_index: usize,
}

impl Default for DisplaySettings {
    /// Windowed, at the first preset.
    fn default() -> (d: Self)
        ensures
            !d.fullscreen,
            d.resolution_index == 0,
    {
        DisplaySettings { fullscreen: false, resolution_index: 0 }
    }
}

/// The settings screen as it opens: the current volumes and window
/// settings, returning to the title menu.
pub fn open_settings(audio: &crate::audio::AudioSettings, display: &DisplaySettings) -> (s: SettingsUiState)
    ensures
        s.music_volume == audio.music_volume,
        s.sfx_volume == audio.sfx_volume,
        s.fullscreen == display.fullscreen,
        s.resolution_index == display.resolution_index,
        s.return_to == GameState::MainMenu,
{
    SettingsUiState {
        music_volume: audio.music_volume,
        sfx_volume: audio.sfx_volume,
        fullscreen: display.fullscreen,
        resolution_index: display.resolution_index,
        return_to: GameState::MainMenu,
    }
}

/// Left or right on a settings row, written through to the audio and window
/// settings: a volume row sets that volume, the fullscreen row the window
/// mode, the resolution row the preset.
pub fn settings_input_step(
    state: &mut SettingsUiState,
    audio: &mut crate::audio::AudioSettings,
    display: &mut DisplaySettings,
    selected: usize,
    left: bool,
    right: bool,
)
    requires
        old(state).wf(),
    ensures
        final(state).wf(),
        final(state).return_to == old(state).return_to,
        !(left || right) ==> *final(state) == *old(state) && *final(audio) == *old(audio) && *final(display) == *old(display),
        (left || right) ==> {
            &&& final(state).music_volume == (if selected == 0 { adjusted_volume(old(state).music_volume, left, right) } else { old(state).music_volume })
            &&& final(state).sfx_volume == (if selected == 1 { adjusted_volume(old(state).sfx_volume, left, right) } else { old(state).sfx_volume })
            &&& final(state).fullscreen == (if selected == 2 { !old(state).fullscreen } else { old(state).fullscreen })
            &&& final(state).resolution_index == (if selected == 3 {
                cycled_resolution(old(state).resolution_index as int, left, right)
            } else {
                old(state).resolution_index as int
            })
            &&& final(audio).music_volume == (if selected == 0 { final(state).music_volume } else { old(audio).music_volume })
            &&& final(audio).sfx_volume == (if selected == 1 { final(state).sfx_volume } else { old(audio).sfx_volume })
            &&& final(audio).master_volume == old(audio).master_volume
            &&& final(audio).music_enabled == old(audio).music_enabled
            &&& final(audio).sfx_enabled == old(audio).sfx_enabled
            &&& final(display).fullscreen == (if selected == 2 { final(state).fullscreen } else { old(display).fullscreen })
            &&& final(display).resolution_index == (if selected == 3 { final(state).resolution_index } else { old(display).resolution_index })
        },
{
    if !(left || right) {
        return;
    }
    settings_adjust(state, selected, left, right);
    if selected == 0 {
        audio.music_volume = state.music_volume;
    } else if selected == 1 {
        audio.sfx_volume = state.sfx_volume;
    } else if selected == 2 {
        display.fullscreen = state.fullscreen;
    } else if selected == 3 {
        display.resolution_index = state.resolution_index;
    }
}

} // verus!
