//! Music and sound effects: volumes, which track each screen plays, and
//! whether a sound plays at all.

use crate::core_plugin::GameState;
use vstd::prelude::*;

verus! {

/// Volumes in percent, and switches for music and sound effects.
#[derive(Clone, Copy, Debug, PartialEq, Eq, Structural)]
pub struct AudioSettings {
    pub master_volume: u32,
    pub music_volume: u32,
    pub sfx_volume: u32,
    pub music_enabled: bool,
    pub sfx_enabled: bool,
}

impl Default for AudioSettings {
    /// Master 80%, music 70%, effects 90%, both on.
    fn default() -> (s: Self)
        ensures
            s.master_volume == 80,
            s.music_volume == 70,
            s.sfx_volume == 90,
            s.music_enabled,
            s.sfx_enabled,
    {
        AudioSettings { master_volume: 80, music_volume: 70, sfx_volume: 90, music_enabled: true, sfx_enabled: true }
    }
}

/// The volume a sound plays at: master times its own volume, exactly, in
/// ten-thousandths (both volumes being percentages).
pub open spec fn mixed_volume(master: u32, own: u32) -> int {
    master * own
}

/// Plays a sound effect: nothing when effects are off or the sound is not
/// loaded; otherwise the sound at master times effect volume, in
/// ten-thousandths.
pub fn play_sfx<'a, H>(handle: &'a Option<H>, settings: &AudioSettings) -> (r: Option<(&'a H, u64)>)
    ensures
        !settings.sfx_enabled ==> r is None,
        settings.sfx_enabled && handle is None ==> r is None,
        settings.sfx_enabled && handle is Some ==> (r matches Some(p) && *p.0 == handle->0
            && p.1 == mixed_volume(settings.master_volume, settings.sfx_volume)),
{
    if !settings.sfx_enabled {
        return None;
    }
    match handle {
        Some(h) => Some((h, volume_of(settings.master_volume, settings.sfx_volume))),
        None => None,
    }
}

fn volume_of(master: u32, own: u32) -> (v: u64)
    ensures
        v == mixed_volume(master, own),
{
    let m: u64 = master as u64;
    let o: u64 = own as u64;
    assert(m * o <= 0xffff_ffff * 0xffff_ffff) by (nonlinear_arith)
        requires
            m <= 0xffff_ffff,
            o <= 0xffff_ffff,
    ;
    m * o
}

/// What starting a screen's music does.
pub enum BgmAction<'a, H> {
    /// Music is off: the current music, if any, keeps playing.
    Keep,
    /// Stop the current music and loop this track (or nothing when it is not
    /// loaded) at the given volume, in ten-thousandths.
    Replace(Option<(&'a H, u64)>),
}

/// Starts background music: nothing changes while music is off; otherwise
/// the current music stops and the track loops at master times music
/// volume (in ten-thousandths).
pub fn play_bgm<'a, H>(handle: &'a Option<H>, settings: &AudioSettings) -> (r: BgmAction<'a, H>)
    ensures
        !settings.music_enabled ==> r is Keep,
        settings.music_enabled && handle is None ==> r matches BgmAction::Replace(None),
        settings.music_enabled && handle is Some ==> (r matches BgmAction::Replace(Some(p)) && *p.0 == handle->0
            && p.1 == mixed_volume(settings.master_volume, settings.music_volume)),
{
    if !settings.music_enabled {
        return BgmAction::Keep;
    }
    match handle {
        Some(h) => BgmAction::Replace(Some((h, volume_of(settings.master_volume, settings.music_volume)))),
        None => BgmAction::Replace(None),
    }
}

/// The music tracks.
#[derive(Clone, Copy, Debug, PartialEq, Eq, Structural)]
pub enum MusicTrack {
    TitleTheme,
    OverworldTheme,
    BattleTheme,
    BossTheme,
    ShopTheme,
    VictoryFanfare,
}

/// The track a screen starts when it opens: the title theme on the title
/// menu, the overworld theme outside, the battle theme in battle.
pub fn track_for_state(state: GameState) -> (t: Option<MusicTrack>)
    ensures
        t == match state {
            GameState::MainMenu => Some(MusicTrack::TitleTheme),
            GameState::Overworld => Some(MusicTrack::OverworldTheme),
            GameState::Battle => Some(MusicTrack::BattleTheme),
            _ => None::<MusicTrack>,
        },
{
    match state {
        GameState::MainMenu => Some(MusicTrack::TitleTheme),
        GameState::Overworld => Some(MusicTrack::OverworldTheme),
        GameState::Battle => Some(MusicTrack::BattleTheme),
        _ => None,
    }
}

/// The asset file of a track.
pub fn music_path(t: MusicTrack) -> (p: &'static str)
    ensures
        t == MusicTrack::TitleTheme ==> p@ == "audio/music/title_theme.ogg"@,
        t == MusicTrack::OverworldTheme ==> p@ == "audio/music/overworld_theme.ogg"@,
        t == MusicTrack::BattleTheme ==> p@ == "audio/music/battle_theme.ogg"@,
        t == MusicTrack::BossTheme ==> p@ == "audio/music/boss_theme.ogg"@,
        t == MusicTrack::ShopTheme ==> p@ == "audio/music/shop_theme.ogg"@,
        t == MusicTrack::VictoryFanfare ==> p@ == "audio/music/victory_fanfare.ogg"@,
{
    match t {
        MusicTrack::TitleTheme => "audio/music/title_theme.ogg",
        MusicTrack::OverworldTheme => "audio/music/overworld_theme.ogg",
        MusicTrack::BattleTheme => "audio/music/battle_theme.ogg",
        MusicTrack::BossTheme => "audio/music/boss_theme.ogg",
        MusicTrack::ShopTheme => "audio/music/shop_theme.ogg",
        MusicTrack::VictoryFanfare => "audio/music/victory_fanfare.ogg",
    }
}

/// The sound effects.
#[derive(Clone, Copy, Debug, PartialEq, Eq, Structural)]
pub enum SfxKey {
    MenuSelect,
    MenuCancel,
    AttackHit,
    MagicCast,
    Heal,
    LevelUp,
    ItemPickup,
    DoorOpen,
}

/// The name a sound effect is requested by.
pub open spec fn sfx_name(k: SfxKey) -> Seq<char> {
    match k {
        SfxKey::MenuSelect => "menu_select"@,
        SfxKey::MenuCancel => "menu_cancel"@,
        SfxKey::AttackHit => "attack_hit"@,
        SfxKey::MagicCast => "magic_cast"@,
        SfxKey::Heal => "heal"@,
        SfxKey::LevelUp => "level_up"@,
        SfxKey::ItemPickup => "item_pickup"@,
        SfxKey::DoorOpen => "door_open"@,
    }
}

/// The sound effect requested by `name`; unknown names request none.
pub fn sfx_key(name: &str) -> (k: Option<SfxKey>)
    ensures
        match k {
            Some(key) => sfx_name(key) == name@,
            None => forall|key: SfxKey| sfx_name(key) != name@,
        },
{
    let keys: [SfxKey; 8] = [
        SfxKey::MenuSelect,
        SfxKey::MenuCancel,
        SfxKey::AttackHit,
        SfxKey::MagicCast,
        SfxKey::Heal,
        SfxKey::LevelUp,
        SfxKey::ItemPickup,
        SfxKey::DoorOpen,
    ];
    let mut i: usize = 0;
    while i < 8
        invariant
            i <= 8,
            keys@ == seq![
                SfxKey::MenuSelect,
                SfxKey::MenuCancel,
                SfxKey::AttackHit,
                SfxKey::MagicCast,
                SfxKey::Heal,
                SfxKey::LevelUp,
                SfxKey::ItemPickup,
                SfxKey::DoorOpen,
            ],
            forall|j: int| 0 <= j < i ==> sfx_name(keys@[j]) != name@,
        decreases 8 - i,
    {
        let k = keys[i];
        if crate::text::str_eq(sfx_name_exec(k), name) {
            return Some(k);
        }
        i = i + 1;
    }
    proof {
        assert forall|key: SfxKey| sfx_name(key) != name@ by {
            match key {
                SfxKey::MenuSelect => assert(sfx_name(keys@[0]) != name@),
                SfxKey::MenuCancel => assert(sfx_name(keys@[1]) != name@),
                SfxKey::AttackHit => assert(sfx_name(keys@[2]) != name@),
                SfxKey::MagicCast => assert(sfx_name(keys@[3]) != name@),
                SfxKey::Heal => assert(sfx_name(keys@[4]) != name@),
                SfxKey::LevelUp => assert(sfx_name(keys@[5]) != name@),
                SfxKey::ItemPickup => assert(sfx_name(keys@[6]) != name@),
                SfxKey::DoorOpen => assert(sfx_name(keys@[7]) != name@),
            }
        }
    }
    None
}

/// The name of a sound effect.
pub fn sfx_name_exec(k: SfxKey) -> (s: &'static str)
    ensures
        s@ == sfx_name(k),
{
    match k {
        SfxKey::MenuSelect => "menu_select",
        SfxKey::MenuCancel => "menu_cancel",
        SfxKey::AttackHit => "attack_hit",
        SfxKey::MagicCast => "magic_cast",
        SfxKey::Heal => "heal",
        SfxKey::LevelUp => "level_up",
        SfxKey::ItemPickup => "item_pickup",
        SfxKey::DoorOpen => "door_open",
    }
}

/// The asset file of a sound effect: "audio/sfx/<name>.ogg".
pub fn sfx_path(k: SfxKey) -> (p: String)
    ensures
        p@ == "audio/sfx/"@ + sfx_name(k) + ".ogg"@,
{
    let mut p = "audio/sfx/".to_owned();
    p.append(sfx_name_exec(k));
    p.append(".ogg");
    p
}

/// The loaded music tracks.
pub struct MusicTracks<H> {
    pub title_theme: Option<H>,
    pub overworld_theme: Option<H>,
    pub battle_theme: Option<H>,
    pub boss_theme: Option<H>,
    pub shop_theme: Option<H>,
    pub victory_fanfare: Option<H>,
}

impl<H> Default for MusicTracks<H> {
    /// Nothing loaded.
    fn default() -> (t: Self)
        ensures
            t.title_theme is None && t.overworld_theme is None && t.battle_theme is None,
            t.boss_theme is None && t.shop_theme is None && t.victory_fanfare is None,
    {
        MusicTracks {
            title_theme: None,
            overworld_theme: None,
            battle_theme: None,
            boss_theme: None,
            shop_theme: None,
            victory_fanfare: None,
        }
    }
}

impl<H> MusicTracks<H> {
    /// The loaded handle of a track.
    pub fn track(&self, t: MusicTrack) -> (h: &Option<H>)
        ensures
            *h == match t {
                MusicTrack::TitleTheme => self.title_theme,
                MusicTrack::OverworldTheme => self.overworld_theme,
                MusicTrack::BattleTheme => self.battle_theme,
                MusicTrack::BossTheme => self.boss_theme,
                MusicTrack::ShopTheme => self.shop_theme,
                MusicTrack::VictoryFanfare => self.victory_fanfare,
            },
    {
        match t {
            MusicTrack::TitleTheme => &self.title_theme,
            MusicTrack::OverworldTheme => &self.overworld_theme,
            MusicTrack::BattleTheme => &self.battle_theme,
            MusicTrack::BossTheme => &self.boss_theme,
            MusicTrack::ShopTheme => &self.shop_theme,
            MusicTrack::VictoryFanfare => &self.victory_fanfare,
        }
    }
}

/// The loaded sound effects.
pub struct SfxHandles<H> {
    pub menu_select: Option<H>,
    pub menu_cancel: Option<H>,
    pub attack_hit: Option<H>,
    pub magic_cast: Option<H>,
    pub heal: Option<H>,
    pub level_up: Option<H>,
    pub item_pickup: Option<H>,
    pub door_open: Option<H>,
}

impl<H> Default for SfxHandles<H> {
    /// Nothing loaded.
    fn default() -> (s: Self)
        ensures
            s.menu_select is None && s.menu_cancel is None && s.attack_hit is None && s.magic_cast is None,
            s.heal is None && s.level_up is None && s.item_pickup is None && s.door_open is None,
    {
        SfxHandles {
            menu_select: None,
            menu_cancel: None,
            attack_hit: None,
            magic_cast: None,
            heal: None,
            level_up: None,
            item_pickup: None,
            door_open: None,
        }
    }
}

pub open spec fn sfx_slot<H>(s: SfxHandles<H>, k: SfxKey) -> Option<H> {
    match k {
        SfxKey::MenuSelect => s.menu_select,
        SfxKey::MenuCancel => s.menu_cancel,
        SfxKey::AttackHit => s.attack_hit,
        SfxKey::MagicCast => s.magic_cast,
        SfxKey::Heal => s.heal,
        SfxKey::LevelUp => s.level_up,
        SfxKey::ItemPickup => s.item_pickup,
        SfxKey::DoorOpen => s.door_open,
    }
}

impl<H> SfxHandles<H> {
    /// The loaded handle of a sound effect.
    pub fn handle(&self, k: SfxKey) -> (h: &Option<H>)
        ensures
            *h == sfx_slot(*self, k),
    {
        match k {
            SfxKey::MenuSelect => &self.menu_select,
            SfxKey::MenuCancel => &self.menu_cancel,
            SfxKey::AttackHit => &self.attack_hit,
            SfxKey::MagicCast => &self.magic_cast,
            SfxKey::Heal => &self.heal,
            SfxKey::LevelUp => &self.level_up,
            SfxKey::ItemPickup => &self.item_pickup,
            SfxKey::DoorOpen => &self.door_open,
        }
    }
}

/// A request to play a sound effect by name.
pub struct PlaySfxEvent(pub String);

/// What a sound request plays: nothing for an unknown name; otherwise what
/// `play_sfx` gives for that effect's handle.
pub fn play_sfx_event<'a, H>(event: &PlaySfxEvent, sfx: &'a SfxHandles<H>, settings: &AudioSettings) -> (r: Option<(&'a H, u64)>)
    ensures
        (forall|k: SfxKey| sfx_name(k) != event.0@) ==> r is None,
        forall|k: SfxKey| sfx_name(k) == event.0@ ==> match sfx_slot(*sfx, k) {
            Some(h) => if settings.sfx_enabled {
                r matches Some(p) && *p.0 == h && p.1 == mixed_volume(settings.master_volume, settings.sfx_volume)
            } else {
                r is None
            },
            None => r is None,
        },
{
    match sfx_key(event.0.as_str()) {
        Some(k) => {
            proof {
                assert forall|k2: SfxKey| sfx_name(k2) == event.0@ implies k2 == k by {
                    lemma_sfx_names_distinct(k, k2);
                }
            }
            play_sfx(sfx.handle(k), settings)
        },
        None => None,
    }
}

/// Different sound effects have different names.
pub proof fn lemma_sfx_names_distinct(a: SfxKey, b: SfxKey)
    ensures
        sfx_name(a) == sfx_name(b) ==> a == b,
{
    reveal_strlit("menu_select");
    reveal_strlit("menu_cancel");
    reveal_strlit("attack_hit");
    reveal_strlit("magic_cast");
    reveal_strlit("heal");
    reveal_strlit("level_up");
    reveal_strlit("item_pickup");
    reveal_strlit("door_open");
    if sfx_name(a) == sfx_name(b) && a != b {
        assert(sfx_name(a).len() == sfx_name(b).len());
        assert(sfx_name(a)[0] == sfx_name(b)[0]);
        assert(sfx_name(a)[5] == sfx_name(b)[5]);
    }
}

} // verus!
