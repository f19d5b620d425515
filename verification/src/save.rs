//! Save games: the saved turn state, version migration and validation, the
//! slot rules of the save directory and the auto-save schedule.

use vstd::prelude::*;
use crate::text::{decimal, push_decimal};

verus! {

/// Current save format version.
pub const SAVE_VERSION: u32 = 2;

/// Version of saves written before versions were recorded.
pub fn default_version() -> (v: u32)
    ensures
        v == 1,
{
    1
}

/// Player energy of saves that did not record it: full.
pub fn default_player_energy() -> (e: u32)
    ensures
        e == 100,
{
    100
}

/// Turn phase as saved.
#[derive(Clone, Copy, Debug, PartialEq, Eq, Structural)]
pub enum TurnPhase {
    PlayerTurn,
    ProcessingPlayerAction,
    AITurn,
    ProcessingAIActions,
}

impl Default for TurnPhase {
    fn default() -> (p: Self)
        ensures
            p == TurnPhase::PlayerTurn,
    {
        TurnPhase::PlayerTurn
    }
}

/// Turn scheduler state as saved.
#[derive(Clone, Copy, Debug, PartialEq, Eq, Structural)]
pub struct TurnStateData {
    pub current_phase: TurnPhase,
    pub player_action_taken: bool,
}

impl Default for TurnStateData {
    fn default() -> (d: Self)
        ensures
            d.current_phase == TurnPhase::PlayerTurn,
            !d.player_action_taken,
    {
        TurnStateData { current_phase: TurnPhase::PlayerTurn, player_action_taken: false }
    }
}

/// A status effect as saved.
#[derive(Clone, Debug)]
pub struct StatusEffectData {
    pub effect_type: String,
    pub duration: u32,
    pub intensity: u32,
}

/// A creature other than the player, as saved.
#[derive(Debug)]
pub struct EntityStateData {
    pub position: (i32, i32, i32),
    pub name: String,
    pub hp: u32,
    pub max_hp: u32,
    pub energy_current: u32,
    pub energy_max: u32,
    pub energy_regen: u32,
    pub active_effects: Vec<StatusEffectData>,
}

/// The parts of a save that its rules read: the format version, the depth
/// recorded in its metadata, the hero's hit point maximum and turns, the
/// seed, the turn state, the clock, the player's energy and hunger clock,
/// and the other creatures.
#[derive(Debug)]
pub struct SaveData {
    pub version: u32,
    pub dungeon_depth: usize,
    pub hero_max_hp: u32,
    pub hero_turns: u32,
    pub game_seed: u64,
    pub turn_state: TurnStateData,
    pub clock_turn_count: u32,
    pub player_energy: u32,
    pub player_hunger_last_turn: u32,
    pub entities: Vec<EntityStateData>,
}

/// Why a save was refused.
#[derive(Clone, Copy, Debug, PartialEq, Eq, Structural)]
pub enum SaveError {
    /// The slot is not below the number of slots.
    InvalidSlot,
    /// The recorded depth is zero.
    InvalidDungeonDepth,
    /// The hero's hit point maximum is zero.
    InvalidHeroHp,
    /// The clock reads earlier than the last save.
    ClockWentBackwards,
}

impl SaveError {
    /// The message of the error.
    pub fn message(&self) -> (s: String)
        ensures
            s@ == save_error_text(*self),
    {
        match self {
            SaveError::InvalidSlot => String::from_str("Invalid save slot"),
            SaveError::InvalidDungeonDepth => String::from_str("Invalid dungeon depth"),
            SaveError::InvalidHeroHp => String::from_str("Invalid hero HP"),
            SaveError::ClockWentBackwards => String::from_str("second time provided was later than self"),
        }
    }
}

pub open spec fn save_error_text(e: SaveError) -> Seq<char> {
    match e {
        SaveError::InvalidSlot => "Invalid save slot"@,
        SaveError::InvalidDungeonDepth => "Invalid dungeon depth"@,
        SaveError::InvalidHeroHp => "Invalid hero HP"@,
        SaveError::ClockWentBackwards => "second time provided was later than self"@,
    }
}

/// The clock counter after migration: a first-version save without a
/// clock takes the hero's turns.
pub open spec fn migrated_clock(d: SaveData) -> u32 {
    if d.version == 1 && d.clock_turn_count == 0 {
        d.hero_turns
    } else {
        d.clock_turn_count
    }
}

/// The version after migration: first-version saves move to the current
/// version; any other version stays.
pub open spec fn migrated_version(v: u32) -> u32 {
    if v == 1 {
        SAVE_VERSION
    } else {
        v
    }
}

/// The validation verdict of a save.
pub open spec fn validation(d: SaveData) -> Result<(), SaveError> {
    if d.dungeon_depth == 0 {
        Err(SaveError::InvalidDungeonDepth)
    } else if d.hero_max_hp == 0 {
        Err(SaveError::InvalidHeroHp)
    } else {
        Ok(())
    }
}

impl SaveData {
    /// Brings a first-version save to the current version: its clock starts
    /// from the hero's turns when it had none. Other saves are unchanged.
    pub fn migrate(&mut self)
        ensures
            final(self).version == migrated_version(old(self).version),
            final(self).clock_turn_count == migrated_clock(*old(self)),
            final(self).dungeon_depth == old(self).dungeon_depth,
            final(self).hero_max_hp == old(self).hero_max_hp,
            final(self).hero_turns == old(self).hero_turns,
            final(self).game_seed == old(self).game_seed,
            final(self).turn_state == old(self).turn_state,
            final(self).player_energy == old(self).player_energy,
            final(self).player_hunger_last_turn == old(self).player_hunger_last_turn,
            final(self).entities@ == old(self).entities@,
    {
        if self.version < SAVE_VERSION {
            if self.version == 1 {
                if self.clock_turn_count == 0 {
                    self.clock_turn_count = self.hero_turns;
                }
                self.version = 2;
            }
        }
    }

    /// Checks the save: its depth and the hero's hit point maximum must not
    /// be zero.
    pub fn validate(&self) -> (r: Result<(), SaveError>)
        ensures
            r == validation(*self),
    {
        if self.dungeon_depth == 0 {
            return Err(SaveError::InvalidDungeonDepth);
        }
        if self.hero_max_hp == 0 {
            return Err(SaveError::InvalidHeroHp);
        }
        Ok(())
    }
}

/// Migrating twice is migrating once.
pub proof fn lemma_migrate_idempotent(d: SaveData)
    ensures
        migrated_version(migrated_version(d.version)) == migrated_version(d.version),
        migrated_clock(SaveData { version: migrated_version(d.version), clock_turn_count: migrated_clock(d), ..d })
            == migrated_clock(d),
{
}

/// Migration never touches what validation reads, so a save is valid after
/// migration exactly when it was valid before.
pub proof fn lemma_migrate_keeps_validity(d: SaveData)
    ensures
        validation(SaveData { version: migrated_version(d.version), clock_turn_count: migrated_clock(d), ..d })
            == validation(d),
{
}

/// File name of a save slot.
pub open spec fn slot_file_name(slot: usize) -> Seq<char> {
    "save_"@ + decimal(slot as nat) + ".sav"@
}

/// A name joined under a directory, as paths join: nothing is added to an
/// empty directory or one that ends in a separator.
pub open spec fn join_path(dir: Seq<char>, name: Seq<char>) -> Seq<char> {
    if dir.len() == 0 {
        name
    } else if dir.last() == '/' {
        dir + name
    } else {
        dir + seq!['/'] + name
    }
}

/// The slots of a save directory.
pub struct SaveSystem {
    save_dir: String,
    max_slots: usize,
}

impl SaveSystem {
    pub closed spec fn spec_save_dir(&self) -> Seq<char> {
        self.save_dir@
    }

    pub closed spec fn spec_max_slots(&self) -> usize {
        self.max_slots
    }

    /// A save system for a directory (which the caller has made sure exists).
    pub fn new(save_dir: String, max_slots: usize) -> (s: Self)
        ensures
            s.spec_save_dir() == save_dir@,
            s.spec_max_slots() == max_slots,
    {
        SaveSystem { save_dir, max_slots }
    }

    /// The save directory.
    pub fn save_dir(&self) -> (d: &String)
        ensures
            d@ == self.spec_save_dir(),
    {
        &self.save_dir
    }

    /// The number of slots.
    pub fn max_slots(&self) -> (n: usize)
        ensures
            n == self.spec_max_slots(),
    {
        self.max_slots
    }

    /// Accepts a slot below the number of slots.
    pub fn check_slot(&self, slot: usize) -> (r: Result<(), SaveError>)
        ensures
            r is Ok <==> slot < self.spec_max_slots(),
            r is Err ==> r == Err::<(), SaveError>(SaveError::InvalidSlot),
    {
        if slot >= self.max_slots {
            Err(SaveError::InvalidSlot)
        } else {
            Ok(())
        }
    }

    /// The file name of a slot.
    pub fn slot_file_name(slot: usize) -> (s: String)
        ensures
            s@ == slot_file_name(slot),
    {
        let mut s = String::from_str("save_");
        push_decimal(&mut s, slot as u64);
        s.append(".sav");
        s
    }

    /// The path of a slot's file, for a valid slot.
    pub fn save_path(&self, slot: usize) -> (r: Option<String>)
        ensures
            r is Some <==> slot < self.spec_max_slots(),
            r matches Some(p) ==> p@ == join_path(self.spec_save_dir(), slot_file_name(slot)),
    {
        if slot >= self.max_slots {
            return None;
        }
        let name = Self::slot_file_name(slot);
        let n = self.save_dir.as_str().unicode_len();
        if n == 0 {
            return Some(name);
        }
        let last = self.save_dir.as_str().get_char(n - 1);
        let mut path = self.save_dir.clone();
        proof {
            reveal_strlit("/");
        }
        if last != '/' {
            path.append("/");
        }
        path.append(name.as_str());
        assert(self.save_dir@.last() == last);
        Some(path)
    }

    /// Whether a slot holds a save, given whether its file exists.
    pub fn has_save(&self, slot: usize, file_exists: bool) -> (r: bool)
        ensures
            r == (slot < self.spec_max_slots() && file_exists),
    {
        if slot >= self.max_slots {
            return false;
        }
        file_exists
    }
}

/// Saves the game at a fixed interval (in milliseconds), into slot zero.
pub struct AutoSave {
    pub save_system: SaveSystem,
    pub interval: u64,
    pub last_save: Option<u64>,
}

/// Whether an auto-save is due at `now`, or the clock went backwards.
pub open spec fn auto_save_due(last: Option<u64>, interval: u64, now: u64) -> Result<bool, SaveError> {
    match last {
        None => Ok(true),
        Some(l) => if now < l {
            Err(SaveError::ClockWentBackwards)
        } else {
            Ok(now - l >= interval)
        },
    }
}

impl AutoSave {
    /// An auto-save that has not saved yet.
    pub fn new(save_system: SaveSystem, interval: u64) -> (a: Self)
        ensures
            a.save_system == save_system,
            a.interval == interval,
            a.last_save is None,
    {
        AutoSave { save_system, interval, last_save: None }
    }

    /// Whether a save is due at `now`: always before the first save, then
    /// once the interval has passed since the last one.
    pub fn is_due(&self, now: u64) -> (r: Result<bool, SaveError>)
        ensures
            r == auto_save_due(self.last_save, self.interval, now),
    {
        match self.last_save {
            None => Ok(true),
            Some(l) => {
                if now < l {
                    Err(SaveError::ClockWentBackwards)
                } else {
                    Ok(now - l >= self.interval)
                }
            },
        }
    }

    /// Records a save made at `now`.
    pub fn mark_saved(&mut self, now: u64)
        ensures
            final(self).last_save == Some(now),
            final(self).interval == old(self).interval,
            final(self).save_system == old(self).save_system,
    {
        self.last_save = Some(now);
    }

    /// When the last save was made.
    pub fn last_save_time(&self) -> (r: Option<u64>)
        ensures
            r == self.last_save,
    {
        self.last_save
    }

    /// The interval between saves.
    pub fn save_interval(&self) -> (r: u64)
        ensures
            r == self.interval,
    {
        self.interval
    }

    /// Sets the interval between saves.
    pub fn set_save_interval(&mut self, interval: u64)
        ensures
            final(self).interval == interval,
            final(self).last_save == old(self).last_save,
            final(self).save_system == old(self).save_system,
    {
        self.interval = interval;
    }
}

/// A save is due right after another only when the interval is zero.
pub proof fn lemma_due_after_save(interval: u64, now: u64)
    ensures
        auto_save_due(Some(now), interval, now) == Ok::<bool, SaveError>(interval == 0),
{
}

} // verus!
