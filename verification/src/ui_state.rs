//! The game's UI-state bit field, read alongside the telemetry: a plain
//! `u32` with one documented flag per bit, used to gate automated input.

use vstd::prelude::*;

verus! {

pub const UI_MAP_OPEN: u32 = 1;

pub const UI_COMPASS_TOP_RIGHT: u32 = 2;

pub const UI_COMPASS_ROTATION: u32 = 4;

pub const UI_GAME_HAS_FOCUS: u32 = 8;

pub const UI_COMPETITIVE_MODE: u32 = 16;

pub const UI_TEXTBOX_HAS_FOCUS: u32 = 32;

pub const UI_IN_COMBAT: u32 = 64;

/// The seven known flag bits together.
pub const UI_ALL_FLAGS: u32 = 127;

/// The game's UI-state flags; unknown bits of the raw field are dropped.
#[derive(Debug, Clone, Copy, PartialEq, Eq, Structural)]
pub struct UiState {
    pub bits: u32,
}

/// Whether `flag` (a single bit) is set in `bits`.
pub open spec fn bit_set(bits: u32, flag: u32) -> bool {
    bits & flag == flag
}

impl UiState {
    /// Keep the known flag bits of a raw field, dropping the rest.
    pub fn from_raw(raw: u32) -> (r: Self)
        ensures
            r.bits == raw & UI_ALL_FLAGS,
            forall|f: u32| f & UI_ALL_FLAGS == f ==> (bit_set(r.bits, f) == bit_set(raw, f)),
    {
        let bits = raw & UI_ALL_FLAGS;
        proof {
            assert forall|f: u32| f & UI_ALL_FLAGS == f implies (bit_set(bits, f) == bit_set(
                raw,
                f,
            )) by {
                assert(f & UI_ALL_FLAGS == f ==> ((raw & UI_ALL_FLAGS) & f == f) == (raw & f
                    == f)) by (bit_vector);
            }
        }
        UiState { bits }
    }

    pub fn is_in_combat(self) -> (r: bool)
        ensures
            r == bit_set(self.bits, UI_IN_COMBAT),
    {
        self.bits & UI_IN_COMBAT == UI_IN_COMBAT
    }

    pub fn is_map_open(self) -> (r: bool)
        ensures
            r == bit_set(self.bits, UI_MAP_OPEN),
    {
        self.bits & UI_MAP_OPEN == UI_MAP_OPEN
    }

    pub fn has_focus(self) -> (r: bool)
        ensures
            r == bit_set(self.bits, UI_GAME_HAS_FOCUS),
    {
        self.bits & UI_GAME_HAS_FOCUS == UI_GAME_HAS_FOCUS
    }

    pub fn is_textbox_active(self) -> (r: bool)
        ensures
            r == bit_set(self.bits, UI_TEXTBOX_HAS_FOCUS),
    {
        self.bits & UI_TEXTBOX_HAS_FOCUS == UI_TEXTBOX_HAS_FOCUS
    }

    pub fn is_competitive_mode(self) -> (r: bool)
        ensures
            r == bit_set(self.bits, UI_COMPETITIVE_MODE),
    {
        self.bits & UI_COMPETITIVE_MODE == UI_COMPETITIVE_MODE
    }

    pub fn is_compass_top_right(self) -> (r: bool)
        ensures
            r == bit_set(self.bits, UI_COMPASS_TOP_RIGHT),
    {
        self.bits & UI_COMPASS_TOP_RIGHT == UI_COMPASS_TOP_RIGHT
    }

    pub fn has_compass_rotation(self) -> (r: bool)
        ensures
            r == bit_set(self.bits, UI_COMPASS_ROTATION),
    {
        self.bits & UI_COMPASS_ROTATION == UI_COMPASS_ROTATION
    }
}

} // verus!
