//! Input bindings: the plain data model of a key binding, the parsers for
//! the binding file's attribute values, the factory-default binding table,
//! and the store that resolves a key control to the input to synthesize.

use vstd::prelude::*;

use crate::key_code::{
    key_from_gw2_code, mouse_from_gw2_code, spec_key_from_gw2_code, spec_mouse_from_gw2_code,
    KeyCode, MouseButton,
};
use crate::key_control::KeyControl;
use crate::parse::{parse_i32_bytes, spec_parse_int};
use vstd::string::StringSliceAdditionalSpecFns;

verus! {

/// Which physical device a binding drives.
#[derive(Clone, Copy, Debug, PartialEq, Eq, Structural)]
pub enum DeviceType {
    Unset,
    Mouse,
    Keyboard,
}

/// Modifier bit flags: shift, control, alt. The three flags are disjoint
/// powers of two, so valid combinations are exactly `0..=7`.
pub const MOD_SHIFT: i32 = 1;

pub const MOD_CTRL: i32 = 2;

pub const MOD_ALT: i32 = 4;

#[derive(Clone, Copy, Debug, PartialEq, Eq, Hash, Structural)]
pub struct Modifier {
    pub bits: i32,
}

impl Modifier {
    pub open spec fn spec_valid(self) -> bool {
        0 <= self.bits <= 7
    }

    pub fn empty() -> (r: Modifier)
        ensures
            r.bits == 0,
    {
        Modifier { bits: 0 }
    }

    /// The flag set a raw bit pattern denotes, if it holds no unknown bits.
    pub fn from_bits(bits: i32) -> (r: Option<Modifier>)
        ensures
            r == spec_modifier_from_bits(bits),
    {
        if 0 <= bits && bits <= 7 {
            Some(Modifier { bits })
        } else {
            None
        }
    }

    pub fn has_shift(self) -> (r: bool)
        requires
            0 <= self.bits,
        ensures
            r == (self.bits % 2 == 1),
    {
        self.bits % 2 == 1
    }

    pub fn has_ctrl(self) -> (r: bool)
        requires
            0 <= self.bits,
        ensures
            r == ((self.bits / 2) % 2 == 1),
    {
        (self.bits / 2) % 2 == 1
    }

    pub fn has_alt(self) -> (r: bool)
        requires
            0 <= self.bits,
        ensures
            r == ((self.bits / 4) % 2 == 1),
    {
        (self.bits / 4) % 2 == 1
    }
}

pub open spec fn spec_modifier_from_bits(bits: i32) -> Option<Modifier> {
    if 0 <= bits <= 7 {
        Some(Modifier { bits })
    } else {
        None
    }
}

/// One bound key or button: the device, the game's numeric code, and the
/// modifier set.
#[derive(Clone, Copy, Debug, PartialEq, Eq, Structural)]
pub struct Key {
    pub device_type: DeviceType,
    pub code: i32,
    pub modifier: Modifier,
}

/// A control's bindings: an optional primary and an optional secondary key.
#[derive(Clone, Copy, Debug, PartialEq, Eq, Structural)]
pub struct KeyBind {
    pub primary: Option<Key>,
    pub secondary: Option<Key>,
}

// ---------- Attribute parsers ----------

pub open spec fn mouse_name_bytes() -> Seq<u8> {
    seq![77u8, 111u8, 117u8, 115u8, 101u8]
}

pub open spec fn keyboard_name_bytes() -> Seq<u8> {
    seq![75u8, 101u8, 121u8, 98u8, 111u8, 97u8, 114u8, 100u8]
}

pub open spec fn none_name_bytes() -> Seq<u8> {
    seq![78u8, 111u8, 110u8, 101u8]
}

pub open spec fn spec_parse_device(b: Seq<u8>) -> Option<DeviceType> {
    if b == mouse_name_bytes() {
        Some(DeviceType::Mouse)
    } else if b == keyboard_name_bytes() {
        Some(DeviceType::Keyboard)
    } else if b == none_name_bytes() {
        Some(DeviceType::Unset)
    } else {
        None
    }
}

/// Whether two byte slices hold the same bytes.
fn bytes_eq(a: &[u8], b: &[u8]) -> (r: bool)
    ensures
        r == (a@ == b@),
{
    if a.len() != b.len() {
        return false;
    }
    let n = a.len();
    let mut i: usize = 0;
    while i < n
        invariant
            n == a@.len() == b@.len(),
            0 <= i <= n,
            forall|j: int| 0 <= j < i ==> a@[j] == b@[j],
        decreases n - i,
    {
        if a[i] != b[i] {
            return false;
        }
        i = i + 1;
    }
    proof {
        assert(a@ =~= b@);
    }
    true
}

/// Map a binding file's `device` attribute to a device type; unknown names
/// map to nothing.
pub fn parse_device(s: &str) -> (r: Option<DeviceType>)
    ensures
        r == spec_parse_device(s.spec_bytes()),
{
    let b = s.as_bytes();
    let mouse: [u8; 5] = [77, 111, 117, 115, 101];
    let keyboard: [u8; 8] = [75, 101, 121, 98, 111, 97, 114, 100];
    let none: [u8; 4] = [78, 111, 110, 101];
    if bytes_eq(b, mouse.as_slice()) {
        proof {
            assert(mouse@ =~= mouse_name_bytes());
        }
        Some(DeviceType::Mouse)
    } else if bytes_eq(b, keyboard.as_slice()) {
        proof {
            assert(keyboard@ =~= keyboard_name_bytes());
        }
        Some(DeviceType::Keyboard)
    } else if bytes_eq(b, none.as_slice()) {
        proof {
            assert(none@ =~= none_name_bytes());
        }
        Some(DeviceType::Unset)
    } else {
        proof {
            assert(mouse@ =~= mouse_name_bytes());
            assert(keyboard@ =~= keyboard_name_bytes());
            assert(none@ =~= none_name_bytes());
        }
        None
    }
}

/// The code a missing or unparsable `button` attribute falls back to: the
/// left-alt key, whose code is zero.
pub open spec fn spec_parse_code(b: Option<Seq<u8>>) -> i32 {
    match b {
        Some(bytes) => match spec_parse_int(bytes) {
            Some(v) => if i32::MIN <= v <= i32::MAX {
                v as i32
            } else {
                0
            },
            None => 0,
        },
        None => 0,
    }
}

/// Parse a binding file's `button` attribute; anything unparsable defaults
/// to the left-alt code (zero).
pub fn parse_code(attr: Option<&str>) -> (r: i32)
    ensures
        attr is None ==> r == 0,
        attr matches Some(s) ==> r == spec_parse_code(Some(s.spec_bytes())),
{
    match attr {
        Some(s) => match parse_i32_bytes(s.as_bytes()) {
            Some(v) => v,
            None => 0,
        },
        None => 0,
    }
}

/// Parse a binding file's `mod` attribute into a modifier set; anything
/// unparsable or holding unknown bits is treated as no modifiers.
pub fn parse_modifier(attr: Option<&str>) -> (r: Modifier)
    ensures
        attr is None ==> r.bits == 0,
        attr matches Some(s) ==> r == ({
            let code = spec_parse_code(Some(s.spec_bytes()));
            match spec_modifier_from_bits(code) {
                Some(m) => m,
                None => Modifier { bits: 0 },
            }
        }),
        r.spec_valid(),
{
    match attr {
        Some(s) => {
            let code = match parse_i32_bytes(s.as_bytes()) {
                Some(v) => v,
                None => 0,
            };
            match Modifier::from_bits(code) {
                Some(m) => m,
                None => Modifier::empty(),
            }
        },
        None => Modifier::empty(),
    }
}

// ---------- Factory defaults ----------

/// Part 1 of the factory-default binding table.
pub open spec fn default_bindings_part1() -> Seq<(KeyControl, KeyBind)> {
    seq![
(KeyControl::MovementMoveForward, KeyBind { primary: Some(Key { device_type: DeviceType::Keyboard, code: KeyCode::W.spec_code(), modifier: Modifier { bits: 0 } }), secondary: Some(Key { device_type: DeviceType::Keyboard, code: KeyCode::ArrowUp.spec_code(), modifier: Modifier { bits: 0 } }) }),
        (KeyControl::MovementMoveBackward, KeyBind { primary: Some(Key { device_type: DeviceType::Keyboard, code: KeyCode::S.spec_code(), modifier: Modifier { bits: 0 } }), secondary: Some(Key { device_type: DeviceType::Keyboard, code: KeyCode::ArrowDown.spec_code(), modifier: Modifier { bits: 0 } }) }),
        (KeyControl::MovementStrafeLeft, KeyBind { primary: Some(Key { device_type: DeviceType::Keyboard, code: KeyCode::A.spec_code(), modifier: Modifier { bits: 0 } }), secondary: Some(Key { device_type: DeviceType::Keyboard, code: KeyCode::ArrowLeft.spec_code(), modifier: Modifier { bits: 0 } }) }),
        (KeyControl::MovementStrafeRight, KeyBind { primary: Some(Key { device_type: DeviceType::Keyboard, code: KeyCode::D.spec_code(), modifier: Modifier { bits: 0 } }), secondary: Some(Key { device_type: DeviceType::Keyboard, code: KeyCode::ArrowRight.spec_code(), modifier: Modifier { bits: 0 } }) }),
        (KeyControl::MovementTurnLeft, KeyBind { primary: Some(Key { device_type: DeviceType::Keyboard, code: KeyCode::Q.spec_code(), modifier: Modifier { bits: 0 } }), secondary: None }),
        (KeyControl::MovementTurnRight, KeyBind { primary: Some(Key { device_type: DeviceType::Keyboard, code: KeyCode::E.spec_code(), modifier: Modifier { bits: 0 } }), secondary: None }),
        (KeyControl::MovementDodge, KeyBind { primary: Some(Key { device_type: DeviceType::Keyboard, code: KeyCode::V.spec_code(), modifier: Modifier { bits: 0 } }), secondary: None }),
        (KeyControl::MovementAutorun, KeyBind { primary: Some(Key { device_type: DeviceType::Keyboard, code: KeyCode::R.spec_code(), modifier: Modifier { bits: 0 } }), secondary: Some(Key { device_type: DeviceType::Keyboard, code: KeyCode::NumLock.spec_code(), modifier: Modifier { bits: 0 } }) }),
        (KeyControl::MovementJump, KeyBind { primary: Some(Key { device_type: DeviceType::Keyboard, code: KeyCode::Space.spec_code(), modifier: Modifier { bits: 0 } }), secondary: None }),
        (KeyControl::MovementSwimUp, KeyBind { primary: Some(Key { device_type: DeviceType::Keyboard, code: KeyCode::Space.spec_code(), modifier: Modifier { bits: 0 } }), secondary: None }),
        (KeyControl::SkillsSwapWeapons, KeyBind { primary: Some(Key { device_type: DeviceType::Keyboard, code: KeyCode::Tilde.spec_code(), modifier: Modifier { bits: 0 } }), secondary: None }),
        (KeyControl::SkillsWeaponSkill1, KeyBind { primary: Some(Key { device_type: DeviceType::Keyboard, code: KeyCode::Key1.spec_code(), modifier: Modifier { bits: 0 } }), secondary: None }),
        (KeyControl::SkillsWeaponSkill2, KeyBind { primary: Some(Key { device_type: DeviceType::Keyboard, code: KeyCode::Key2.spec_code(), modifier: Modifier { bits: 0 } }), secondary: None }),
        (KeyControl::SkillsWeaponSkill3, KeyBind { primary: Some(Key { device_type: DeviceType::Keyboard, code: KeyCode::Key3.spec_code(), modifier: Modifier { bits: 0 } }), secondary: None }),
        (KeyControl::SkillsWeaponSkill4, KeyBind { primary: Some(Key { device_type: DeviceType::Keyboard, code: KeyCode::Key4.spec_code(), modifier: Modifier { bits: 0 } }), secondary: None }),
        (KeyControl::SkillsWeaponSkill5, KeyBind { primary: Some(Key { device_type: DeviceType::Keyboard, code: KeyCode::Key5.spec_code(), modifier: Modifier { bits: 0 } }), secondary: None }),
        (KeyControl::SkillsHealingSkill, KeyBind { primary: Some(Key { device_type: DeviceType::Keyboard, code: KeyCode::Key6.spec_code(), modifier: Modifier { bits: 0 } }), secondary: None }),
        (KeyControl::SkillsUtilitySkill1, KeyBind { primary: Some(Key { device_type: DeviceType::Keyboard, code: KeyCode::Key7.spec_code(), modifier: Modifier { bits: 0 } }), secondary: None }),
        (KeyControl::SkillsUtilitySkill2, KeyBind { primary: Some(Key { device_type: DeviceType::Keyboard, code: KeyCode::Key8.spec_code(), modifier: Modifier { bits: 0 } }), secondary: None }),
        (KeyControl::SkillsUtilitySkill3, KeyBind { primary: Some(Key { device_type: DeviceType::Keyboard, code: KeyCode::Key9.spec_code(), modifier: Modifier { bits: 0 } }), secondary: None }),
        (KeyControl::SkillsEliteSkill, KeyBind { primary: Some(Key { device_type: DeviceType::Keyboard, code: KeyCode::Key0.spec_code(), modifier: Modifier { bits: 0 } }), secondary: None }),
        (KeyControl::SkillsProfessionSkill1, KeyBind { primary: Some(Key { device_type: DeviceType::Keyboard, code: KeyCode::F1.spec_code(), modifier: Modifier { bits: 0 } }), secondary: None }),
        (KeyControl::SkillsProfessionSkill2, KeyBind { primary: Some(Key { device_type: DeviceType::Keyboard, code: KeyCode::F2.spec_code(), modifier: Modifier { bits: 0 } }), secondary: None }),
        (KeyControl::SkillsProfessionSkill3, KeyBind { primary: Some(Key { device_type: DeviceType::Keyboard, code: KeyCode::F3.spec_code(), modifier: Modifier { bits: 0 } }), secondary: None }),
        (KeyControl::SkillsProfessionSkill4, KeyBind { primary: Some(Key { device_type: DeviceType::Keyboard, code: KeyCode::F4.spec_code(), modifier: Modifier { bits: 0 } }), secondary: None }),
        (KeyControl::SkillsProfessionSkill5, KeyBind { primary: Some(Key { device_type: DeviceType::Keyboard, code: KeyCode::F5.spec_code(), modifier: Modifier { bits: 0 } }), secondary: None }),
        (KeyControl::SkillsProfessionSkill6, KeyBind { primary: Some(Key { device_type: DeviceType::Keyboard, code: KeyCode::F6.spec_code(), modifier: Modifier { bits: 0 } }), secondary: None }),
        (KeyControl::SkillsProfessionSkill7, KeyBind { primary: Some(Key { device_type: DeviceType::Keyboard, code: KeyCode::F7.spec_code(), modifier: Modifier { bits: 0 } }), secondary: None }),
    ]
}

/// Part 2 of the factory-default binding table.
pub open spec fn default_bindings_part2() -> Seq<(KeyControl, KeyBind)> {
    seq![
        (KeyControl::SkillsSpecialAction, KeyBind { primary: Some(Key { device_type: DeviceType::Keyboard, code: KeyCode::N.spec_code(), modifier: Modifier { bits: 0 } }), secondary: None }),
        (KeyControl::TargetingAlertTarget, KeyBind { primary: Some(Key { device_type: DeviceType::Keyboard, code: KeyCode::T.spec_code(), modifier: Modifier { bits: 1 } }), secondary: None }),
        (KeyControl::TargetingCallTarget, KeyBind { primary: Some(Key { device_type: DeviceType::Keyboard, code: KeyCode::T.spec_code(), modifier: Modifier { bits: 2 } }), secondary: None }),
        (KeyControl::TargetingTakeTarget, KeyBind { primary: Some(Key { device_type: DeviceType::Keyboard, code: KeyCode::T.spec_code(), modifier: Modifier { bits: 0 } }), secondary: None }),
        (KeyControl::TargetingNextEnemy, KeyBind { primary: Some(Key { device_type: DeviceType::Keyboard, code: KeyCode::Tab.spec_code(), modifier: Modifier { bits: 0 } }), secondary: None }),
        (KeyControl::TargetingPreviousEnemy, KeyBind { primary: Some(Key { device_type: DeviceType::Keyboard, code: KeyCode::Tab.spec_code(), modifier: Modifier { bits: 1 } }), secondary: None }),
        (KeyControl::UiBlackLionTradingDialog, KeyBind { primary: Some(Key { device_type: DeviceType::Keyboard, code: KeyCode::O.spec_code(), modifier: Modifier { bits: 0 } }), secondary: None }),
        (KeyControl::UiContactsDialog, KeyBind { primary: Some(Key { device_type: DeviceType::Keyboard, code: KeyCode::Y.spec_code(), modifier: Modifier { bits: 0 } }), secondary: None }),
        (KeyControl::UiGuildDialog, KeyBind { primary: Some(Key { device_type: DeviceType::Keyboard, code: KeyCode::G.spec_code(), modifier: Modifier { bits: 0 } }), secondary: None }),
        (KeyControl::UiHeroDialog, KeyBind { primary: Some(Key { device_type: DeviceType::Keyboard, code: KeyCode::H.spec_code(), modifier: Modifier { bits: 0 } }), secondary: None }),
        (KeyControl::UiInventoryDialog, KeyBind { primary: Some(Key { device_type: DeviceType::Keyboard, code: KeyCode::I.spec_code(), modifier: Modifier { bits: 0 } }), secondary: None }),
        (KeyControl::UiPetDialog, KeyBind { primary: Some(Key { device_type: DeviceType::Keyboard, code: KeyCode::K.spec_code(), modifier: Modifier { bits: 0 } }), secondary: None }),
        (KeyControl::UiLogOut, KeyBind { primary: Some(Key { device_type: DeviceType::Keyboard, code: KeyCode::F12.spec_code(), modifier: Modifier { bits: 0 } }), secondary: None }),
        (KeyControl::UiOptionsDialog, KeyBind { primary: Some(Key { device_type: DeviceType::Keyboard, code: KeyCode::F11.spec_code(), modifier: Modifier { bits: 0 } }), secondary: None }),
        (KeyControl::UiPartyDialog, KeyBind { primary: Some(Key { device_type: DeviceType::Keyboard, code: KeyCode::P.spec_code(), modifier: Modifier { bits: 0 } }), secondary: None }),
        (KeyControl::UiScoreboard, KeyBind { primary: Some(Key { device_type: DeviceType::Keyboard, code: KeyCode::B.spec_code(), modifier: Modifier { bits: 0 } }), secondary: None }),
        (KeyControl::UiWizardsVaultDialog, KeyBind { primary: Some(Key { device_type: DeviceType::Keyboard, code: KeyCode::H.spec_code(), modifier: Modifier { bits: 1 } }), secondary: None }),
        (KeyControl::UiInformationDialog, KeyBind { primary: Some(Key { device_type: DeviceType::Keyboard, code: KeyCode::Minus.spec_code(), modifier: Modifier { bits: 0 } }), secondary: None }),
        (KeyControl::UiShowHideChat, KeyBind { primary: Some(Key { device_type: DeviceType::Keyboard, code: KeyCode::Backslash.spec_code(), modifier: Modifier { bits: 0 } }), secondary: None }),
        (KeyControl::UiChatCommand, KeyBind { primary: Some(Key { device_type: DeviceType::Keyboard, code: KeyCode::Slash.spec_code(), modifier: Modifier { bits: 0 } }), secondary: None }),
        (KeyControl::UiChatMessage, KeyBind { primary: Some(Key { device_type: DeviceType::Keyboard, code: KeyCode::Enter.spec_code(), modifier: Modifier { bits: 0 } }), secondary: Some(Key { device_type: DeviceType::Keyboard, code: KeyCode::EnterNum.spec_code(), modifier: Modifier { bits: 0 } }) }),
        (KeyControl::UiChatReply, KeyBind { primary: Some(Key { device_type: DeviceType::Keyboard, code: KeyCode::Backspace.spec_code(), modifier: Modifier { bits: 0 } }), secondary: None }),
        (KeyControl::UiShowHideUi, KeyBind { primary: Some(Key { device_type: DeviceType::Keyboard, code: KeyCode::H.spec_code(), modifier: Modifier { bits: 3 } }), secondary: None }),
        (KeyControl::UiShowHideSquadBroadcastChat, KeyBind { primary: Some(Key { device_type: DeviceType::Keyboard, code: KeyCode::Backslash.spec_code(), modifier: Modifier { bits: 1 } }), secondary: None }),
        (KeyControl::UiSquadBroadcastMessage, KeyBind { primary: Some(Key { device_type: DeviceType::Keyboard, code: KeyCode::Enter.spec_code(), modifier: Modifier { bits: 1 } }), secondary: Some(Key { device_type: DeviceType::Keyboard, code: KeyCode::EnterNum.spec_code(), modifier: Modifier { bits: 1 } }) }),
        (KeyControl::CameraZoomIn, KeyBind { primary: Some(Key { device_type: DeviceType::Keyboard, code: KeyCode::Prior.spec_code(), modifier: Modifier { bits: 0 } }), secondary: None }),
        (KeyControl::CameraZoomOut, KeyBind { primary: Some(Key { device_type: DeviceType::Keyboard, code: KeyCode::Next.spec_code(), modifier: Modifier { bits: 0 } }), secondary: None }),
        (KeyControl::ScreenshotNormal, KeyBind { primary: Some(Key { device_type: DeviceType::Keyboard, code: KeyCode::Print.spec_code(), modifier: Modifier { bits: 0 } }), secondary: None }),
    ]
}

/// Part 3 of the factory-default binding table.
pub open spec fn default_bindings_part3() -> Seq<(KeyControl, KeyBind)> {
    seq![
        (KeyControl::MapOpenClose, KeyBind { primary: Some(Key { device_type: DeviceType::Keyboard, code: KeyCode::M.spec_code(), modifier: Modifier { bits: 0 } }), secondary: None }),
        (KeyControl::MapRecenter, KeyBind { primary: Some(Key { device_type: DeviceType::Keyboard, code: KeyCode::Space.spec_code(), modifier: Modifier { bits: 0 } }), secondary: None }),
        (KeyControl::MapFloorDown, KeyBind { primary: Some(Key { device_type: DeviceType::Keyboard, code: KeyCode::Next.spec_code(), modifier: Modifier { bits: 0 } }), secondary: None }),
        (KeyControl::MapFloorUp, KeyBind { primary: Some(Key { device_type: DeviceType::Keyboard, code: KeyCode::Prior.spec_code(), modifier: Modifier { bits: 0 } }), secondary: None }),
        (KeyControl::MapZoomIn, KeyBind { primary: Some(Key { device_type: DeviceType::Keyboard, code: KeyCode::PlusNum.spec_code(), modifier: Modifier { bits: 0 } }), secondary: Some(Key { device_type: DeviceType::Keyboard, code: KeyCode::Equals.spec_code(), modifier: Modifier { bits: 0 } }) }),
        (KeyControl::MapZoomOut, KeyBind { primary: Some(Key { device_type: DeviceType::Keyboard, code: KeyCode::MinusNum.spec_code(), modifier: Modifier { bits: 0 } }), secondary: Some(Key { device_type: DeviceType::Keyboard, code: KeyCode::Minus.spec_code(), modifier: Modifier { bits: 0 } }) }),
        (KeyControl::MountsMountDismount, KeyBind { primary: Some(Key { device_type: DeviceType::Keyboard, code: KeyCode::X.spec_code(), modifier: Modifier { bits: 0 } }), secondary: None }),
        (KeyControl::MountsMountAbility1, KeyBind { primary: Some(Key { device_type: DeviceType::Keyboard, code: KeyCode::V.spec_code(), modifier: Modifier { bits: 0 } }), secondary: None }),
        (KeyControl::MountsMountAbility2, KeyBind { primary: Some(Key { device_type: DeviceType::Keyboard, code: KeyCode::C.spec_code(), modifier: Modifier { bits: 0 } }), secondary: None }),
        (KeyControl::SpectatorsNearestFixedCamera, KeyBind { primary: Some(Key { device_type: DeviceType::Keyboard, code: KeyCode::Tab.spec_code(), modifier: Modifier { bits: 1 } }), secondary: None }),
        (KeyControl::SpectatorsNearestPlayer, KeyBind { primary: Some(Key { device_type: DeviceType::Keyboard, code: KeyCode::Tab.spec_code(), modifier: Modifier { bits: 0 } }), secondary: None }),
        (KeyControl::SpectatorsRedPlayer1, KeyBind { primary: Some(Key { device_type: DeviceType::Keyboard, code: KeyCode::Key1.spec_code(), modifier: Modifier { bits: 0 } }), secondary: None }),
        (KeyControl::SpectatorsRedPlayer2, KeyBind { primary: Some(Key { device_type: DeviceType::Keyboard, code: KeyCode::Key2.spec_code(), modifier: Modifier { bits: 0 } }), secondary: None }),
        (KeyControl::SpectatorsRedPlayer3, KeyBind { primary: Some(Key { device_type: DeviceType::Keyboard, code: KeyCode::Key3.spec_code(), modifier: Modifier { bits: 0 } }), secondary: None }),
        (KeyControl::SpectatorsRedPlayer4, KeyBind { primary: Some(Key { device_type: DeviceType::Keyboard, code: KeyCode::Key4.spec_code(), modifier: Modifier { bits: 0 } }), secondary: None }),
        (KeyControl::SpectatorsRedPlayer5, KeyBind { primary: Some(Key { device_type: DeviceType::Keyboard, code: KeyCode::Key5.spec_code(), modifier: Modifier { bits: 0 } }), secondary: None }),
        (KeyControl::SpectatorsBluePlayer1, KeyBind { primary: Some(Key { device_type: DeviceType::Keyboard, code: KeyCode::Key6.spec_code(), modifier: Modifier { bits: 0 } }), secondary: None }),
        (KeyControl::SpectatorsBluePlayer2, KeyBind { primary: Some(Key { device_type: DeviceType::Keyboard, code: KeyCode::Key7.spec_code(), modifier: Modifier { bits: 0 } }), secondary: None }),
        (KeyControl::SpectatorsBluePlayer3, KeyBind { primary: Some(Key { device_type: DeviceType::Keyboard, code: KeyCode::Key8.spec_code(), modifier: Modifier { bits: 0 } }), secondary: None }),
        (KeyControl::SpectatorsBluePlayer4, KeyBind { primary: Some(Key { device_type: DeviceType::Keyboard, code: KeyCode::Key9.spec_code(), modifier: Modifier { bits: 0 } }), secondary: None }),
        (KeyControl::SpectatorsBluePlayer5, KeyBind { primary: Some(Key { device_type: DeviceType::Keyboard, code: KeyCode::Key0.spec_code(), modifier: Modifier { bits: 0 } }), secondary: None }),
        (KeyControl::SpectatorsFreeCamera, KeyBind { primary: Some(Key { device_type: DeviceType::Keyboard, code: KeyCode::F.spec_code(), modifier: Modifier { bits: 3 } }), secondary: None }),
        (KeyControl::SpectatorsFreeCameraBoost, KeyBind { primary: Some(Key { device_type: DeviceType::Keyboard, code: KeyCode::E.spec_code(), modifier: Modifier { bits: 0 } }), secondary: None }),
        (KeyControl::SpectatorsFreeCameraForward, KeyBind { primary: Some(Key { device_type: DeviceType::Keyboard, code: KeyCode::W.spec_code(), modifier: Modifier { bits: 0 } }), secondary: None }),
        (KeyControl::SpectatorsFreeCameraBackward, KeyBind { primary: Some(Key { device_type: DeviceType::Keyboard, code: KeyCode::S.spec_code(), modifier: Modifier { bits: 0 } }), secondary: None }),
        (KeyControl::SpectatorsFreeCameraLeft, KeyBind { primary: Some(Key { device_type: DeviceType::Keyboard, code: KeyCode::A.spec_code(), modifier: Modifier { bits: 0 } }), secondary: None }),
        (KeyControl::SpectatorsFreeCameraRight, KeyBind { primary: Some(Key { device_type: DeviceType::Keyboard, code: KeyCode::D.spec_code(), modifier: Modifier { bits: 0 } }), secondary: None }),
        (KeyControl::SpectatorsFreeCameraUp, KeyBind { primary: Some(Key { device_type: DeviceType::Keyboard, code: KeyCode::Space.spec_code(), modifier: Modifier { bits: 0 } }), secondary: None }),
    ]
}

/// Part 4 of the factory-default binding table.
pub open spec fn default_bindings_part4() -> Seq<(KeyControl, KeyBind)> {
    seq![
        (KeyControl::SpectatorsFreeCameraDown, KeyBind { primary: Some(Key { device_type: DeviceType::Keyboard, code: KeyCode::V.spec_code(), modifier: Modifier { bits: 0 } }), secondary: None }),
        (KeyControl::SquadLocationArrow, KeyBind { primary: Some(Key { device_type: DeviceType::Keyboard, code: KeyCode::Key1.spec_code(), modifier: Modifier { bits: 4 } }), secondary: None }),
        (KeyControl::SquadLocationCircle, KeyBind { primary: Some(Key { device_type: DeviceType::Keyboard, code: KeyCode::Key2.spec_code(), modifier: Modifier { bits: 4 } }), secondary: None }),
        (KeyControl::SquadLocationHeart, KeyBind { primary: Some(Key { device_type: DeviceType::Keyboard, code: KeyCode::Key3.spec_code(), modifier: Modifier { bits: 4 } }), secondary: None }),
        (KeyControl::SquadLocationSquare, KeyBind { primary: Some(Key { device_type: DeviceType::Keyboard, code: KeyCode::Key4.spec_code(), modifier: Modifier { bits: 4 } }), secondary: None }),
        (KeyControl::SquadLocationStar, KeyBind { primary: Some(Key { device_type: DeviceType::Keyboard, code: KeyCode::Key5.spec_code(), modifier: Modifier { bits: 4 } }), secondary: None }),
        (KeyControl::SquadLocationSpiral, KeyBind { primary: Some(Key { device_type: DeviceType::Keyboard, code: KeyCode::Key6.spec_code(), modifier: Modifier { bits: 4 } }), secondary: None }),
        (KeyControl::SquadLocationTriangle, KeyBind { primary: Some(Key { device_type: DeviceType::Keyboard, code: KeyCode::Key7.spec_code(), modifier: Modifier { bits: 4 } }), secondary: None }),
        (KeyControl::SquadLocationX, KeyBind { primary: Some(Key { device_type: DeviceType::Keyboard, code: KeyCode::Key8.spec_code(), modifier: Modifier { bits: 4 } }), secondary: None }),
        (KeyControl::SquadClearAllLocationMarkers, KeyBind { primary: Some(Key { device_type: DeviceType::Keyboard, code: KeyCode::Key9.spec_code(), modifier: Modifier { bits: 4 } }), secondary: None }),
        (KeyControl::SquadObjectArrow, KeyBind { primary: Some(Key { device_type: DeviceType::Keyboard, code: KeyCode::Key1.spec_code(), modifier: Modifier { bits: 6 } }), secondary: None }),
        (KeyControl::SquadObjectCircle, KeyBind { primary: Some(Key { device_type: DeviceType::Keyboard, code: KeyCode::Key2.spec_code(), modifier: Modifier { bits: 6 } }), secondary: None }),
        (KeyControl::SquadObjectHeart, KeyBind { primary: Some(Key { device_type: DeviceType::Keyboard, code: KeyCode::Key3.spec_code(), modifier: Modifier { bits: 6 } }), secondary: None }),
        (KeyControl::SquadObjectSquare, KeyBind { primary: Some(Key { device_type: DeviceType::Keyboard, code: KeyCode::Key4.spec_code(), modifier: Modifier { bits: 6 } }), secondary: None }),
        (KeyControl::SquadObjectStar, KeyBind { primary: Some(Key { device_type: DeviceType::Keyboard, code: KeyCode::Key5.spec_code(), modifier: Modifier { bits: 6 } }), secondary: None }),
        (KeyControl::SquadObjectSpiral, KeyBind { primary: Some(Key { device_type: DeviceType::Keyboard, code: KeyCode::Key6.spec_code(), modifier: Modifier { bits: 6 } }), secondary: None }),
        (KeyControl::SquadObjectTriangle, KeyBind { primary: Some(Key { device_type: DeviceType::Keyboard, code: KeyCode::Key7.spec_code(), modifier: Modifier { bits: 6 } }), secondary: None }),
        (KeyControl::SquadObjectX, KeyBind { primary: Some(Key { device_type: DeviceType::Keyboard, code: KeyCode::Key8.spec_code(), modifier: Modifier { bits: 6 } }), secondary: None }),
        (KeyControl::SquadClearAllObjectMarkers, KeyBind { primary: Some(Key { device_type: DeviceType::Keyboard, code: KeyCode::Key9.spec_code(), modifier: Modifier { bits: 6 } }), secondary: None }),
        (KeyControl::MasterySkillsActivateMasterySkill, KeyBind { primary: Some(Key { device_type: DeviceType::Keyboard, code: KeyCode::J.spec_code(), modifier: Modifier { bits: 0 } }), secondary: None }),
        (KeyControl::MiscellaneousInteract, KeyBind { primary: Some(Key { device_type: DeviceType::Keyboard, code: KeyCode::F.spec_code(), modifier: Modifier { bits: 0 } }), secondary: None }),
        (KeyControl::MiscellaneousShowEnemyNames, KeyBind { primary: Some(Key { device_type: DeviceType::Keyboard, code: KeyCode::LeftCtrl.spec_code(), modifier: Modifier { bits: 0 } }), secondary: None }),
        (KeyControl::MiscellaneousShowAllyNames, KeyBind { primary: Some(Key { device_type: DeviceType::Keyboard, code: KeyCode::LeftAlt.spec_code(), modifier: Modifier { bits: 0 } }), secondary: None }),
        (KeyControl::MiscellaneousToggleLanguage, KeyBind { primary: Some(Key { device_type: DeviceType::Keyboard, code: KeyCode::RightCtrl.spec_code(), modifier: Modifier { bits: 0 } }), secondary: None }),
        (KeyControl::MiscellaneousToggleFullScreen, KeyBind { primary: Some(Key { device_type: DeviceType::Keyboard, code: KeyCode::Enter.spec_code(), modifier: Modifier { bits: 2 } }), secondary: None }),
        (KeyControl::MiscellaneousEquipUnequipNovelty, KeyBind { primary: Some(Key { device_type: DeviceType::Keyboard, code: KeyCode::U.spec_code(), modifier: Modifier { bits: 0 } }), secondary: None }),
        (KeyControl::MiscellaneousDecorateModeToggle, KeyBind { primary: Some(Key { device_type: DeviceType::Keyboard, code: KeyCode::L.spec_code(), modifier: Modifier { bits: 0 } }), secondary: None }),
    ]
}

/// The factory-default binding of every control the plugin drives.
pub open spec fn spec_default_input_bindings() -> Seq<(KeyControl, KeyBind)> {
    default_bindings_part1() + default_bindings_part2() + default_bindings_part3()
        + default_bindings_part4()
}

/// Append part 1 of the factory-default binding table.
#[verifier::rlimit(60)]
fn push_default_bindings_part1(v: &mut Vec<(KeyControl, KeyBind)>)
    ensures
        final(v)@ == old(v)@ + default_bindings_part1(),
{
    v.push((KeyControl::MovementMoveForward, KeyBind { primary: Some(Key { device_type: DeviceType::Keyboard, code: KeyCode::W.code(), modifier: Modifier { bits: 0 } }), secondary: Some(Key { device_type: DeviceType::Keyboard, code: KeyCode::ArrowUp.code(), modifier: Modifier { bits: 0 } }) }));
    v.push((KeyControl::MovementMoveBackward, KeyBind { primary: Some(Key { device_type: DeviceType::Keyboard, code: KeyCode::S.code(), modifier: Modifier { bits: 0 } }), secondary: Some(Key { device_type: DeviceType::Keyboard, code: KeyCode::ArrowDown.code(), modifier: Modifier { bits: 0 } }) }));
    v.push((KeyControl::MovementStrafeLeft, KeyBind { primary: Some(Key { device_type: DeviceType::Keyboard, code: KeyCode::A.code(), modifier: Modifier { bits: 0 } }), secondary: Some(Key { device_type: DeviceType::Keyboard, code: KeyCode::ArrowLeft.code(), modifier: Modifier { bits: 0 } }) }));
    v.push((KeyControl::MovementStrafeRight, KeyBind { primary: Some(Key { device_type: DeviceType::Keyboard, code: KeyCode::D.code(), modifier: Modifier { bits: 0 } }), secondary: Some(Key { device_type: DeviceType::Keyboard, code: KeyCode::ArrowRight.code(), modifier: Modifier { bits: 0 } }) }));
    v.push((KeyControl::MovementTurnLeft, KeyBind { primary: Some(Key { device_type: DeviceType::Keyboard, code: KeyCode::Q.code(), modifier: Modifier { bits: 0 } }), secondary: None }));
    v.push((KeyControl::MovementTurnRight, KeyBind { primary: Some(Key { device_type: DeviceType::Keyboard, code: KeyCode::E.code(), modifier: Modifier { bits: 0 } }), secondary: None }));
    v.push((KeyControl::MovementDodge, KeyBind { primary: Some(Key { device_type: DeviceType::Keyboard, code: KeyCode::V.code(), modifier: Modifier { bits: 0 } }), secondary: None }));
    v.push((KeyControl::MovementAutorun, KeyBind { primary: Some(Key { device_type: DeviceType::Keyboard, code: KeyCode::R.code(), modifier: Modifier { bits: 0 } }), secondary: Some(Key { device_type: DeviceType::Keyboard, code: KeyCode::NumLock.code(), modifier: Modifier { bits: 0 } }) }));
    v.push((KeyControl::MovementJump, KeyBind { primary: Some(Key { device_type: DeviceType::Keyboard, code: KeyCode::Space.code(), modifier: Modifier { bits: 0 } }), secondary: None }));
    v.push((KeyControl::MovementSwimUp, KeyBind { primary: Some(Key { device_type: DeviceType::Keyboard, code: KeyCode::Space.code(), modifier: Modifier { bits: 0 } }), secondary: None }));
    v.push((KeyControl::SkillsSwapWeapons, KeyBind { primary: Some(Key { device_type: DeviceType::Keyboard, code: KeyCode::Tilde.code(), modifier: Modifier { bits: 0 } }), secondary: None }));
    v.push((KeyControl::SkillsWeaponSkill1, KeyBind { primary: Some(Key { device_type: DeviceType::Keyboard, code: KeyCode::Key1.code(), modifier: Modifier { bits: 0 } }), secondary: None }));
    v.push((KeyControl::SkillsWeaponSkill2, KeyBind { primary: Some(Key { device_type: DeviceType::Keyboard, code: KeyCode::Key2.code(), modifier: Modifier { bits: 0 } }), secondary: None }));
    v.push((KeyControl::SkillsWeaponSkill3, KeyBind { primary: Some(Key { device_type: DeviceType::Keyboard, code: KeyCode::Key3.code(), modifier: Modifier { bits: 0 } }), secondary: None }));
    v.push((KeyControl::SkillsWeaponSkill4, KeyBind { primary: Some(Key { device_type: DeviceType::Keyboard, code: KeyCode::Key4.code(), modifier: Modifier { bits: 0 } }), secondary: None }));
    v.push((KeyControl::SkillsWeaponSkill5, KeyBind { primary: Some(Key { device_type: DeviceType::Keyboard, code: KeyCode::Key5.code(), modifier: Modifier { bits: 0 } }), secondary: None }));
    v.push((KeyControl::SkillsHealingSkill, KeyBind { primary: Some(Key { device_type: DeviceType::Keyboard, code: KeyCode::Key6.code(), modifier: Modifier { bits: 0 } }), secondary: None }));
    v.push((KeyControl::SkillsUtilitySkill1, KeyBind { primary: Some(Key { device_type: DeviceType::Keyboard, code: KeyCode::Key7.code(), modifier: Modifier { bits: 0 } }), secondary: None }));
    v.push((KeyControl::SkillsUtilitySkill2, KeyBind { primary: Some(Key { device_type: DeviceType::Keyboard, code: KeyCode::Key8.code(), modifier: Modifier { bits: 0 } }), secondary: None }));
    v.push((KeyControl::SkillsUtilitySkill3, KeyBind { primary: Some(Key { device_type: DeviceType::Keyboard, code: KeyCode::Key9.code(), modifier: Modifier { bits: 0 } }), secondary: None }));
    v.push((KeyControl::SkillsEliteSkill, KeyBind { primary: Some(Key { device_type: DeviceType::Keyboard, code: KeyCode::Key0.code(), modifier: Modifier { bits: 0 } }), secondary: None }));
    v.push((KeyControl::SkillsProfessionSkill1, KeyBind { primary: Some(Key { device_type: DeviceType::Keyboard, code: KeyCode::F1.code(), modifier: Modifier { bits: 0 } }), secondary: None }));
    v.push((KeyControl::SkillsProfessionSkill2, KeyBind { primary: Some(Key { device_type: DeviceType::Keyboard, code: KeyCode::F2.code(), modifier: Modifier { bits: 0 } }), secondary: None }));
    v.push((KeyControl::SkillsProfessionSkill3, KeyBind { primary: Some(Key { device_type: DeviceType::Keyboard, code: KeyCode::F3.code(), modifier: Modifier { bits: 0 } }), secondary: None }));
    v.push((KeyControl::SkillsProfessionSkill4, KeyBind { primary: Some(Key { device_type: DeviceType::Keyboard, code: KeyCode::F4.code(), modifier: Modifier { bits: 0 } }), secondary: None }));
    v.push((KeyControl::SkillsProfessionSkill5, KeyBind { primary: Some(Key { device_type: DeviceType::Keyboard, code: KeyCode::F5.code(), modifier: Modifier { bits: 0 } }), secondary: None }));
    v.push((KeyControl::SkillsProfessionSkill6, KeyBind { primary: Some(Key { device_type: DeviceType::Keyboard, code: KeyCode::F6.code(), modifier: Modifier { bits: 0 } }), secondary: None }));
    v.push((KeyControl::SkillsProfessionSkill7, KeyBind { primary: Some(Key { device_type: DeviceType::Keyboard, code: KeyCode::F7.code(), modifier: Modifier { bits: 0 } }), secondary: None }));
    proof {
        assert(v@ =~= old(v)@ + default_bindings_part1());
    }
}

/// Append part 2 of the factory-default binding table.
#[verifier::rlimit(60)]
fn push_default_bindings_part2(v: &mut Vec<(KeyControl, KeyBind)>)
    ensures
        final(v)@ == old(v)@ + default_bindings_part2(),
{
    v.push((KeyControl::SkillsSpecialAction, KeyBind { primary: Some(Key { device_type: DeviceType::Keyboard, code: KeyCode::N.code(), modifier: Modifier { bits: 0 } }), secondary: None }));
    v.push((KeyControl::TargetingAlertTarget, KeyBind { primary: Some(Key { device_type: DeviceType::Keyboard, code: KeyCode::T.code(), modifier: Modifier { bits: MOD_SHIFT } }), secondary: None }));
    v.push((KeyControl::TargetingCallTarget, KeyBind { primary: Some(Key { device_type: DeviceType::Keyboard, code: KeyCode::T.code(), modifier: Modifier { bits: MOD_CTRL } }), secondary: None }));
    v.push((KeyControl::TargetingTakeTarget, KeyBind { primary: Some(Key { device_type: DeviceType::Keyboard, code: KeyCode::T.code(), modifier: Modifier { bits: 0 } }), secondary: None }));
    v.push((KeyControl::TargetingNextEnemy, KeyBind { primary: Some(Key { device_type: DeviceType::Keyboard, code: KeyCode::Tab.code(), modifier: Modifier { bits: 0 } }), secondary: None }));
    v.push((KeyControl::TargetingPreviousEnemy, KeyBind { primary: Some(Key { device_type: DeviceType::Keyboard, code: KeyCode::Tab.code(), modifier: Modifier { bits: MOD_SHIFT } }), secondary: None }));
    v.push((KeyControl::UiBlackLionTradingDialog, KeyBind { primary: Some(Key { device_type: DeviceType::Keyboard, code: KeyCode::O.code(), modifier: Modifier { bits: 0 } }), secondary: None }));
    v.push((KeyControl::UiContactsDialog, KeyBind { primary: Some(Key { device_type: DeviceType::Keyboard, code: KeyCode::Y.code(), modifier: Modifier { bits: 0 } }), secondary: None }));
    v.push((KeyControl::UiGuildDialog, KeyBind { primary: Some(Key { device_type: DeviceType::Keyboard, code: KeyCode::G.code(), modifier: Modifier { bits: 0 } }), secondary: None }));
    v.push((KeyControl::UiHeroDialog, KeyBind { primary: Some(Key { device_type: DeviceType::Keyboard, code: KeyCode::H.code(), modifier: Modifier { bits: 0 } }), secondary: None }));
    v.push((KeyControl::UiInventoryDialog, KeyBind { primary: Some(Key { device_type: DeviceType::Keyboard, code: KeyCode::I.code(), modifier: Modifier { bits: 0 } }), secondary: None }));
    v.push((KeyControl::UiPetDialog, KeyBind { primary: Some(Key { device_type: DeviceType::Keyboard, code: KeyCode::K.code(), modifier: Modifier { bits: 0 } }), secondary: None }));
    v.push((KeyControl::UiLogOut, KeyBind { primary: Some(Key { device_type: DeviceType::Keyboard, code: KeyCode::F12.code(), modifier: Modifier { bits: 0 } }), secondary: None }));
    v.push((KeyControl::UiOptionsDialog, KeyBind { primary: Some(Key { device_type: DeviceType::Keyboard, code: KeyCode::F11.code(), modifier: Modifier { bits: 0 } }), secondary: None }));
    v.push((KeyControl::UiPartyDialog, KeyBind { primary: Some(Key { device_type: DeviceType::Keyboard, code: KeyCode::P.code(), modifier: Modifier { bits: 0 } }), secondary: None }));
    v.push((KeyControl::UiScoreboard, KeyBind { primary: Some(Key { device_type: DeviceType::Keyboard, code: KeyCode::B.code(), modifier: Modifier { bits: 0 } }), secondary: None }));
    v.push((KeyControl::UiWizardsVaultDialog, KeyBind { primary: Some(Key { device_type: DeviceType::Keyboard, code: KeyCode::H.code(), modifier: Modifier { bits: MOD_SHIFT } }), secondary: None }));
    v.push((KeyControl::UiInformationDialog, KeyBind { primary: Some(Key { device_type: DeviceType::Keyboard, code: KeyCode::Minus.code(), modifier: Modifier { bits: 0 } }), secondary: None }));
    v.push((KeyControl::UiShowHideChat, KeyBind { primary: Some(Key { device_type: DeviceType::Keyboard, code: KeyCode::Backslash.code(), modifier: Modifier { bits: 0 } }), secondary: None }));
    v.push((KeyControl::UiChatCommand, KeyBind { primary: Some(Key { device_type: DeviceType::Keyboard, code: KeyCode::Slash.code(), modifier: Modifier { bits: 0 } }), secondary: None }));
    v.push((KeyControl::UiChatMessage, KeyBind { primary: Some(Key { device_type: DeviceType::Keyboard, code: KeyCode::Enter.code(), modifier: Modifier { bits: 0 } }), secondary: Some(Key { device_type: DeviceType::Keyboard, code: KeyCode::EnterNum.code(), modifier: Modifier { bits: 0 } }) }));
    v.push((KeyControl::UiChatReply, KeyBind { primary: Some(Key { device_type: DeviceType::Keyboard, code: KeyCode::Backspace.code(), modifier: Modifier { bits: 0 } }), secondary: None }));
    v.push((KeyControl::UiShowHideUi, KeyBind { primary: Some(Key { device_type: DeviceType::Keyboard, code: KeyCode::H.code(), modifier: Modifier { bits: MOD_CTRL + MOD_SHIFT } }), secondary: None }));
    v.push((KeyControl::UiShowHideSquadBroadcastChat, KeyBind { primary: Some(Key { device_type: DeviceType::Keyboard, code: KeyCode::Backslash.code(), modifier: Modifier { bits: MOD_SHIFT } }), secondary: None }));
    v.push((KeyControl::UiSquadBroadcastMessage, KeyBind { primary: Some(Key { device_type: DeviceType::Keyboard, code: KeyCode::Enter.code(), modifier: Modifier { bits: MOD_SHIFT } }), secondary: Some(Key { device_type: DeviceType::Keyboard, code: KeyCode::EnterNum.code(), modifier: Modifier { bits: MOD_SHIFT } }) }));
    v.push((KeyControl::CameraZoomIn, KeyBind { primary: Some(Key { device_type: DeviceType::Keyboard, code: KeyCode::Prior.code(), modifier: Modifier { bits: 0 } }), secondary: None }));
    v.push((KeyControl::CameraZoomOut, KeyBind { primary: Some(Key { device_type: DeviceType::Keyboard, code: KeyCode::Next.code(), modifier: Modifier { bits: 0 } }), secondary: None }));
    v.push((KeyControl::ScreenshotNormal, KeyBind { primary: Some(Key { device_type: DeviceType::Keyboard, code: KeyCode::Print.code(), modifier: Modifier { bits: 0 } }), secondary: None }));
    proof {
        assert(v@ =~= old(v)@ + default_bindings_part2());
    }
}

/// Append part 3 of the factory-default binding table.
#[verifier::rlimit(60)]
fn push_default_bindings_part3(v: &mut Vec<(KeyControl, KeyBind)>)
    ensures
        final(v)@ == old(v)@ + default_bindings_part3(),
{
    v.push((KeyControl::MapOpenClose, KeyBind { primary: Some(Key { device_type: DeviceType::Keyboard, code: KeyCode::M.code(), modifier: Modifier { bits: 0 } }), secondary: None }));
    v.push((KeyControl::MapRecenter, KeyBind { primary: Some(Key { device_type: DeviceType::Keyboard, code: KeyCode::Space.code(), modifier: Modifier { bits: 0 } }), secondary: None }));
    v.push((KeyControl::MapFloorDown, KeyBind { primary: Some(Key { device_type: DeviceType::Keyboard, code: KeyCode::Next.code(), modifier: Modifier { bits: 0 } }), secondary: None }));
    v.push((KeyControl::MapFloorUp, KeyBind { primary: Some(Key { device_type: DeviceType::Keyboard, code: KeyCode::Prior.code(), modifier: Modifier { bits: 0 } }), secondary: None }));
    v.push((KeyControl::MapZoomIn, KeyBind { primary: Some(Key { device_type: DeviceType::Keyboard, code: KeyCode::PlusNum.code(), modifier: Modifier { bits: 0 } }), secondary: Some(Key { device_type: DeviceType::Keyboard, code: KeyCode::Equals.code(), modifier: Modifier { bits: 0 } }) }));
    v.push((KeyControl::MapZoomOut, KeyBind { primary: Some(Key { device_type: DeviceType::Keyboard, code: KeyCode::MinusNum.code(), modifier: Modifier { bits: 0 } }), secondary: Some(Key { device_type: DeviceType::Keyboard, code: KeyCode::Minus.code(), modifier: Modifier { bits: 0 } }) }));
    v.push((KeyControl::MountsMountDismount, KeyBind { primary: Some(Key { device_type: DeviceType::Keyboard, code: KeyCode::X.code(), modifier: Modifier { bits: 0 } }), secondary: None }));
    v.push((KeyControl::MountsMountAbility1, KeyBind { primary: Some(Key { device_type: DeviceType::Keyboard, code: KeyCode::V.code(), modifier: Modifier { bits: 0 } }), secondary: None }));
    v.push((KeyControl::MountsMountAbility2, KeyBind { primary: Some(Key { device_type: DeviceType::Keyboard, code: KeyCode::C.code(), modifier: Modifier { bits: 0 } }), secondary: None }));
    v.push((KeyControl::SpectatorsNearestFixedCamera, KeyBind { primary: Some(Key { device_type: DeviceType::Keyboard, code: KeyCode::Tab.code(), modifier: Modifier { bits: MOD_SHIFT } }), secondary: None }));
    v.push((KeyControl::SpectatorsNearestPlayer, KeyBind { primary: Some(Key { device_type: DeviceType::Keyboard, code: KeyCode::Tab.code(), modifier: Modifier { bits: 0 } }), secondary: None }));
    v.push((KeyControl::SpectatorsRedPlayer1, KeyBind { primary: Some(Key { device_type: DeviceType::Keyboard, code: KeyCode::Key1.code(), modifier: Modifier { bits: 0 } }), secondary: None }));
    v.push((KeyControl::SpectatorsRedPlayer2, KeyBind { primary: Some(Key { device_type: DeviceType::Keyboard, code: KeyCode::Key2.code(), modifier: Modifier { bits: 0 } }), secondary: None }));
    v.push((KeyControl::SpectatorsRedPlayer3, KeyBind { primary: Some(Key { device_type: DeviceType::Keyboard, code: KeyCode::Key3.code(), modifier: Modifier { bits: 0 } }), secondary: None }));
    v.push((KeyControl::SpectatorsRedPlayer4, KeyBind { primary: Some(Key { device_type: DeviceType::Keyboard, code: KeyCode::Key4.code(), modifier: Modifier { bits: 0 } }), secondary: None }));
    v.push((KeyControl::SpectatorsRedPlayer5, KeyBind { primary: Some(Key { device_type: DeviceType::Keyboard, code: KeyCode::Key5.code(), modifier: Modifier { bits: 0 } }), secondary: None }));
    v.push((KeyControl::SpectatorsBluePlayer1, KeyBind { primary: Some(Key { device_type: DeviceType::Keyboard, code: KeyCode::Key6.code(), modifier: Modifier { bits: 0 } }), secondary: None }));
    v.push((KeyControl::SpectatorsBluePlayer2, KeyBind { primary: Some(Key { device_type: DeviceType::Keyboard, code: KeyCode::Key7.code(), modifier: Modifier { bits: 0 } }), secondary: None }));
    v.push((KeyControl::SpectatorsBluePlayer3, KeyBind { primary: Some(Key { device_type: DeviceType::Keyboard, code: KeyCode::Key8.code(), modifier: Modifier { bits: 0 } }), secondary: None }));
    v.push((KeyControl::SpectatorsBluePlayer4, KeyBind { primary: Some(Key { device_type: DeviceType::Keyboard, code: KeyCode::Key9.code(), modifier: Modifier { bits: 0 } }), secondary: None }));
    v.push((KeyControl::SpectatorsBluePlayer5, KeyBind { primary: Some(Key { device_type: DeviceType::Keyboard, code: KeyCode::Key0.code(), modifier: Modifier { bits: 0 } }), secondary: None }));
    v.push((KeyControl::SpectatorsFreeCamera, KeyBind { primary: Some(Key { device_type: DeviceType::Keyboard, code: KeyCode::F.code(), modifier: Modifier { bits: MOD_CTRL + MOD_SHIFT } }), secondary: None }));
    v.push((KeyControl::SpectatorsFreeCameraBoost, KeyBind { primary: Some(Key { device_type: DeviceType::Keyboard, code: KeyCode::E.code(), modifier: Modifier { bits: 0 } }), secondary: None }));
    v.push((KeyControl::SpectatorsFreeCameraForward, KeyBind { primary: Some(Key { device_type: DeviceType::Keyboard, code: KeyCode::W.code(), modifier: Modifier { bits: 0 } }), secondary: None }));
    v.push((KeyControl::SpectatorsFreeCameraBackward, KeyBind { primary: Some(Key { device_type: DeviceType::Keyboard, code: KeyCode::S.code(), modifier: Modifier { bits: 0 } }), secondary: None }));
    v.push((KeyControl::SpectatorsFreeCameraLeft, KeyBind { primary: Some(Key { device_type: DeviceType::Keyboard, code: KeyCode::A.code(), modifier: Modifier { bits: 0 } }), secondary: None }));
    v.push((KeyControl::SpectatorsFreeCameraRight, KeyBind { primary: Some(Key { device_type: DeviceType::Keyboard, code: KeyCode::D.code(), modifier: Modifier { bits: 0 } }), secondary: None }));
    v.push((KeyControl::SpectatorsFreeCameraUp, KeyBind { primary: Some(Key { device_type: DeviceType::Keyboard, code: KeyCode::Space.code(), modifier: Modifier { bits: 0 } }), secondary: None }));
    proof {
        assert(v@ =~= old(v)@ + default_bindings_part3());
    }
}

/// Append part 4 of the factory-default binding table.
#[verifier::rlimit(60)]
fn push_default_bindings_part4(v: &mut Vec<(KeyControl, KeyBind)>)
    ensures
        final(v)@ == old(v)@ + default_bindings_part4(),
{
    v.push((KeyControl::SpectatorsFreeCameraDown, KeyBind { primary: Some(Key { device_type: DeviceType::Keyboard, code: KeyCode::V.code(), modifier: Modifier { bits: 0 } }), secondary: None }));
    v.push((KeyControl::SquadLocationArrow, KeyBind { primary: Some(Key { device_type: DeviceType::Keyboard, code: KeyCode::Key1.code(), modifier: Modifier { bits: MOD_ALT } }), secondary: None }));
    v.push((KeyControl::SquadLocationCircle, KeyBind { primary: Some(Key { device_type: DeviceType::Keyboard, code: KeyCode::Key2.code(), modifier: Modifier { bits: MOD_ALT } }), secondary: None }));
    v.push((KeyControl::SquadLocationHeart, KeyBind { primary: Some(Key { device_type: DeviceType::Keyboard, code: KeyCode::Key3.code(), modifier: Modifier { bits: MOD_ALT } }), secondary: None }));
    v.push((KeyControl::SquadLocationSquare, KeyBind { primary: Some(Key { device_type: DeviceType::Keyboard, code: KeyCode::Key4.code(), modifier: Modifier { bits: MOD_ALT } }), secondary: None }));
    v.push((KeyControl::SquadLocationStar, KeyBind { primary: Some(Key { device_type: DeviceType::Keyboard, code: KeyCode::Key5.code(), modifier: Modifier { bits: MOD_ALT } }), secondary: None }));
    v.push((KeyControl::SquadLocationSpiral, KeyBind { primary: Some(Key { device_type: DeviceType::Keyboard, code: KeyCode::Key6.code(), modifier: Modifier { bits: MOD_ALT } }), secondary: None }));
    v.push((KeyControl::SquadLocationTriangle, KeyBind { primary: Some(Key { device_type: DeviceType::Keyboard, code: KeyCode::Key7.code(), modifier: Modifier { bits: MOD_ALT } }), secondary: None }));
    v.push((KeyControl::SquadLocationX, KeyBind { primary: Some(Key { device_type: DeviceType::Keyboard, code: KeyCode::Key8.code(), modifier: Modifier { bits: MOD_ALT } }), secondary: None }));
    v.push((KeyControl::SquadClearAllLocationMarkers, KeyBind { primary: Some(Key { device_type: DeviceType::Keyboard, code: KeyCode::Key9.code(), modifier: Modifier { bits: MOD_ALT } }), secondary: None }));
    v.push((KeyControl::SquadObjectArrow, KeyBind { primary: Some(Key { device_type: DeviceType::Keyboard, code: KeyCode::Key1.code(), modifier: Modifier { bits: MOD_CTRL + MOD_ALT } }), secondary: None }));
    v.push((KeyControl::SquadObjectCircle, KeyBind { primary: Some(Key { device_type: DeviceType::Keyboard, code: KeyCode::Key2.code(), modifier: Modifier { bits: MOD_CTRL + MOD_ALT } }), secondary: None }));
    v.push((KeyControl::SquadObjectHeart, KeyBind { primary: Some(Key { device_type: DeviceType::Keyboard, code: KeyCode::Key3.code(), modifier: Modifier { bits: MOD_CTRL + MOD_ALT } }), secondary: None }));
    v.push((KeyControl::SquadObjectSquare, KeyBind { primary: Some(Key { device_type: DeviceType::Keyboard, code: KeyCode::Key4.code(), modifier: Modifier { bits: MOD_CTRL + MOD_ALT } }), secondary: None }));
    v.push((KeyControl::SquadObjectStar, KeyBind { primary: Some(Key { device_type: DeviceType::Keyboard, code: KeyCode::Key5.code(), modifier: Modifier { bits: MOD_CTRL + MOD_ALT } }), secondary: None }));
    v.push((KeyControl::SquadObjectSpiral, KeyBind { primary: Some(Key { device_type: DeviceType::Keyboard, code: KeyCode::Key6.code(), modifier: Modifier { bits: MOD_CTRL + MOD_ALT } }), secondary: None }));
    v.push((KeyControl::SquadObjectTriangle, KeyBind { primary: Some(Key { device_type: DeviceType::Keyboard, code: KeyCode::Key7.code(), modifier: Modifier { bits: MOD_CTRL + MOD_ALT } }), secondary: None }));
    v.push((KeyControl::SquadObjectX, KeyBind { primary: Some(Key { device_type: DeviceType::Keyboard, code: KeyCode::Key8.code(), modifier: Modifier { bits: MOD_CTRL + MOD_ALT } }), secondary: None }));
    v.push((KeyControl::SquadClearAllObjectMarkers, KeyBind { primary: Some(Key { device_type: DeviceType::Keyboard, code: KeyCode::Key9.code(), modifier: Modifier { bits: MOD_CTRL + MOD_ALT } }), secondary: None }));
    v.push((KeyControl::MasterySkillsActivateMasterySkill, KeyBind { primary: Some(Key { device_type: DeviceType::Keyboard, code: KeyCode::J.code(), modifier: Modifier { bits: 0 } }), secondary: None }));
    v.push((KeyControl::MiscellaneousInteract, KeyBind { primary: Some(Key { device_type: DeviceType::Keyboard, code: KeyCode::F.code(), modifier: Modifier { bits: 0 } }), secondary: None }));
    v.push((KeyControl::MiscellaneousShowEnemyNames, KeyBind { primary: Some(Key { device_type: DeviceType::Keyboard, code: KeyCode::LeftCtrl.code(), modifier: Modifier { bits: 0 } }), secondary: None }));
    v.push((KeyControl::MiscellaneousShowAllyNames, KeyBind { primary: Some(Key { device_type: DeviceType::Keyboard, code: KeyCode::LeftAlt.code(), modifier: Modifier { bits: 0 } }), secondary: None }));
    v.push((KeyControl::MiscellaneousToggleLanguage, KeyBind { primary: Some(Key { device_type: DeviceType::Keyboard, code: KeyCode::RightCtrl.code(), modifier: Modifier { bits: 0 } }), secondary: None }));
    v.push((KeyControl::MiscellaneousToggleFullScreen, KeyBind { primary: Some(Key { device_type: DeviceType::Keyboard, code: KeyCode::Enter.code(), modifier: Modifier { bits: MOD_CTRL } }), secondary: None }));
    v.push((KeyControl::MiscellaneousEquipUnequipNovelty, KeyBind { primary: Some(Key { device_type: DeviceType::Keyboard, code: KeyCode::U.code(), modifier: Modifier { bits: 0 } }), secondary: None }));
    v.push((KeyControl::MiscellaneousDecorateModeToggle, KeyBind { primary: Some(Key { device_type: DeviceType::Keyboard, code: KeyCode::L.code(), modifier: Modifier { bits: 0 } }), secondary: None }));
    proof {
        assert(v@ =~= old(v)@ + default_bindings_part4());
    }
}

/// Build the factory-default binding table.
pub fn default_input_bindings() -> (r: Vec<(KeyControl, KeyBind)>)
    ensures
        r@ == spec_default_input_bindings(),
{
    let mut v: Vec<(KeyControl, KeyBind)> = Vec::new();
    push_default_bindings_part1(&mut v);
    push_default_bindings_part2(&mut v);
    push_default_bindings_part3(&mut v);
    push_default_bindings_part4(&mut v);
    proof {
        assert(v@ =~= spec_default_input_bindings());
    }
    v
}

// ---------- The store and input resolution ----------

/// A concrete input to synthesize: a keyboard chord or a mouse button.
#[derive(Clone, Copy, Debug, PartialEq, Eq, Structural)]
pub enum InputAction {
    Keyboard(KeyCode, Modifier),
    Mouse(MouseButton),
}

/// The input a single bound key resolves to, if its code is known for its
/// device.
pub open spec fn spec_action_for(k: Key) -> Option<InputAction> {
    match k.device_type {
        DeviceType::Keyboard => match spec_key_from_gw2_code(k.code) {
            Some(kc) => Some(InputAction::Keyboard(kc, k.modifier)),
            None => None,
        },
        DeviceType::Mouse => match spec_mouse_from_gw2_code(k.code) {
            Some(mb) => Some(InputAction::Mouse(mb)),
            None => None,
        },
        DeviceType::Unset => None,
    }
}

/// Resolve one bound key to an input action.
pub fn action_for(k: &Key) -> (r: Option<InputAction>)
    ensures
        r == spec_action_for(*k),
{
    match k.device_type {
        DeviceType::Keyboard => match key_from_gw2_code(k.code) {
            Some(kc) => Some(InputAction::Keyboard(kc, k.modifier)),
            None => None,
        },
        DeviceType::Mouse => match mouse_from_gw2_code(k.code) {
            Some(mb) => Some(InputAction::Mouse(mb)),
            None => None,
        },
        DeviceType::Unset => None,
    }
}

/// First-match lookup of a control's binding.
pub open spec fn spec_lookup(entries: Seq<(KeyControl, KeyBind)>, kc: KeyControl) -> Option<
    KeyBind,
>
    decreases entries.len(),
{
    if entries.len() == 0 {
        None
    } else if entries[0].0 == kc {
        Some(entries[0].1)
    } else {
        spec_lookup(entries.drop_first(), kc)
    }
}

/// What `execute` resolves for a control: the first actionable key of its
/// binding, primary before secondary.
pub open spec fn spec_execute(entries: Seq<(KeyControl, KeyBind)>, kc: KeyControl) -> Option<
    InputAction,
> {
    match spec_lookup(entries, kc) {
        None => None,
        Some(kb) => {
            let prim = match kb.primary {
                Some(k) => spec_action_for(k),
                None => None,
            };
            match prim {
                Some(a) => Some(a),
                None => match kb.secondary {
                    Some(k) => spec_action_for(k),
                    None => None,
                },
            }
        },
    }
}

/// What `press_action_key` resolves for a numeric control identifier: the
/// first *present* key of the binding (primary before secondary), which then
/// either resolves or the press is dropped.
pub open spec fn spec_press_action_key(entries: Seq<(KeyControl, KeyBind)>, control_id: i32)
    -> Option<InputAction> {
    match crate::key_control::spec_control_from_code(control_id) {
        None => None,
        Some(kc) => match spec_lookup(entries, kc) {
            None => None,
            Some(kb) => match kb.primary {
                Some(k) => spec_action_for(k),
                None => match kb.secondary {
                    Some(k) => spec_action_for(k),
                    None => None,
                },
            },
        },
    }
}

/// The always-available bindings table.
pub struct BindingsStore {
    pub entries: Vec<(KeyControl, KeyBind)>,
}

impl BindingsStore {
    pub fn new() -> (r: Self)
        ensures
            r.entries@.len() == 0,
    {
        BindingsStore { entries: Vec::new() }
    }

    /// A snapshot copy of the whole table.
    pub fn get(&self) -> (r: Vec<(KeyControl, KeyBind)>)
        ensures
            r@ == self.entries@,
    {
        let mut out: Vec<(KeyControl, KeyBind)> = Vec::new();
        let n = self.entries.len();
        let mut i: usize = 0;
        while i < n
            invariant
                n == self.entries@.len(),
                0 <= i <= n,
                out@ == self.entries@.take(i as int),
            decreases n - i,
        {
            out.push(self.entries[i]);
            proof {
                assert(out@ =~= self.entries@.take(i as int + 1));
            }
            i = i + 1;
        }
        proof {
            assert(self.entries@.take(n as int) =~= self.entries@);
        }
        out
    }

    /// Replace the whole table.
    pub fn set(&mut self, v: Vec<(KeyControl, KeyBind)>)
        ensures
            final(self).entries@ == v@,
    {
        self.entries = v;
    }

    pub fn len(&self) -> (r: usize)
        ensures
            r == self.entries@.len(),
    {
        self.entries.len()
    }

    /// The binding stored for a control, if any (first match).
    pub fn lookup(&self, kc: KeyControl) -> (r: Option<KeyBind>)
        ensures
            r == spec_lookup(self.entries@, kc),
    {
        let n = self.entries.len();
        let mut i: usize = 0;
        proof {
            assert(self.entries@.skip(0) =~= self.entries@);
        }
        while i < n
            invariant
                n == self.entries@.len(),
                0 <= i <= n,
                spec_lookup(self.entries@, kc) == spec_lookup(self.entries@.skip(i as int), kc),
            decreases n - i,
        {
            let (k, b) = self.entries[i];
            proof {
                assert(self.entries@.skip(i as int)[0] == self.entries@[i as int]);
                assert(self.entries@.skip(i as int).drop_first() =~= self.entries@.skip(
                    i as int + 1,
                ));
            }
            if k == kc {
                return Some(b);
            }
            i = i + 1;
        }
        None
    }

    /// Resolve the input to synthesize for a control: its primary key if
    /// actionable, else its secondary. The caller performs the send.
    pub fn execute(&self, kc: KeyControl) -> (r: Option<InputAction>)
        ensures
            r == spec_execute(self.entries@, kc),
    {
        let kb = match self.lookup(kc) {
            Some(kb) => kb,
            None => {
                return None;
            },
        };
        match kb.primary {
            Some(k) => match action_for(&k) {
                Some(a) => {
                    return Some(a);
                },
                None => {},
            },
            None => {},
        }
        match kb.secondary {
            Some(k) => action_for(&k),
            None => None,
        }
    }
}

/// Resolve the input to synthesize for a numeric control identifier: the
/// binding's first present key, decoded for its device. The caller performs
/// the send.
pub fn press_action_key(bindings: &BindingsStore, control_id: i32) -> (r: Option<InputAction>)
    ensures
        r == spec_press_action_key(bindings.entries@, control_id),
{
    let control = match KeyControl::from_code(control_id) {
        Some(c) => c,
        None => {
            return None;
        },
    };
    let kb = match bindings.lookup(control) {
        Some(kb) => kb,
        None => {
            return None;
        },
    };
    let key = match kb.primary {
        Some(k) => k,
        None => match kb.secondary {
            Some(k) => k,
            None => {
                return None;
            },
        },
    };
    action_for(&key)
}

} // verus!
