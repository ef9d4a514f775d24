//! Tests of the binding data model: attribute parsing, the factory-default
//! table, and input resolution.

use gw2pad::bindings::{
    action_for, default_input_bindings, parse_code, parse_device, parse_modifier,
    press_action_key, BindingsStore, DeviceType, InputAction, Key, KeyBind, Modifier, MOD_ALT,
    MOD_CTRL, MOD_SHIFT,
};
use gw2pad::key_code::{key_from_gw2_code, mouse_from_gw2_code, KeyCode, MouseButton};
use gw2pad::key_control::KeyControl;
use gw2pad::parse::{parse_i32_bytes, parse_u16_bytes};

#[test]
fn decimal_parsing_signed() {
    assert_eq!(parse_i32_bytes(b"0"), Some(0));
    assert_eq!(parse_i32_bytes(b"42"), Some(42));
    assert_eq!(parse_i32_bytes(b"-42"), Some(-42));
    assert_eq!(parse_i32_bytes(b"+7"), Some(7));
    assert_eq!(parse_i32_bytes(b"2147483647"), Some(i32::MAX));
    assert_eq!(parse_i32_bytes(b"-2147483648"), Some(i32::MIN));
    assert_eq!(parse_i32_bytes(b"2147483648"), None);
    assert_eq!(parse_i32_bytes(b"-2147483649"), None);
    assert_eq!(parse_i32_bytes(b""), None);
    assert_eq!(parse_i32_bytes(b"-"), None);
    assert_eq!(parse_i32_bytes(b"12a"), None);
    assert_eq!(parse_i32_bytes(b" 5"), None);
    assert_eq!(parse_i32_bytes(b"0009"), Some(9));
}

#[test]
fn decimal_parsing_unsigned() {
    assert_eq!(parse_u16_bytes(b"0"), Some(0));
    assert_eq!(parse_u16_bytes(b"65535"), Some(65535));
    assert_eq!(parse_u16_bytes(b"65536"), None);
    assert_eq!(parse_u16_bytes(b"-1"), None);
    assert_eq!(parse_u16_bytes(b"+80"), Some(80));
    assert_eq!(parse_u16_bytes(b""), None);
}

#[test]
fn device_names_parse() {
    assert_eq!(parse_device("Mouse"), Some(DeviceType::Mouse));
    assert_eq!(parse_device("Keyboard"), Some(DeviceType::Keyboard));
    assert_eq!(parse_device("None"), Some(DeviceType::Unset));
    assert_eq!(parse_device("Gamepad"), None);
    assert_eq!(parse_device("mouse"), None);
}

#[test]
fn button_codes_default_to_left_alt() {
    assert_eq!(parse_code(Some("87")), 87);
    assert_eq!(parse_code(Some("-3")), -3);
    assert_eq!(parse_code(Some("x")), 0);
    assert_eq!(parse_code(None), 0);
    // Left-alt's code really is zero.
    assert_eq!(KeyCode::LeftAlt.code(), 0);
}

#[test]
fn modifier_bits_parse() {
    assert_eq!(parse_modifier(Some("1")).bits, MOD_SHIFT);
    assert_eq!(parse_modifier(Some("3")).bits, MOD_SHIFT + MOD_CTRL);
    assert_eq!(parse_modifier(Some("7")).bits, MOD_SHIFT + MOD_CTRL + MOD_ALT);
    // Unknown bits collapse to no modifiers.
    assert_eq!(parse_modifier(Some("8")).bits, 0);
    assert_eq!(parse_modifier(Some("-1")).bits, 0);
    assert_eq!(parse_modifier(None).bits, 0);
    let m = Modifier { bits: 5 };
    assert!(m.has_shift());
    assert!(!m.has_ctrl());
    assert!(m.has_alt());
}

#[test]
fn key_code_tables_round_trip() {
    assert_eq!(key_from_gw2_code(87), Some(KeyCode::W));
    assert_eq!(key_from_gw2_code(21), Some(KeyCode::Space));
    assert_eq!(key_from_gw2_code(107), None);
    // Alias codes map onto the canonical keys.
    assert_eq!(key_from_gw2_code(135), Some(KeyCode::LeftShift));
    assert_eq!(key_from_gw2_code(111), Some(KeyCode::Backslash));
    assert_eq!(key_from_gw2_code(KeyCode::Tilde.code()), Some(KeyCode::Tilde));
    assert_eq!(mouse_from_gw2_code(0), Some(MouseButton::Left));
    assert_eq!(mouse_from_gw2_code(2), Some(MouseButton::Middle));
    assert_eq!(mouse_from_gw2_code(7), Some(MouseButton::X(7)));
    assert_eq!(mouse_from_gw2_code(21), None);
}

#[test]
fn control_codes_round_trip() {
    assert_eq!(KeyControl::MovementMoveForward.code(), 0);
    assert_eq!(KeyControl::MountsMountDismount.code(), 152);
    assert_eq!(
        KeyControl::from_code(152),
        Some(KeyControl::MountsMountDismount)
    );
    // 58 was never assigned.
    assert_eq!(KeyControl::from_code(58), None);
    assert_eq!(KeyControl::from_code(-1), None);
}

#[test]
fn default_table_holds_the_movement_row() {
    let defaults = default_input_bindings();
    assert_eq!(defaults.len(), 111);
    let forward = defaults
        .iter()
        .find(|(kc, _)| *kc == KeyControl::MovementMoveForward)
        .map(|(_, kb)| *kb)
        .expect("move-forward must be bound by default");
    assert_eq!(
        forward.primary,
        Some(Key {
            device_type: DeviceType::Keyboard,
            code: KeyCode::W.code(),
            modifier: Modifier { bits: 0 },
        })
    );
    assert_eq!(
        forward.secondary.map(|k| k.code),
        Some(KeyCode::ArrowUp.code())
    );
    // A chorded default: alert target is shift+T.
    let alert = defaults
        .iter()
        .find(|(kc, _)| *kc == KeyControl::TargetingAlertTarget)
        .map(|(_, kb)| *kb)
        .unwrap();
    let prim = alert.primary.unwrap();
    assert_eq!(prim.code, KeyCode::T.code());
    assert_eq!(prim.modifier.bits, MOD_SHIFT);
    // Every key in the table is unique.
    for (i, (kc, _)) in defaults.iter().enumerate() {
        assert!(
            defaults.iter().skip(i + 1).all(|(other, _)| other != kc),
            "duplicate control in the default table"
        );
    }
}

#[test]
fn store_resolves_inputs() {
    let mut store = BindingsStore::new();
    assert_eq!(store.len(), 0);
    store.set(default_input_bindings());
    assert_eq!(store.len(), 111);
    // Dodge is bound to V.
    match store.execute(KeyControl::MovementDodge) {
        Some(InputAction::Keyboard(kc, m)) => {
            assert_eq!(kc, KeyCode::V);
            assert_eq!(m.bits, 0);
        }
        other => panic!("unexpected action {other:?}"),
    }
    // An unbound control resolves to nothing.
    assert_eq!(store.execute(KeyControl::MovementAboutFace), None);
    let copy = store.get();
    assert_eq!(copy.len(), 111);
}

#[test]
fn unresolvable_primary_falls_back_in_execute_only() {
    // `execute` tries the secondary when the primary is not actionable;
    // `press_action_key` stops at the first present key.
    let mut store = BindingsStore::new();
    let bad_primary = Key {
        device_type: DeviceType::Keyboard,
        code: 9999,
        modifier: Modifier { bits: 0 },
    };
    let good_secondary = Key {
        device_type: DeviceType::Mouse,
        code: 1,
        modifier: Modifier { bits: 0 },
    };
    store.set(vec![(
        KeyControl::MovementJump,
        KeyBind {
            primary: Some(bad_primary),
            secondary: Some(good_secondary),
        },
    )]);
    assert_eq!(
        store.execute(KeyControl::MovementJump),
        Some(InputAction::Mouse(MouseButton::Right))
    );
    let jump_code = KeyControl::MovementJump.code();
    assert_eq!(press_action_key(&store, jump_code), None);
    assert_eq!(press_action_key(&store, 9999), None);
    // A resolvable primary is used by both.
    assert_eq!(
        action_for(&Key {
            device_type: DeviceType::Keyboard,
            code: KeyCode::Space.code(),
            modifier: Modifier { bits: 0 },
        }),
        Some(InputAction::Keyboard(KeyCode::Space, Modifier { bits: 0 }))
    );
}
