//! Tests of the template titles, the plugin state, and the protocol shapes.

use gw2pad::protocol::{parse_launch_args, value_after, LaunchArgsError, SdState};
use gw2pad::state::{ActiveChar, PluginState, QueuedAction, RunState};
use gw2pad::templates::{
    build_slot_to_control, build_title_for_indices, equipment_slot_to_control, into_template_names,
    is_blank, resolve_key_control, wrap_title, Build, BuildTab, CharacterData, EquipmentTab,
    SetTemplateKey, SettingsKey,
};
use gw2pad::key_control::KeyControl;
use gw2pad::ui_state::UiState;

fn strings(parts: &[&str]) -> Vec<String> {
    parts.iter().map(|s| s.to_string()).collect()
}

#[test]
fn wrap_title_wraps_at_ten() {
    assert_eq!(wrap_title("Power Reaper Build", 10), "Power\nReaper\nBuild");
    assert_eq!(wrap_title("Heal Druid", 10), "Heal Druid");
    assert_eq!(wrap_title("", 10), "");
    // Runs of whitespace collapse to single separators.
    assert_eq!(wrap_title("  a   b  ", 10), "a b");
    // A single over-long word stays on its own line, unbroken.
    assert_eq!(wrap_title("Quickherald x", 10), "Quickherald\nx");
    assert_eq!(wrap_title("one two three four", 8), "one two\nthree\nfour");
}

#[test]
fn blank_names_are_blank() {
    assert!(is_blank(""));
    assert!(is_blank("   \t\n"));
    assert!(!is_blank(" x "));
}

#[test]
fn slots_resolve_to_controls() {
    assert_eq!(
        build_slot_to_control(1),
        Some(KeyControl::TemplatesBuildTemplate1)
    );
    assert_eq!(
        build_slot_to_control(9),
        Some(KeyControl::TemplatesBuildTemplate9)
    );
    assert_eq!(build_slot_to_control(0), None);
    assert_eq!(build_slot_to_control(10), None);
    assert_eq!(
        equipment_slot_to_control(4),
        Some(KeyControl::TemplatesEquipmentTemplate4)
    );
    assert_eq!(
        resolve_key_control("build", 3),
        Some(KeyControl::TemplatesBuildTemplate3)
    );
    assert_eq!(
        resolve_key_control("equipment", 9),
        Some(KeyControl::TemplatesEquipmentTemplate9)
    );
    assert_eq!(resolve_key_control("build", 0), None);
    assert_eq!(resolve_key_control("build", 10), None);
    assert_eq!(resolve_key_control("outfit", 3), None);
}

fn sample_character() -> CharacterData {
    CharacterData {
        name: "Rytlock".to_string(),
        build_tabs: vec![
            BuildTab {
                tab_index: 1,
                is_active: true,
                build: Build {
                    name: Some("Power Reaper".to_string()),
                },
            },
            BuildTab {
                tab_index: 2,
                is_active: false,
                build: Build { name: None },
            },
            BuildTab {
                tab_index: 3,
                is_active: false,
                build: Build {
                    name: Some("   ".to_string()),
                },
            },
        ],
        equipment_tabs: vec![EquipmentTab {
            tab_index: 2,
            name: Some("Raid Gear".to_string()),
            is_active: false,
        }],
    }
}

#[test]
fn template_names_skip_blank_and_missing() {
    let names = into_template_names(&sample_character());
    assert_eq!(names.build[0].as_deref(), Some("Power Reaper"));
    assert_eq!(names.build[1], None);
    // Whitespace-only names are dropped.
    assert_eq!(names.build[2], None);
    assert_eq!(names.equipment[1].as_deref(), Some("Raid Gear"));
    assert_eq!(names.equipment[0], None);
}

#[test]
fn titles_wrap_names_and_fall_back() {
    let c = sample_character();
    assert_eq!(build_title_for_indices(&c, Some(1), None), "Power\nReaper");
    // Equipment lookup is positional: the character's single equipment tab
    // sits at position 1.
    assert_eq!(
        build_title_for_indices(&c, Some(1), Some(1)),
        "Power\nReaper\nRaid Gear"
    );
    // A tab without a name gets the numbered fallback, wrapped.
    assert_eq!(
        build_title_for_indices(&c, Some(2), None),
        "Build\nTemplate 2"
    );
    // No applicable template at all.
    assert_eq!(
        build_title_for_indices(&c, Some(9), None),
        "Unknown\nTemplate"
    );
    assert_eq!(build_title_for_indices(&c, None, None), "Unknown\nTemplate");
}

#[test]
fn fallback_titles_name_the_slots() {
    let mut key = SetTemplateKey::new();
    assert_eq!(key.compute_fallback_title(), "Set Template");
    key.selected_build = Some(3);
    assert_eq!(key.compute_fallback_title(), "B3");
    key.selected_equipment = Some(7);
    assert_eq!(key.compute_fallback_title(), "B3 / E7");
    key.selected_build = None;
    assert_eq!(key.compute_fallback_title(), "E7");
    let settings = SettingsKey::new();
    assert!(!settings.hold_fired);
}

#[test]
fn plugin_state_queues_in_order() {
    let mut st = PluginState::new();
    assert!(!st.has_pending());
    st.queue_exec(KeyControl::MovementJump);
    st.queue_exec(KeyControl::MovementDodge);
    assert!(st.has_pending());
    let drained = st.drain_pending();
    assert_eq!(
        drained,
        vec![KeyControl::MovementJump, KeyControl::MovementDodge]
    );
    assert!(!st.has_pending());
    assert_eq!(st.drain_pending(), vec![]);
    let qa = QueuedAction {
        action: KeyControl::MovementJump.code(),
        allow_in_combat: false,
    };
    assert!(!qa.allow_in_combat);
    assert_eq!(RunState::Stopped, RunState::Stopped);
}

#[test]
fn active_char_holds_a_name() {
    let mut ac = ActiveChar::new();
    assert_eq!(ac.get(), None);
    ac.set(Some("Eir".to_string()));
    assert_eq!(ac.get().as_deref(), Some("Eir"));
    ac.set(None);
    assert_eq!(ac.get(), None);
}

#[test]
fn sd_state_wire_values() {
    assert_eq!(SdState::Primary.as_u8(), 0);
    assert_eq!(SdState::Secondary.as_u8(), 1);
    assert_eq!(SdState::from_u8(0), Some(SdState::Primary));
    assert_eq!(SdState::from_u8(1), Some(SdState::Secondary));
    assert_eq!(SdState::from_u8(2), None);
}

#[test]
fn value_after_finds_the_following_argument() {
    let argv = strings(&["plugin", "-port", "8123", "-pluginUUID", "abc"]);
    assert_eq!(value_after(&argv, "-port"), Some("8123"));
    assert_eq!(value_after(&argv, "-pluginUUID"), Some("abc"));
    assert_eq!(value_after(&argv, "-registerEvent"), None);
    // A flag in last position has no following value.
    let tail = strings(&["plugin", "-port"]);
    assert_eq!(value_after(&tail, "-port"), None);
}

#[test]
fn launch_args_parse_or_fail_in_order() {
    let ok = strings(&[
        "plugin",
        "-port",
        "8123",
        "-pluginUUID",
        "com.example.deck",
        "-registerEvent",
        "registerPlugin",
    ]);
    let args = parse_launch_args(&ok).expect("well-formed launch arguments");
    assert_eq!(args.port, 8123);
    assert_eq!(args.plugin_uuid, "com.example.deck");
    assert_eq!(args.register_event, "registerPlugin");

    let no_port = strings(&["plugin", "-pluginUUID", "u", "-registerEvent", "r"]);
    assert_eq!(
        parse_launch_args(&no_port).unwrap_err(),
        LaunchArgsError::MissingPort
    );
    let no_uuid = strings(&["plugin", "-port", "80", "-registerEvent", "r"]);
    assert_eq!(
        parse_launch_args(&no_uuid).unwrap_err(),
        LaunchArgsError::MissingPluginUuid
    );
    let no_reg = strings(&["plugin", "-port", "80", "-pluginUUID", "u"]);
    assert_eq!(
        parse_launch_args(&no_reg).unwrap_err(),
        LaunchArgsError::MissingRegisterEvent
    );
    let bad_port = strings(&[
        "plugin",
        "-port",
        "99999",
        "-pluginUUID",
        "u",
        "-registerEvent",
        "r",
    ]);
    assert_eq!(
        parse_launch_args(&bad_port).unwrap_err(),
        LaunchArgsError::InvalidPort
    );
}

#[test]
fn ui_state_decodes_flag_bits() {
    let ui = UiState::from_raw(0b100_1001);
    assert!(ui.is_in_combat());
    assert!(ui.is_map_open());
    assert!(ui.has_focus());
    assert!(!ui.is_textbox_active());
    assert!(!ui.is_competitive_mode());
    assert!(!ui.is_compass_top_right());
    assert!(!ui.has_compass_rotation());
    // Unknown high bits are dropped.
    let hi = UiState::from_raw(0xFFFF_FF80);
    assert_eq!(hi.bits, 0);
}
