//! The game's key-control identifiers: every remappable in-game action, with
//! its numeric wire code as the game's binding export uses it.

use vstd::prelude::*;

verus! {

/// Every remappable in-game action.
#[derive(Clone, Copy, Debug, PartialEq, Eq, Hash, Structural)]
pub enum KeyControl {
    MovementMoveForward,
    MovementMoveBackward,
    MovementStrafeLeft,
    MovementStrafeRight,
    MovementTurnLeft,
    MovementTurnRight,
    MovementDodge,
    MovementAutorun,
    MovementWalk,
    MovementJump,
    MovementSwimUp,
    MovementSwimDown,
    MovementAboutFace,
    SkillsSwapWeapons,
    SkillsWeaponSkill1,
    SkillsWeaponSkill2,
    SkillsWeaponSkill3,
    SkillsWeaponSkill4,
    SkillsWeaponSkill5,
    SkillsHealingSkill,
    SkillsUtilitySkill1,
    SkillsUtilitySkill2,
    SkillsUtilitySkill3,
    SkillsEliteSkill,
    SkillsProfessionSkill1,
    SkillsProfessionSkill2,
    SkillsProfessionSkill3,
    SkillsProfessionSkill4,
    SkillsProfessionSkill5,
    SkillsProfessionSkill6,
    SkillsProfessionSkill7,
    SkillsSpecialAction,
    TargetingAlertTarget,
    TargetingCallTarget,
    TargetingTakeTarget,
    TargetingSetPersonalTarget,
    TargetingTakePersonalTarget,
    TargetingNearestEnemy,
    TargetingNextEnemy,
    TargetingPreviousEnemy,
    TargetingNearestAlly,
    TargetingNextAlly,
    TargetingPreviousAlly,
    TargetingLockAutotarget,
    TargetingSnapGroundTarget,
    TargetingToggleSnapGroundTarget,
    TargetingDisableAutotargeting,
    TargetingToggleAutotargeting,
    TargetingAllyTargetingMode,
    TargetingToggleAllyTargetingMode,
    UiBlackLionTradingDialog,
    UiContactsDialog,
    UiGuildDialog,
    UiHeroDialog,
    UiInventoryDialog,
    UiPetDialog,
    UiLogOut,
    UiMailDialog,
    UiOptionsDialog,
    UiPartyDialog,
    UiPvPPanel,
    UiPvPBuild,
    UiScoreboard,
    UiWizardsVaultDialog,
    UiInformationDialog,
    UiShowHideChat,
    UiChatCommand,
    UiChatMessage,
    UiChatReply,
    UiShowHideUi,
    UiShowHideSquadBroadcastChat,
    UiSquadBroadcastChatCommand,
    UiSquadBroadcastMessage,
    CameraFreeCamera,
    CameraZoomIn,
    CameraZoomOut,
    CameraLookBehind,
    CameraToggleActionCamera,
    CameraDisableActionCamera,
    ScreenshotNormal,
    ScreenshotStereoscopic,
    MapOpenClose,
    MapRecenter,
    MapFloorDown,
    MapFloorUp,
    MapZoomIn,
    MapZoomOut,
    MountsMountDismount,
    MountsMountAbility1,
    MountsMountAbility2,
    MountsRaptor,
    MountsSpringer,
    MountsSkimmer,
    MountsJackal,
    MountsGriffon,
    MountsRollerBeetle,
    MountsWarclaw,
    MountsSkyscale,
    MountsTurtle,
    SpectatorsNearestFixedCamera,
    SpectatorsNearestPlayer,
    SpectatorsRedPlayer1,
    SpectatorsRedPlayer2,
    SpectatorsRedPlayer3,
    SpectatorsRedPlayer4,
    SpectatorsRedPlayer5,
    SpectatorsBluePlayer1,
    SpectatorsBluePlayer2,
    SpectatorsBluePlayer3,
    SpectatorsBluePlayer4,
    SpectatorsBluePlayer5,
    SpectatorsFreeCamera,
    SpectatorsFreeCameraBoost,
    SpectatorsFreeCameraForward,
    SpectatorsFreeCameraBackward,
    SpectatorsFreeCameraLeft,
    SpectatorsFreeCameraRight,
    SpectatorsFreeCameraUp,
    SpectatorsFreeCameraDown,
    SquadLocationArrow,
    SquadLocationCircle,
    SquadLocationHeart,
    SquadLocationSquare,
    SquadLocationStar,
    SquadLocationSpiral,
    SquadLocationTriangle,
    SquadLocationX,
    SquadClearAllLocationMarkers,
    SquadObjectArrow,
    SquadObjectCircle,
    SquadObjectHeart,
    SquadObjectSquare,
    SquadObjectStar,
    SquadObjectSpiral,
    SquadObjectTriangle,
    SquadObjectX,
    SquadClearAllObjectMarkers,
    MasterySkillsActivateMasterySkill,
    MasterySkillsStartFishing,
    MasterySkillsSummonSkiff,
    MasterySkillsSetJadeBotWaypoint,
    MasterySkillsScanForRift,
    MasterySkillsSkyscaleLeap,
    MasterySkillsConjuredDoorway,
    MiscellaneousAoELoot,
    MiscellaneousInteract,
    MiscellaneousShowEnemyNames,
    MiscellaneousShowAllyNames,
    MiscellaneousStowDrawWeapon,
    MiscellaneousToggleLanguage,
    MiscellaneousRangerPetCombatToggle,
    MiscellaneousToggleFullScreen,
    MiscellaneousEquipUnequipNovelty,
    MiscellaneousActivateChair,
    MiscellaneousActivateMusicalInstrument,
    MiscellaneousActivateHeldItem,
    MiscellaneousActivateToy,
    MiscellaneousActivateTonic,
    MiscellaneousDecorateModeToggle,
    TemplatesBuildTemplate1,
    TemplatesBuildTemplate2,
    TemplatesBuildTemplate3,
    TemplatesBuildTemplate4,
    TemplatesBuildTemplate5,
    TemplatesBuildTemplate6,
    TemplatesBuildTemplate7,
    TemplatesBuildTemplate8,
    TemplatesBuildTemplate9,
    TemplatesEquipmentTemplate1,
    TemplatesEquipmentTemplate2,
    TemplatesEquipmentTemplate3,
    TemplatesEquipmentTemplate4,
    TemplatesEquipmentTemplate5,
    TemplatesEquipmentTemplate6,
    TemplatesEquipmentTemplate7,
    TemplatesEquipmentTemplate8,
    TemplatesEquipmentTemplate9,
}

/// The control a numeric identifier denotes, if any.
pub open spec fn spec_control_from_code(code: i32) -> Option<KeyControl> {
    match code {
        0 => Some(KeyControl::MovementMoveForward),
        1 => Some(KeyControl::MovementMoveBackward),
        2 => Some(KeyControl::MovementStrafeLeft),
        3 => Some(KeyControl::MovementStrafeRight),
        4 => Some(KeyControl::MovementTurnLeft),
        5 => Some(KeyControl::MovementTurnRight),
        6 => Some(KeyControl::MovementDodge),
        7 => Some(KeyControl::MovementAutorun),
        8 => Some(KeyControl::MovementWalk),
        9 => Some(KeyControl::MovementJump),
        10 => Some(KeyControl::MovementSwimUp),
        11 => Some(KeyControl::MovementSwimDown),
        12 => Some(KeyControl::MovementAboutFace),
        17 => Some(KeyControl::SkillsSwapWeapons),
        18 => Some(KeyControl::SkillsWeaponSkill1),
        19 => Some(KeyControl::SkillsWeaponSkill2),
        20 => Some(KeyControl::SkillsWeaponSkill3),
        21 => Some(KeyControl::SkillsWeaponSkill4),
        22 => Some(KeyControl::SkillsWeaponSkill5),
        23 => Some(KeyControl::SkillsHealingSkill),
        24 => Some(KeyControl::SkillsUtilitySkill1),
        25 => Some(KeyControl::SkillsUtilitySkill2),
        26 => Some(KeyControl::SkillsUtilitySkill3),
        27 => Some(KeyControl::SkillsEliteSkill),
        28 => Some(KeyControl::SkillsProfessionSkill1),
        29 => Some(KeyControl::SkillsProfessionSkill2),
        30 => Some(KeyControl::SkillsProfessionSkill3),
        31 => Some(KeyControl::SkillsProfessionSkill4),
        79 => Some(KeyControl::SkillsProfessionSkill5),
        201 => Some(KeyControl::SkillsProfessionSkill6),
        202 => Some(KeyControl::SkillsProfessionSkill7),
        82 => Some(KeyControl::SkillsSpecialAction),
        131 => Some(KeyControl::TargetingAlertTarget),
        32 => Some(KeyControl::TargetingCallTarget),
        33 => Some(KeyControl::TargetingTakeTarget),
        199 => Some(KeyControl::TargetingSetPersonalTarget),
        200 => Some(KeyControl::TargetingTakePersonalTarget),
        34 => Some(KeyControl::TargetingNearestEnemy),
        35 => Some(KeyControl::TargetingNextEnemy),
        36 => Some(KeyControl::TargetingPreviousEnemy),
        37 => Some(KeyControl::TargetingNearestAlly),
        38 => Some(KeyControl::TargetingNextAlly),
        39 => Some(KeyControl::TargetingPreviousAlly),
        40 => Some(KeyControl::TargetingLockAutotarget),
        80 => Some(KeyControl::TargetingSnapGroundTarget),
        115 => Some(KeyControl::TargetingToggleSnapGroundTarget),
        116 => Some(KeyControl::TargetingDisableAutotargeting),
        117 => Some(KeyControl::TargetingToggleAutotargeting),
        197 => Some(KeyControl::TargetingAllyTargetingMode),
        198 => Some(KeyControl::TargetingToggleAllyTargetingMode),
        41 => Some(KeyControl::UiBlackLionTradingDialog),
        42 => Some(KeyControl::UiContactsDialog),
        43 => Some(KeyControl::UiGuildDialog),
        44 => Some(KeyControl::UiHeroDialog),
        45 => Some(KeyControl::UiInventoryDialog),
        46 => Some(KeyControl::UiPetDialog),
        47 => Some(KeyControl::UiLogOut),
        71 => Some(KeyControl::UiMailDialog),
        48 => Some(KeyControl::UiOptionsDialog),
        49 => Some(KeyControl::UiPartyDialog),
        73 => Some(KeyControl::UiPvPPanel),
        75 => Some(KeyControl::UiPvPBuild),
        50 => Some(KeyControl::UiScoreboard),
        209 => Some(KeyControl::UiWizardsVaultDialog),
        51 => Some(KeyControl::UiInformationDialog),
        70 => Some(KeyControl::UiShowHideChat),
        52 => Some(KeyControl::UiChatCommand),
        53 => Some(KeyControl::UiChatMessage),
        54 => Some(KeyControl::UiChatReply),
        55 => Some(KeyControl::UiShowHideUi),
        85 => Some(KeyControl::UiShowHideSquadBroadcastChat),
        83 => Some(KeyControl::UiSquadBroadcastChatCommand),
        84 => Some(KeyControl::UiSquadBroadcastMessage),
        13 => Some(KeyControl::CameraFreeCamera),
        14 => Some(KeyControl::CameraZoomIn),
        15 => Some(KeyControl::CameraZoomOut),
        16 => Some(KeyControl::CameraLookBehind),
        78 => Some(KeyControl::CameraToggleActionCamera),
        114 => Some(KeyControl::CameraDisableActionCamera),
        56 => Some(KeyControl::ScreenshotNormal),
        57 => Some(KeyControl::ScreenshotStereoscopic),
        59 => Some(KeyControl::MapOpenClose),
        60 => Some(KeyControl::MapRecenter),
        61 => Some(KeyControl::MapFloorDown),
        62 => Some(KeyControl::MapFloorUp),
        63 => Some(KeyControl::MapZoomIn),
        64 => Some(KeyControl::MapZoomOut),
        152 => Some(KeyControl::MountsMountDismount),
        130 => Some(KeyControl::MountsMountAbility1),
        153 => Some(KeyControl::MountsMountAbility2),
        155 => Some(KeyControl::MountsRaptor),
        156 => Some(KeyControl::MountsSpringer),
        157 => Some(KeyControl::MountsSkimmer),
        158 => Some(KeyControl::MountsJackal),
        159 => Some(KeyControl::MountsGriffon),
        161 => Some(KeyControl::MountsRollerBeetle),
        169 => Some(KeyControl::MountsWarclaw),
        170 => Some(KeyControl::MountsSkyscale),
        203 => Some(KeyControl::MountsTurtle),
        102 => Some(KeyControl::SpectatorsNearestFixedCamera),
        103 => Some(KeyControl::SpectatorsNearestPlayer),
        104 => Some(KeyControl::SpectatorsRedPlayer1),
        105 => Some(KeyControl::SpectatorsRedPlayer2),
        106 => Some(KeyControl::SpectatorsRedPlayer3),
        107 => Some(KeyControl::SpectatorsRedPlayer4),
        108 => Some(KeyControl::SpectatorsRedPlayer5),
        109 => Some(KeyControl::SpectatorsBluePlayer1),
        110 => Some(KeyControl::SpectatorsBluePlayer2),
        111 => Some(KeyControl::SpectatorsBluePlayer3),
        112 => Some(KeyControl::SpectatorsBluePlayer4),
        113 => Some(KeyControl::SpectatorsBluePlayer5),
        120 => Some(KeyControl::SpectatorsFreeCamera),
        127 => Some(KeyControl::SpectatorsFreeCameraBoost),
        121 => Some(KeyControl::SpectatorsFreeCameraForward),
        122 => Some(KeyControl::SpectatorsFreeCameraBackward),
        123 => Some(KeyControl::SpectatorsFreeCameraLeft),
        124 => Some(KeyControl::SpectatorsFreeCameraRight),
        125 => Some(KeyControl::SpectatorsFreeCameraUp),
        126 => Some(KeyControl::SpectatorsFreeCameraDown),
        86 => Some(KeyControl::SquadLocationArrow),
        87 => Some(KeyControl::SquadLocationCircle),
        88 => Some(KeyControl::SquadLocationHeart),
        89 => Some(KeyControl::SquadLocationSquare),
        90 => Some(KeyControl::SquadLocationStar),
        91 => Some(KeyControl::SquadLocationSpiral),
        92 => Some(KeyControl::SquadLocationTriangle),
        93 => Some(KeyControl::SquadLocationX),
        119 => Some(KeyControl::SquadClearAllLocationMarkers),
        94 => Some(KeyControl::SquadObjectArrow),
        95 => Some(KeyControl::SquadObjectCircle),
        96 => Some(KeyControl::SquadObjectHeart),
        97 => Some(KeyControl::SquadObjectSquare),
        98 => Some(KeyControl::SquadObjectStar),
        99 => Some(KeyControl::SquadObjectSpiral),
        100 => Some(KeyControl::SquadObjectTriangle),
        101 => Some(KeyControl::SquadObjectX),
        118 => Some(KeyControl::SquadClearAllObjectMarkers),
        196 => Some(KeyControl::MasterySkillsActivateMasterySkill),
        204 => Some(KeyControl::MasterySkillsStartFishing),
        205 => Some(KeyControl::MasterySkillsSummonSkiff),
        206 => Some(KeyControl::MasterySkillsSetJadeBotWaypoint),
        207 => Some(KeyControl::MasterySkillsScanForRift),
        208 => Some(KeyControl::MasterySkillsSkyscaleLeap),
        211 => Some(KeyControl::MasterySkillsConjuredDoorway),
        74 => Some(KeyControl::MiscellaneousAoELoot),
        65 => Some(KeyControl::MiscellaneousInteract),
        66 => Some(KeyControl::MiscellaneousShowEnemyNames),
        67 => Some(KeyControl::MiscellaneousShowAllyNames),
        68 => Some(KeyControl::MiscellaneousStowDrawWeapon),
        69 => Some(KeyControl::MiscellaneousToggleLanguage),
        76 => Some(KeyControl::MiscellaneousRangerPetCombatToggle),
        160 => Some(KeyControl::MiscellaneousToggleFullScreen),
        162 => Some(KeyControl::MiscellaneousEquipUnequipNovelty),
        163 => Some(KeyControl::MiscellaneousActivateChair),
        164 => Some(KeyControl::MiscellaneousActivateMusicalInstrument),
        165 => Some(KeyControl::MiscellaneousActivateHeldItem),
        166 => Some(KeyControl::MiscellaneousActivateToy),
        167 => Some(KeyControl::MiscellaneousActivateTonic),
        210 => Some(KeyControl::MiscellaneousDecorateModeToggle),
        171 => Some(KeyControl::TemplatesBuildTemplate1),
        172 => Some(KeyControl::TemplatesBuildTemplate2),
        173 => Some(KeyControl::TemplatesBuildTemplate3),
        174 => Some(KeyControl::TemplatesBuildTemplate4),
        175 => Some(KeyControl::TemplatesBuildTemplate5),
        176 => Some(KeyControl::TemplatesBuildTemplate6),
        177 => Some(KeyControl::TemplatesBuildTemplate7),
        178 => Some(KeyControl::TemplatesBuildTemplate8),
        179 => Some(KeyControl::TemplatesBuildTemplate9),
        182 => Some(KeyControl::TemplatesEquipmentTemplate1),
        183 => Some(KeyControl::TemplatesEquipmentTemplate2),
        184 => Some(KeyControl::TemplatesEquipmentTemplate3),
        185 => Some(KeyControl::TemplatesEquipmentTemplate4),
        186 => Some(KeyControl::TemplatesEquipmentTemplate5),
        187 => Some(KeyControl::TemplatesEquipmentTemplate6),
        188 => Some(KeyControl::TemplatesEquipmentTemplate7),
        189 => Some(KeyControl::TemplatesEquipmentTemplate8),
        190 => Some(KeyControl::TemplatesEquipmentTemplate9),
        _ => None,
    }
}

impl KeyControl {
    /// The numeric identifier, as a specification-level map.
    pub open spec fn spec_code(self) -> i32 {
        match self {
            KeyControl::MovementMoveForward => 0,
            KeyControl::MovementMoveBackward => 1,
            KeyControl::MovementStrafeLeft => 2,
            KeyControl::MovementStrafeRight => 3,
            KeyControl::MovementTurnLeft => 4,
            KeyControl::MovementTurnRight => 5,
            KeyControl::MovementDodge => 6,
            KeyControl::MovementAutorun => 7,
            KeyControl::MovementWalk => 8,
            KeyControl::MovementJump => 9,
            KeyControl::MovementSwimUp => 10,
            KeyControl::MovementSwimDown => 11,
            KeyControl::MovementAboutFace => 12,
            KeyControl::SkillsSwapWeapons => 17,
            KeyControl::SkillsWeaponSkill1 => 18,
            KeyControl::SkillsWeaponSkill2 => 19,
            KeyControl::SkillsWeaponSkill3 => 20,
            KeyControl::SkillsWeaponSkill4 => 21,
            KeyControl::SkillsWeaponSkill5 => 22,
            KeyControl::SkillsHealingSkill => 23,
            KeyControl::SkillsUtilitySkill1 => 24,
            KeyControl::SkillsUtilitySkill2 => 25,
            KeyControl::SkillsUtilitySkill3 => 26,
            KeyControl::SkillsEliteSkill => 27,
            KeyControl::SkillsProfessionSkill1 => 28,
            KeyControl::SkillsProfessionSkill2 => 29,
            KeyControl::SkillsProfessionSkill3 => 30,
            KeyControl::SkillsProfessionSkill4 => 31,
            KeyControl::SkillsProfessionSkill5 => 79,
            KeyControl::SkillsProfessionSkill6 => 201,
            KeyControl::SkillsProfessionSkill7 => 202,
            KeyControl::SkillsSpecialAction => 82,
            KeyControl::TargetingAlertTarget => 131,
            KeyControl::TargetingCallTarget => 32,
            KeyControl::TargetingTakeTarget => 33,
            KeyControl::TargetingSetPersonalTarget => 199,
            KeyControl::TargetingTakePersonalTarget => 200,
            KeyControl::TargetingNearestEnemy => 34,
            KeyControl::TargetingNextEnemy => 35,
            KeyControl::TargetingPreviousEnemy => 36,
            KeyControl::TargetingNearestAlly => 37,
            KeyControl::TargetingNextAlly => 38,
            KeyControl::TargetingPreviousAlly => 39,
            KeyControl::TargetingLockAutotarget => 40,
            KeyControl::TargetingSnapGroundTarget => 80,
            KeyControl::TargetingToggleSnapGroundTarget => 115,
            KeyControl::TargetingDisableAutotargeting => 116,
            KeyControl::TargetingToggleAutotargeting => 117,
            KeyControl::TargetingAllyTargetingMode => 197,
            KeyControl::TargetingToggleAllyTargetingMode => 198,
            KeyControl::UiBlackLionTradingDialog => 41,
            KeyControl::UiContactsDialog => 42,
            KeyControl::UiGuildDialog => 43,
            KeyControl::UiHeroDialog => 44,
            KeyControl::UiInventoryDialog => 45,
            KeyControl::UiPetDialog => 46,
            KeyControl::UiLogOut => 47,
            KeyControl::UiMailDialog => 71,
            KeyControl::UiOptionsDialog => 48,
            KeyControl::UiPartyDialog => 49,
            KeyControl::UiPvPPanel => 73,
            KeyControl::UiPvPBuild => 75,
            KeyControl::UiScoreboard => 50,
            KeyControl::UiWizardsVaultDialog => 209,
            KeyControl::UiInformationDialog => 51,
            KeyControl::UiShowHideChat => 70,
            KeyControl::UiChatCommand => 52,
            KeyControl::UiChatMessage => 53,
            KeyControl::UiChatReply => 54,
            KeyControl::UiShowHideUi => 55,
            KeyControl::UiShowHideSquadBroadcastChat => 85,
            KeyControl::UiSquadBroadcastChatCommand => 83,
            KeyControl::UiSquadBroadcastMessage => 84,
            KeyControl::CameraFreeCamera => 13,
            KeyControl::CameraZoomIn => 14,
            KeyControl::CameraZoomOut => 15,
            KeyControl::CameraLookBehind => 16,
            KeyControl::CameraToggleActionCamera => 78,
            KeyControl::CameraDisableActionCamera => 114,
            KeyControl::ScreenshotNormal => 56,
            KeyControl::ScreenshotStereoscopic => 57,
            KeyControl::MapOpenClose => 59,
            KeyControl::MapRecenter => 60,
            KeyControl::MapFloorDown => 61,
            KeyControl::MapFloorUp => 62,
            KeyControl::MapZoomIn => 63,
            KeyControl::MapZoomOut => 64,
            KeyControl::MountsMountDismount => 152,
            KeyControl::MountsMountAbility1 => 130,
            KeyControl::MountsMountAbility2 => 153,
            KeyControl::MountsRaptor => 155,
            KeyControl::MountsSpringer => 156,
            KeyControl::MountsSkimmer => 157,
            KeyControl::MountsJackal => 158,
            KeyControl::MountsGriffon => 159,
            KeyControl::MountsRollerBeetle => 161,
            KeyControl::MountsWarclaw => 169,
            KeyControl::MountsSkyscale => 170,
            KeyControl::MountsTurtle => 203,
            KeyControl::SpectatorsNearestFixedCamera => 102,
            KeyControl::SpectatorsNearestPlayer => 103,
            KeyControl::SpectatorsRedPlayer1 => 104,
            KeyControl::SpectatorsRedPlayer2 => 105,
            KeyControl::SpectatorsRedPlayer3 => 106,
            KeyControl::SpectatorsRedPlayer4 => 107,
            KeyControl::SpectatorsRedPlayer5 => 108,
            KeyControl::SpectatorsBluePlayer1 => 109,
            KeyControl::SpectatorsBluePlayer2 => 110,
            KeyControl::SpectatorsBluePlayer3 => 111,
            KeyControl::SpectatorsBluePlayer4 => 112,
            KeyControl::SpectatorsBluePlayer5 => 113,
            KeyControl::SpectatorsFreeCamera => 120,
            KeyControl::SpectatorsFreeCameraBoost => 127,
            KeyControl::SpectatorsFreeCameraForward => 121,
            KeyControl::SpectatorsFreeCameraBackward => 122,
            KeyControl::SpectatorsFreeCameraLeft => 123,
            KeyControl::SpectatorsFreeCameraRight => 124,
            KeyControl::SpectatorsFreeCameraUp => 125,
            KeyControl::SpectatorsFreeCameraDown => 126,
            KeyControl::SquadLocationArrow => 86,
            KeyControl::SquadLocationCircle => 87,
            KeyControl::SquadLocationHeart => 88,
            KeyControl::SquadLocationSquare => 89,
            KeyControl::SquadLocationStar => 90,
            KeyControl::SquadLocationSpiral => 91,
            KeyControl::SquadLocationTriangle => 92,
            KeyControl::SquadLocationX => 93,
            KeyControl::SquadClearAllLocationMarkers => 119,
            KeyControl::SquadObjectArrow => 94,
            KeyControl::SquadObjectCircle => 95,
            KeyControl::SquadObjectHeart => 96,
            KeyControl::SquadObjectSquare => 97,
            KeyControl::SquadObjectStar => 98,
            KeyControl::SquadObjectSpiral => 99,
            KeyControl::SquadObjectTriangle => 100,
            KeyControl::SquadObjectX => 101,
            KeyControl::SquadClearAllObjectMarkers => 118,
            KeyControl::MasterySkillsActivateMasterySkill => 196,
            KeyControl::MasterySkillsStartFishing => 204,
            KeyControl::MasterySkillsSummonSkiff => 205,
            KeyControl::MasterySkillsSetJadeBotWaypoint => 206,
            KeyControl::MasterySkillsScanForRift => 207,
            KeyControl::MasterySkillsSkyscaleLeap => 208,
            KeyControl::MasterySkillsConjuredDoorway => 211,
            KeyControl::MiscellaneousAoELoot => 74,
            KeyControl::MiscellaneousInteract => 65,
            KeyControl::MiscellaneousShowEnemyNames => 66,
            KeyControl::MiscellaneousShowAllyNames => 67,
            KeyControl::MiscellaneousStowDrawWeapon => 68,
            KeyControl::MiscellaneousToggleLanguage => 69,
            KeyControl::MiscellaneousRangerPetCombatToggle => 76,
            KeyControl::MiscellaneousToggleFullScreen => 160,
            KeyControl::MiscellaneousEquipUnequipNovelty => 162,
            KeyControl::MiscellaneousActivateChair => 163,
            KeyControl::MiscellaneousActivateMusicalInstrument => 164,
            KeyControl::MiscellaneousActivateHeldItem => 165,
            KeyControl::MiscellaneousActivateToy => 166,
            KeyControl::MiscellaneousActivateTonic => 167,
            KeyControl::MiscellaneousDecorateModeToggle => 210,
            KeyControl::TemplatesBuildTemplate1 => 171,
            KeyControl::TemplatesBuildTemplate2 => 172,
            KeyControl::TemplatesBuildTemplate3 => 173,
            KeyControl::TemplatesBuildTemplate4 => 174,
            KeyControl::TemplatesBuildTemplate5 => 175,
            KeyControl::TemplatesBuildTemplate6 => 176,
            KeyControl::TemplatesBuildTemplate7 => 177,
            KeyControl::TemplatesBuildTemplate8 => 178,
            KeyControl::TemplatesBuildTemplate9 => 179,
            KeyControl::TemplatesEquipmentTemplate1 => 182,
            KeyControl::TemplatesEquipmentTemplate2 => 183,
            KeyControl::TemplatesEquipmentTemplate3 => 184,
            KeyControl::TemplatesEquipmentTemplate4 => 185,
            KeyControl::TemplatesEquipmentTemplate5 => 186,
            KeyControl::TemplatesEquipmentTemplate6 => 187,
            KeyControl::TemplatesEquipmentTemplate7 => 188,
            KeyControl::TemplatesEquipmentTemplate8 => 189,
            KeyControl::TemplatesEquipmentTemplate9 => 190,
        }
    }

    /// The numeric identifier used in the game's binding export.
    pub fn code(self) -> (r: i32)
        ensures
            r == self.spec_code(),
    {
        match self {
            KeyControl::MovementMoveForward => 0,
            KeyControl::MovementMoveBackward => 1,
            KeyControl::MovementStrafeLeft => 2,
            KeyControl::MovementStrafeRight => 3,
            KeyControl::MovementTurnLeft => 4,
            KeyControl::MovementTurnRight => 5,
            KeyControl::MovementDodge => 6,
            KeyControl::MovementAutorun => 7,
            KeyControl::MovementWalk => 8,
            KeyControl::MovementJump => 9,
            KeyControl::MovementSwimUp => 10,
            KeyControl::MovementSwimDown => 11,
            KeyControl::MovementAboutFace => 12,
            KeyControl::SkillsSwapWeapons => 17,
            KeyControl::SkillsWeaponSkill1 => 18,
            KeyControl::SkillsWeaponSkill2 => 19,
            KeyControl::SkillsWeaponSkill3 => 20,
            KeyControl::SkillsWeaponSkill4 => 21,
            KeyControl::SkillsWeaponSkill5 => 22,
            KeyControl::SkillsHealingSkill => 23,
            KeyControl::SkillsUtilitySkill1 => 24,
            KeyControl::SkillsUtilitySkill2 => 25,
            KeyControl::SkillsUtilitySkill3 => 26,
            KeyControl::SkillsEliteSkill => 27,
            KeyControl::SkillsProfessionSkill1 => 28,
            KeyControl::SkillsProfessionSkill2 => 29,
            KeyControl::SkillsProfessionSkill3 => 30,
            KeyControl::SkillsProfessionSkill4 => 31,
            KeyControl::SkillsProfessionSkill5 => 79,
            KeyControl::SkillsProfessionSkill6 => 201,
            KeyControl::SkillsProfessionSkill7 => 202,
            KeyControl::SkillsSpecialAction => 82,
            KeyControl::TargetingAlertTarget => 131,
            KeyControl::TargetingCallTarget => 32,
            KeyControl::TargetingTakeTarget => 33,
            KeyControl::TargetingSetPersonalTarget => 199,
            KeyControl::TargetingTakePersonalTarget => 200,
            KeyControl::TargetingNearestEnemy => 34,
            KeyControl::TargetingNextEnemy => 35,
            KeyControl::TargetingPreviousEnemy => 36,
            KeyControl::TargetingNearestAlly => 37,
            KeyControl::TargetingNextAlly => 38,
            KeyControl::TargetingPreviousAlly => 39,
            KeyControl::TargetingLockAutotarget => 40,
            KeyControl::TargetingSnapGroundTarget => 80,
            KeyControl::TargetingToggleSnapGroundTarget => 115,
            KeyControl::TargetingDisableAutotargeting => 116,
            KeyControl::TargetingToggleAutotargeting => 117,
            KeyControl::TargetingAllyTargetingMode => 197,
            KeyControl::TargetingToggleAllyTargetingMode => 198,
            KeyControl::UiBlackLionTradingDialog => 41,
            KeyControl::UiContactsDialog => 42,
            KeyControl::UiGuildDialog => 43,
            KeyControl::UiHeroDialog => 44,
            KeyControl::UiInventoryDialog => 45,
            KeyControl::UiPetDialog => 46,
            KeyControl::UiLogOut => 47,
            KeyControl::UiMailDialog => 71,
            KeyControl::UiOptionsDialog => 48,
            KeyControl::UiPartyDialog => 49,
            KeyControl::UiPvPPanel => 73,
            KeyControl::UiPvPBuild => 75,
            KeyControl::UiScoreboard => 50,
            KeyControl::UiWizardsVaultDialog => 209,
            KeyControl::UiInformationDialog => 51,
            KeyControl::UiShowHideChat => 70,
            KeyControl::UiChatCommand => 52,
            KeyControl::UiChatMessage => 53,
            KeyControl::UiChatReply => 54,
            KeyControl::UiShowHideUi => 55,
            KeyControl::UiShowHideSquadBroadcastChat => 85,
            KeyControl::UiSquadBroadcastChatCommand => 83,
            KeyControl::UiSquadBroadcastMessage => 84,
            KeyControl::CameraFreeCamera => 13,
            KeyControl::CameraZoomIn => 14,
            KeyControl::CameraZoomOut => 15,
            KeyControl::CameraLookBehind => 16,
            KeyControl::CameraToggleActionCamera => 78,
            KeyControl::CameraDisableActionCamera => 114,
            KeyControl::ScreenshotNormal => 56,
            KeyControl::ScreenshotStereoscopic => 57,
            KeyControl::MapOpenClose => 59,
            KeyControl::MapRecenter => 60,
            KeyControl::MapFloorDown => 61,
            KeyControl::MapFloorUp => 62,
            KeyControl::MapZoomIn => 63,
            KeyControl::MapZoomOut => 64,
            KeyControl::MountsMountDismount => 152,
            KeyControl::MountsMountAbility1 => 130,
            KeyControl::MountsMountAbility2 => 153,
            KeyControl::MountsRaptor => 155,
            KeyControl::MountsSpringer => 156,
            KeyControl::MountsSkimmer => 157,
            KeyControl::MountsJackal => 158,
            KeyControl::MountsGriffon => 159,
            KeyControl::MountsRollerBeetle => 161,
            KeyControl::MountsWarclaw => 169,
            KeyControl::MountsSkyscale => 170,
            KeyControl::MountsTurtle => 203,
            KeyControl::SpectatorsNearestFixedCamera => 102,
            KeyControl::SpectatorsNearestPlayer => 103,
            KeyControl::SpectatorsRedPlayer1 => 104,
            KeyControl::SpectatorsRedPlayer2 => 105,
            KeyControl::SpectatorsRedPlayer3 => 106,
            KeyControl::SpectatorsRedPlayer4 => 107,
            KeyControl::SpectatorsRedPlayer5 => 108,
            KeyControl::SpectatorsBluePlayer1 => 109,
            KeyControl::SpectatorsBluePlayer2 => 110,
            KeyControl::SpectatorsBluePlayer3 => 111,
            KeyControl::SpectatorsBluePlayer4 => 112,
            KeyControl::SpectatorsBluePlayer5 => 113,
            KeyControl::SpectatorsFreeCamera => 120,
            KeyControl::SpectatorsFreeCameraBoost => 127,
            KeyControl::SpectatorsFreeCameraForward => 121,
            KeyControl::SpectatorsFreeCameraBackward => 122,
            KeyControl::SpectatorsFreeCameraLeft => 123,
            KeyControl::SpectatorsFreeCameraRight => 124,
            KeyControl::SpectatorsFreeCameraUp => 125,
            KeyControl::SpectatorsFreeCameraDown => 126,
            KeyControl::SquadLocationArrow => 86,
            KeyControl::SquadLocationCircle => 87,
            KeyControl::SquadLocationHeart => 88,
            KeyControl::SquadLocationSquare => 89,
            KeyControl::SquadLocationStar => 90,
            KeyControl::SquadLocationSpiral => 91,
            KeyControl::SquadLocationTriangle => 92,
            KeyControl::SquadLocationX => 93,
            KeyControl::SquadClearAllLocationMarkers => 119,
            KeyControl::SquadObjectArrow => 94,
            KeyControl::SquadObjectCircle => 95,
            KeyControl::SquadObjectHeart => 96,
            KeyControl::SquadObjectSquare => 97,
            KeyControl::SquadObjectStar => 98,
            KeyControl::SquadObjectSpiral => 99,
            KeyControl::SquadObjectTriangle => 100,
            KeyControl::SquadObjectX => 101,
            KeyControl::SquadClearAllObjectMarkers => 118,
            KeyControl::MasterySkillsActivateMasterySkill => 196,
            KeyControl::MasterySkillsStartFishing => 204,
            KeyControl::MasterySkillsSummonSkiff => 205,
            KeyControl::MasterySkillsSetJadeBotWaypoint => 206,
            KeyControl::MasterySkillsScanForRift => 207,
            KeyControl::MasterySkillsSkyscaleLeap => 208,
            KeyControl::MasterySkillsConjuredDoorway => 211,
            KeyControl::MiscellaneousAoELoot => 74,
            KeyControl::MiscellaneousInteract => 65,
            KeyControl::MiscellaneousShowEnemyNames => 66,
            KeyControl::MiscellaneousShowAllyNames => 67,
            KeyControl::MiscellaneousStowDrawWeapon => 68,
            KeyControl::MiscellaneousToggleLanguage => 69,
            KeyControl::MiscellaneousRangerPetCombatToggle => 76,
            KeyControl::MiscellaneousToggleFullScreen => 160,
            KeyControl::MiscellaneousEquipUnequipNovelty => 162,
            KeyControl::MiscellaneousActivateChair => 163,
            KeyControl::MiscellaneousActivateMusicalInstrument => 164,
            KeyControl::MiscellaneousActivateHeldItem => 165,
            KeyControl::MiscellaneousActivateToy => 166,
            KeyControl::MiscellaneousActivateTonic => 167,
            KeyControl::MiscellaneousDecorateModeToggle => 210,
            KeyControl::TemplatesBuildTemplate1 => 171,
            KeyControl::TemplatesBuildTemplate2 => 172,
            KeyControl::TemplatesBuildTemplate3 => 173,
            KeyControl::TemplatesBuildTemplate4 => 174,
            KeyControl::TemplatesBuildTemplate5 => 175,
            KeyControl::TemplatesBuildTemplate6 => 176,
            KeyControl::TemplatesBuildTemplate7 => 177,
            KeyControl::TemplatesBuildTemplate8 => 178,
            KeyControl::TemplatesBuildTemplate9 => 179,
            KeyControl::TemplatesEquipmentTemplate1 => 182,
            KeyControl::TemplatesEquipmentTemplate2 => 183,
            KeyControl::TemplatesEquipmentTemplate3 => 184,
            KeyControl::TemplatesEquipmentTemplate4 => 185,
            KeyControl::TemplatesEquipmentTemplate5 => 186,
            KeyControl::TemplatesEquipmentTemplate6 => 187,
            KeyControl::TemplatesEquipmentTemplate7 => 188,
            KeyControl::TemplatesEquipmentTemplate8 => 189,
            KeyControl::TemplatesEquipmentTemplate9 => 190,
        }
    }

    /// The control with the given numeric identifier, if any. Inverse of
    /// `code` on the valid identifiers.
    pub fn from_code(code: i32) -> (r: Option<KeyControl>)
        ensures
            r == spec_control_from_code(code),
    {
        match code {
            0 => Some(KeyControl::MovementMoveForward),
            1 => Some(KeyControl::MovementMoveBackward),
            2 => Some(KeyControl::MovementStrafeLeft),
            3 => Some(KeyControl::MovementStrafeRight),
            4 => Some(KeyControl::MovementTurnLeft),
            5 => Some(KeyControl::MovementTurnRight),
            6 => Some(KeyControl::MovementDodge),
            7 => Some(KeyControl::MovementAutorun),
            8 => Some(KeyControl::MovementWalk),
            9 => Some(KeyControl::MovementJump),
            10 => Some(KeyControl::MovementSwimUp),
            11 => Some(KeyControl::MovementSwimDown),
            12 => Some(KeyControl::MovementAboutFace),
            17 => Some(KeyControl::SkillsSwapWeapons),
            18 => Some(KeyControl::SkillsWeaponSkill1),
            19 => Some(KeyControl::SkillsWeaponSkill2),
            20 => Some(KeyControl::SkillsWeaponSkill3),
            21 => Some(KeyControl::SkillsWeaponSkill4),
            22 => Some(KeyControl::SkillsWeaponSkill5),
            23 => Some(KeyControl::SkillsHealingSkill),
            24 => Some(KeyControl::SkillsUtilitySkill1),
            25 => Some(KeyControl::SkillsUtilitySkill2),
            26 => Some(KeyControl::SkillsUtilitySkill3),
            27 => Some(KeyControl::SkillsEliteSkill),
            28 => Some(KeyControl::SkillsProfessionSkill1),
            29 => Some(KeyControl::SkillsProfessionSkill2),
            30 => Some(KeyControl::SkillsProfessionSkill3),
            31 => Some(KeyControl::SkillsProfessionSkill4),
            79 => Some(KeyControl::SkillsProfessionSkill5),
            201 => Some(KeyControl::SkillsProfessionSkill6),
            202 => Some(KeyControl::SkillsProfessionSkill7),
            82 => Some(KeyControl::SkillsSpecialAction),
            131 => Some(KeyControl::TargetingAlertTarget),
            32 => Some(KeyControl::TargetingCallTarget),
            33 => Some(KeyControl::TargetingTakeTarget),
            199 => Some(KeyControl::TargetingSetPersonalTarget),
            200 => Some(KeyControl::TargetingTakePersonalTarget),
            34 => Some(KeyControl::TargetingNearestEnemy),
            35 => Some(KeyControl::TargetingNextEnemy),
            36 => Some(KeyControl::TargetingPreviousEnemy),
            37 => Some(KeyControl::TargetingNearestAlly),
            38 => Some(KeyControl::TargetingNextAlly),
            39 => Some(KeyControl::TargetingPreviousAlly),
            40 => Some(KeyControl::TargetingLockAutotarget),
            80 => Some(KeyControl::TargetingSnapGroundTarget),
            115 => Some(KeyControl::TargetingToggleSnapGroundTarget),
            116 => Some(KeyControl::TargetingDisableAutotargeting),
            117 => Some(KeyControl::TargetingToggleAutotargeting),
            197 => Some(KeyControl::TargetingAllyTargetingMode),
            198 => Some(KeyControl::TargetingToggleAllyTargetingMode),
            41 => Some(KeyControl::UiBlackLionTradingDialog),
            42 => Some(KeyControl::UiContactsDialog),
            43 => Some(KeyControl::UiGuildDialog),
            44 => Some(KeyControl::UiHeroDialog),
            45 => Some(KeyControl::UiInventoryDialog),
            46 => Some(KeyControl::UiPetDialog),
            47 => Some(KeyControl::UiLogOut),
            71 => Some(KeyControl::UiMailDialog),
            48 => Some(KeyControl::UiOptionsDialog),
            49 => Some(KeyControl::UiPartyDialog),
            73 => Some(KeyControl::UiPvPPanel),
            75 => Some(KeyControl::UiPvPBuild),
            50 => Some(KeyControl::UiScoreboard),
            209 => Some(KeyControl::UiWizardsVaultDialog),
            51 => Some(KeyControl::UiInformationDialog),
            70 => Some(KeyControl::UiShowHideChat),
            52 => Some(KeyControl::UiChatCommand),
            53 => Some(KeyControl::UiChatMessage),
            54 => Some(KeyControl::UiChatReply),
            55 => Some(KeyControl::UiShowHideUi),
            85 => Some(KeyControl::UiShowHideSquadBroadcastChat),
            83 => Some(KeyControl::UiSquadBroadcastChatCommand),
            84 => Some(KeyControl::UiSquadBroadcastMessage),
            13 => Some(KeyControl::CameraFreeCamera),
            14 => Some(KeyControl::CameraZoomIn),
            15 => Some(KeyControl::CameraZoomOut),
            16 => Some(KeyControl::CameraLookBehind),
            78 => Some(KeyControl::CameraToggleActionCamera),
            114 => Some(KeyControl::CameraDisableActionCamera),
            56 => Some(KeyControl::ScreenshotNormal),
            57 => Some(KeyControl::ScreenshotStereoscopic),
            59 => Some(KeyControl::MapOpenClose),
            60 => Some(KeyControl::MapRecenter),
            61 => Some(KeyControl::MapFloorDown),
            62 => Some(KeyControl::MapFloorUp),
            63 => Some(KeyControl::MapZoomIn),
            64 => Some(KeyControl::MapZoomOut),
            152 => Some(KeyControl::MountsMountDismount),
            130 => Some(KeyControl::MountsMountAbility1),
            153 => Some(KeyControl::MountsMountAbility2),
            155 => Some(KeyControl::MountsRaptor),
            156 => Some(KeyControl::MountsSpringer),
            157 => Some(KeyControl::MountsSkimmer),
            158 => Some(KeyControl::MountsJackal),
            159 => Some(KeyControl::MountsGriffon),
            161 => Some(KeyControl::MountsRollerBeetle),
            169 => Some(KeyControl::MountsWarclaw),
            170 => Some(KeyControl::MountsSkyscale),
            203 => Some(KeyControl::MountsTurtle),
            102 => Some(KeyControl::SpectatorsNearestFixedCamera),
            103 => Some(KeyControl::SpectatorsNearestPlayer),
            104 => Some(KeyControl::SpectatorsRedPlayer1),
            105 => Some(KeyControl::SpectatorsRedPlayer2),
            106 => Some(KeyControl::SpectatorsRedPlayer3),
            107 => Some(KeyControl::SpectatorsRedPlayer4),
            108 => Some(KeyControl::SpectatorsRedPlayer5),
            109 => Some(KeyControl::SpectatorsBluePlayer1),
            110 => Some(KeyControl::SpectatorsBluePlayer2),
            111 => Some(KeyControl::SpectatorsBluePlayer3),
            112 => Some(KeyControl::SpectatorsBluePlayer4),
            113 => Some(KeyControl::SpectatorsBluePlayer5),
            120 => Some(KeyControl::SpectatorsFreeCamera),
            127 => Some(KeyControl::SpectatorsFreeCameraBoost),
            121 => Some(KeyControl::SpectatorsFreeCameraForward),
            122 => Some(KeyControl::SpectatorsFreeCameraBackward),
            123 => Some(KeyControl::SpectatorsFreeCameraLeft),
            124 => Some(KeyControl::SpectatorsFreeCameraRight),
            125 => Some(KeyControl::SpectatorsFreeCameraUp),
            126 => Some(KeyControl::SpectatorsFreeCameraDown),
            86 => Some(KeyControl::SquadLocationArrow),
            87 => Some(KeyControl::SquadLocationCircle),
            88 => Some(KeyControl::SquadLocationHeart),
            89 => Some(KeyControl::SquadLocationSquare),
            90 => Some(KeyControl::SquadLocationStar),
            91 => Some(KeyControl::SquadLocationSpiral),
            92 => Some(KeyControl::SquadLocationTriangle),
            93 => Some(KeyControl::SquadLocationX),
            119 => Some(KeyControl::SquadClearAllLocationMarkers),
            94 => Some(KeyControl::SquadObjectArrow),
            95 => Some(KeyControl::SquadObjectCircle),
            96 => Some(KeyControl::SquadObjectHeart),
            97 => Some(KeyControl::SquadObjectSquare),
            98 => Some(KeyControl::SquadObjectStar),
            99 => Some(KeyControl::SquadObjectSpiral),
            100 => Some(KeyControl::SquadObjectTriangle),
            101 => Some(KeyControl::SquadObjectX),
            118 => Some(KeyControl::SquadClearAllObjectMarkers),
            196 => Some(KeyControl::MasterySkillsActivateMasterySkill),
            204 => Some(KeyControl::MasterySkillsStartFishing),
            205 => Some(KeyControl::MasterySkillsSummonSkiff),
            206 => Some(KeyControl::MasterySkillsSetJadeBotWaypoint),
            207 => Some(KeyControl::MasterySkillsScanForRift),
            208 => Some(KeyControl::MasterySkillsSkyscaleLeap),
            211 => Some(KeyControl::MasterySkillsConjuredDoorway),
            74 => Some(KeyControl::MiscellaneousAoELoot),
            65 => Some(KeyControl::MiscellaneousInteract),
            66 => Some(KeyControl::MiscellaneousShowEnemyNames),
            67 => Some(KeyControl::MiscellaneousShowAllyNames),
            68 => Some(KeyControl::MiscellaneousStowDrawWeapon),
            69 => Some(KeyControl::MiscellaneousToggleLanguage),
            76 => Some(KeyControl::MiscellaneousRangerPetCombatToggle),
            160 => Some(KeyControl::MiscellaneousToggleFullScreen),
            162 => Some(KeyControl::MiscellaneousEquipUnequipNovelty),
            163 => Some(KeyControl::MiscellaneousActivateChair),
            164 => Some(KeyControl::MiscellaneousActivateMusicalInstrument),
            165 => Some(KeyControl::MiscellaneousActivateHeldItem),
            166 => Some(KeyControl::MiscellaneousActivateToy),
            167 => Some(KeyControl::MiscellaneousActivateTonic),
            210 => Some(KeyControl::MiscellaneousDecorateModeToggle),
            171 => Some(KeyControl::TemplatesBuildTemplate1),
            172 => Some(KeyControl::TemplatesBuildTemplate2),
            173 => Some(KeyControl::TemplatesBuildTemplate3),
            174 => Some(KeyControl::TemplatesBuildTemplate4),
            175 => Some(KeyControl::TemplatesBuildTemplate5),
            176 => Some(KeyControl::TemplatesBuildTemplate6),
            177 => Some(KeyControl::TemplatesBuildTemplate7),
            178 => Some(KeyControl::TemplatesBuildTemplate8),
            179 => Some(KeyControl::TemplatesBuildTemplate9),
            182 => Some(KeyControl::TemplatesEquipmentTemplate1),
            183 => Some(KeyControl::TemplatesEquipmentTemplate2),
            184 => Some(KeyControl::TemplatesEquipmentTemplate3),
            185 => Some(KeyControl::TemplatesEquipmentTemplate4),
            186 => Some(KeyControl::TemplatesEquipmentTemplate5),
            187 => Some(KeyControl::TemplatesEquipmentTemplate6),
            188 => Some(KeyControl::TemplatesEquipmentTemplate7),
            189 => Some(KeyControl::TemplatesEquipmentTemplate8),
            190 => Some(KeyControl::TemplatesEquipmentTemplate9),
            _ => None,
        }
    }
}

/// Decoding a control's own code gives the control back.
pub proof fn lemma_control_code_round_trip(k: KeyControl)
    ensures
        spec_control_from_code(k.spec_code()) == Some(k),
{
}

} // verus!
