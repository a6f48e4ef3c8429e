use gbhwdb::cartridge::{
    create_map, BoardLayout, ChipRole, ChipRoleConfig, GameConfig, GamePlatform,
};

#[test]
fn board_code_table_size() {
    let m = create_map();
    assert_eq!(m.len(), 50);
    assert!(m.iter().any(|e| e.0 == "DMG-A15" && e.1 == BoardLayout::Type15));
}

#[test]
fn label_stem_before_last_dash() {
    assert_eq!(BoardLayout::from_label("DMG-A02-01"), Some(BoardLayout::RomMapperRam));
    assert_eq!(BoardLayout::from_label("DMG-KECN-02"), Some(BoardLayout::RomMapperRamXtal));
    assert_eq!(BoardLayout::from_label("DMG-BEAN(K)-10"), Some(BoardLayout::RomMapper));
}

#[test]
fn label_whole_when_stem_unknown() {
    // The stem before the last dash is not in the table, the whole label is.
    assert_eq!(BoardLayout::from_label("0200309E4-01"), Some(BoardLayout::Tama));
    assert_eq!(BoardLayout::from_label("DMG-AAA"), Some(BoardLayout::Rom));
}

#[test]
fn label_without_dash_or_unknown() {
    assert_eq!(BoardLayout::from_label("AAAC S"), Some(BoardLayout::Rom));
    assert_eq!(BoardLayout::from_label("XYZ"), None);
    assert_eq!(BoardLayout::from_label(""), None);
    assert_eq!(BoardLayout::from_label("DMG-ZZZ-01"), None);
}

#[test]
fn chip_roles_of_simple_layouts() {
    let rom = ChipRoleConfig::from_layout(BoardLayout::Rom);
    assert_eq!(rom.u1, Some(ChipRole::Rom));
    assert_eq!(rom.u2, None);
    assert_eq!(rom.x1, None);

    let mapper = ChipRoleConfig::from_layout(BoardLayout::RomMapper);
    assert_eq!(mapper.u1, Some(ChipRole::Rom));
    assert_eq!(mapper.u2, Some(ChipRole::Mapper));
    assert_eq!(mapper.u3, None);
}

#[test]
fn chip_roles_of_tama_layout() {
    let tama = ChipRoleConfig::from_layout(BoardLayout::Tama);
    assert_eq!(
        tama,
        ChipRoleConfig {
            u1: Some(ChipRole::Tama),
            u2: Some(ChipRole::Tama),
            u3: Some(ChipRole::Tama),
            u4: Some(ChipRole::Unknown),
            u5: Some(ChipRole::RamBackup),
            u6: None,
            u7: None,
            x1: Some(ChipRole::Crystal),
        }
    );
}

#[test]
fn chip_roles_default_is_empty() {
    let d = ChipRoleConfig::default();
    assert_eq!(
        d,
        ChipRoleConfig {
            u1: None,
            u2: None,
            u3: None,
            u4: None,
            u5: None,
            u6: None,
            u7: None,
            x1: None,
        }
    );
}

#[test]
fn platform_names() {
    assert_eq!(GamePlatform::Gb.name(), "GB");
    assert_eq!(GamePlatform::Gbc.name(), "GBC");
    assert_eq!(GamePlatform::Gba.name(), "GBA");
}

#[test]
fn game_config_round_trip_fields() {
    let cfg = GameConfig {
        name: "Some Game".to_string(),
        platform: GamePlatform::Gbc,
        layouts: vec![BoardLayout::RomMapper, BoardLayout::RomMapperRam],
    };
    let copy = cfg.clone();
    assert_eq!(copy, cfg);
    assert_eq!(copy.layouts.len(), 2);
}
