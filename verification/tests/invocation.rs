use vulcan_lights::color::Color;
use vulcan_lights::color::ImpactColor;
use vulcan_lights::key::Category;
use vulcan_lights::key::Key;
use vulcan_lights::mode::Mode;
use vulcan_lights::settings::ImpactSettings;
use vulcan_lights::settings::Settings;

fn small_catalog(custom_a: Option<Color>, category_of_a: u8) -> Settings {
    let categories = vec![
        Category::new(1, "Main color[letters]", Color::from(10, 20, 30)),
        Category::new(2, " Digits color", Color::from(0, 100, 30)),
    ];
    let keys = vec![
        Key::new("A".to_string(), category_of_a, custom_a),
        Key::new("1".to_string(), 2, None),
    ];
    let ramp = [
        ImpactColor::from(0, 0, 119),
        ImpactColor::from(2303, 0, -255),
        ImpactColor::from(2303, 0, -143),
        ImpactColor::from(2303, 0, 0),
        ImpactColor::from(187, 0, 187),
        ImpactColor::from(153, 0, 187),
        ImpactColor::from(85, 0, 170),
    ];
    Settings {
        impact_settings: ImpactSettings {
            fixed_keys: keys,
            fixed_categories: categories,
            color_idx: ramp,
        },
        wave_speed: 6,
        mode: Mode::Impact,
        config_path: "config.ron".to_string(),
    }
}

#[test]
fn scenario_a_default_key_resolves_to_category_color() {
    let settings = Settings::default();
    let inv = settings.build_invocation(false);
    assert_eq!(inv.args[0], "-k");
    assert_eq!(inv.args[1], "KEY_A:10,20,30");
    assert!(inv.unresolved.is_empty());
}

#[test]
fn scenario_b_custom_color_overrides_category() {
    let settings = small_catalog(Some(Color::from(1, 2, 3)), 1);
    let inv = settings.build_invocation(false);
    assert_eq!(inv.args[0], "-k");
    assert_eq!(inv.args[1], "KEY_A:1,2,3");
    assert!(inv.unresolved.is_empty());
}

#[test]
fn scenario_c_dangling_category_skips_key_with_diagnostic() {
    let settings = small_catalog(None, 99);
    let inv = settings.build_invocation(false);
    // The dangling key "A" emits nothing; "1" still resolves.
    assert_eq!(inv.args[0], "-k");
    assert_eq!(inv.args[1], "KEY_1:0,100,30");
    assert_eq!(inv.unresolved, vec!["A".to_string()]);
    for arg in &inv.args {
        assert!(!arg.contains("KEY_A"));
    }
}

#[test]
fn scenario_d_wave_mode_emits_speed_pair_only() {
    let mut settings = Settings::default();
    settings.set_mode(Mode::Wave);
    let inv = settings.build_invocation(false);
    assert_eq!(inv.args, vec!["-w".to_string(), "6".to_string()]);
    assert!(inv.unresolved.is_empty());
}

#[test]
fn scenario_e_off_mode_emits_black_for_every_key_and_no_ramp() {
    let mut settings = Settings::default();
    settings.set_mode(Mode::Off);
    let inv = settings.build_invocation(false);
    let n_keys = settings.impact_settings.fixed_keys.len();
    assert_eq!(n_keys, 104);
    assert_eq!(inv.args.len(), 2 * n_keys);
    for pair in inv.args.chunks(2) {
        assert_eq!(pair[0], "-k");
        assert!(pair[1].starts_with("KEY_"));
        assert!(pair[1].ends_with(":0,0,0"));
    }
    assert!(!inv.args.iter().any(|a| a == "-c"));
    // Overrides and category colors are both ignored in Off mode.
    let overridden = small_catalog(Some(Color::from(1, 2, 3)), 1);
    let mut overridden = overridden;
    overridden.set_mode(Mode::Off);
    let inv = overridden.build_invocation(false);
    assert_eq!(inv.args[1], "KEY_A:0,0,0");
}

#[test]
fn scenario_f_ramp_slot_renders_signed_out_of_range_values() {
    assert_eq!(ImpactColor::from(2303, 0, -255).render(), "2303,0,-255");
    let settings = Settings::default();
    let inv = settings.build_invocation(false);
    let pos = inv.args.iter().position(|a| a == "-c").unwrap();
    assert_eq!(inv.args[pos + 1], "0:0,0,119");
    assert_eq!(inv.args[pos + 3], "1:2303,0,-255");
}

#[test]
fn impact_arguments_keep_catalog_order_and_end_with_ramp() {
    let settings = Settings::default();
    let inv = settings.build_invocation(false);
    // 104 resolvable keys, then 7 ramp slots, each a flag/value pair.
    assert_eq!(inv.args.len(), 2 * 104 + 2 * 7);
    assert_eq!(inv.args[2 * 104 - 1], "KEY_LEFTMETA:255,255,255");
    let ramp_args: Vec<&String> = inv.args[2 * 104..].iter().collect();
    let expected = [
        "0:0,0,119",
        "1:2303,0,-255",
        "2:2303,0,-143",
        "3:2303,0,0",
        "4:187,0,187",
        "5:153,0,187",
        "6:85,0,170",
    ];
    for (i, want) in expected.iter().enumerate() {
        assert_eq!(ramp_args[2 * i], "-c");
        assert_eq!(ramp_args[2 * i + 1], want);
    }
}

#[test]
fn verbose_flag_is_appended_last() {
    let mut settings = Settings::default();
    settings.set_mode(Mode::Wave);
    let inv = settings.build_invocation(true);
    assert_eq!(inv.args, vec!["-w".to_string(), "6".to_string(), "-v".to_string()]);
    let inv = settings.build_invocation(false);
    assert!(!inv.args.iter().any(|a| a == "-v"));
}

#[test]
fn equal_content_yields_equal_invocations_in_every_mode() {
    // Two independently built aggregates with the same persisted content
    // compute identical argument lists, whatever the mode: the in-memory
    // half of the save/load round-trip guarantee.
    for mode in [Mode::Wave, Mode::Impact, Mode::Off] {
        let mut a = Settings::default();
        let mut b = Settings::default();
        a.set_mode(mode);
        b.set_mode(mode);
        let inv_a = a.build_invocation(false);
        let inv_b = b.build_invocation(false);
        assert_eq!(inv_a.args, inv_b.args);
        assert_eq!(inv_a.unresolved, inv_b.unresolved);
    }
}

#[test]
fn set_mode_changes_only_the_mode() {
    let mut settings = Settings::default();
    settings.set_mode(Mode::Off);
    assert_eq!(settings.mode, Mode::Off);
    assert_eq!(settings.wave_speed, 6);
    assert_eq!(settings.config_path, "config.ron");
    assert_eq!(settings.impact_settings.fixed_keys.len(), 104);
}
