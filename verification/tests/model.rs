use vulcan_lights::color::Color;
use vulcan_lights::color::ImpactColor;
use vulcan_lights::key::Category;
use vulcan_lights::key::Key;
use vulcan_lights::mode::Mode;
use vulcan_lights::settings::Settings;

#[test]
fn color_renders_as_comma_joined_decimal() {
    assert_eq!(Color::from(10, 20, 30).render(), "10,20,30");
    assert_eq!(Color::from(0, 0, 0).render(), "0,0,0");
    assert_eq!(Color::from(255, 255, 255).render(), "255,255,255");
    assert_eq!(Color::from(1, 0, 200).render(), "1,0,200");
}

#[test]
fn color_default_is_black() {
    assert_eq!(Color::default().render(), "0,0,0");
}

#[test]
fn impact_color_renders_signed_and_out_of_range_values() {
    assert_eq!(ImpactColor::from(2303, 0, -255).render(), "2303,0,-255");
    assert_eq!(ImpactColor::from(-32768, 32767, 0).render(), "-32768,32767,0");
    assert_eq!(ImpactColor::from(0, 0, 119).render(), "0,0,119");
}

#[test]
fn category_accessors_return_what_was_given() {
    let cat = Category::new(3, "Functions color[F1, F2..]", Color::from(255, 85, 0));
    assert_eq!(cat.id(), 3);
    assert_eq!(cat.description(), "Functions color[F1, F2..]");
    assert_eq!(cat.color().render(), "255,85,0");
}

#[test]
fn key_accessors_return_what_was_given() {
    let key = Key::new("LEFTSHIFT".to_string(), 4, None);
    assert_eq!(key.id(), "LEFTSHIFT");
    assert_eq!(key.category(), 4);
    assert!(key.custom_color().is_none());
    let key = Key::new("A".to_string(), 1, Some(Color::from(1, 2, 3)));
    assert_eq!(key.custom_color().unwrap().render(), "1,2,3");
}

#[test]
fn mode_parsing_accepts_exactly_the_six_spellings() {
    assert_eq!(Mode::from_str("wave").unwrap(), Mode::Wave);
    assert_eq!(Mode::from_str("w").unwrap(), Mode::Wave);
    assert_eq!(Mode::from_str("impact").unwrap(), Mode::Impact);
    assert_eq!(Mode::from_str("i").unwrap(), Mode::Impact);
    assert_eq!(Mode::from_str("off").unwrap(), Mode::Off);
    assert_eq!(Mode::from_str("o").unwrap(), Mode::Off);
}

#[test]
fn mode_parsing_is_case_sensitive_and_rejects_anything_else() {
    for bad in ["Wave", "WAVE", "Impact", "OFF", "O", "", "waves", " w", "x"] {
        let err = Mode::from_str(bad).unwrap_err();
        assert_eq!(err, format!("Invalid mode identifier : {}", bad));
    }
}

#[test]
fn default_settings_hold_the_builtin_catalog() {
    let settings = Settings::default();
    assert_eq!(settings.wave_speed, 6);
    assert_eq!(settings.mode, Mode::Impact);
    assert_eq!(settings.config_path, "config.ron");

    let cats = &settings.impact_settings.fixed_categories;
    assert_eq!(cats.len(), 6);
    let expected = [
        (1, "Main color[letters]", "10,20,30"),
        (2, " Digits color", "0,100,30"),
        (3, "Functions color[F1, F2..]", "255,85,0"),
        (4, "Specials color [CTRL, ALT, TAB, SHIFT..]", "0,20,20"),
        (5, "Specials 2 color [ENTER, GRAVE..]", "255,0,0"),
        (6, "Specials 3 color [ESC, ARROWS, META..]", "255,255,255"),
    ];
    for (cat, (id, desc, color)) in cats.iter().zip(expected.iter()) {
        assert_eq!(cat.id(), *id);
        assert_eq!(cat.description(), *desc);
        assert_eq!(&cat.color().render(), color);
    }

    let keys = &settings.impact_settings.fixed_keys;
    assert_eq!(keys.len(), 104);
    assert_eq!(keys[0].id(), "A");
    assert_eq!(keys[0].category(), 1);
    assert_eq!(keys[36].id(), "TAB");
    assert_eq!(keys[36].category(), 4);
    assert_eq!(keys[62].id(), "0");
    assert_eq!(keys[62].category(), 2);
    assert_eq!(keys[82].id(), "F1");
    assert_eq!(keys[82].category(), 3);
    assert_eq!(keys[94].id(), "ENTER");
    assert_eq!(keys[94].category(), 5);
    assert_eq!(keys[103].id(), "LEFTMETA");
    assert_eq!(keys[103].category(), 6);
    assert!(keys.iter().all(|k| k.custom_color().is_none()));

    let ramp = &settings.impact_settings.color_idx;
    assert_eq!(ramp.len(), 7);
    assert_eq!(ramp[0].render(), "0,0,119");
    assert_eq!(ramp[6].render(), "85,0,170");
}

#[test]
fn default_catalog_keys_resolve_to_their_category_color_in_impact_mode() {
    // Every catalog key lacks an override, so each resolves to its
    // category's color; spot-check one key per category through the
    // emitted arguments.
    let settings = Settings::default();
    let inv = settings.build_invocation(false);
    let args = &inv.args;
    let find = |name: &str| {
        args.iter()
            .find(|a| a.starts_with(&format!("KEY_{}:", name)))
            .unwrap()
            .clone()
    };
    assert_eq!(find("Z"), "KEY_Z:10,20,30");
    assert_eq!(find("KP9"), "KEY_KP9:0,100,30");
    assert_eq!(find("F12"), "KEY_F12:255,85,0");
    assert_eq!(find("SPACE"), "KEY_SPACE:0,20,20");
    assert_eq!(find("GRAVE"), "KEY_GRAVE:255,0,0");
    assert_eq!(find("ESC"), "KEY_ESC:255,255,255");
    assert!(inv.unresolved.is_empty());
}
