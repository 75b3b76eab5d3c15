//! The settings aggregate: per-mode configuration, the active mode, and
//! the location of the configuration file, together with the built-in
//! default catalog.
//!
//! The default catalog enumerates every standard keyboard key and assigns it
//! to one of six fixed categories; it is used whenever no usable persisted
//! configuration exists, so its exact key naming, ordering and numeric
//! values are part of the contract with the external driver.

use crate::color::Color;
use crate::color::ImpactColor;
use crate::key::Category;
use crate::key::CategoryId;
use crate::key::Key;
use crate::mode::Mode;
use vstd::prelude::*;
use vstd::string::StringExecFns;

verus! {

/// Driver name of the default catalog's key at position `i` (0 <= i < 104).
pub open spec fn default_key_id(i: int) -> Seq<char> {
    if i == 0 {
        "A"@
    } else if i == 1 {
        "Z"@
    } else if i == 2 {
        "E"@
    } else if i == 3 {
        "R"@
    } else if i == 4 {
        "T"@
    } else if i == 5 {
        "Y"@
    } else if i == 6 {
        "U"@
    } else if i == 7 {
        "I"@
    } else if i == 8 {
        "O"@
    } else if i == 9 {
        "P"@
    } else if i == 10 {
        "Q"@
    } else if i == 11 {
        "S"@
    } else if i == 12 {
        "D"@
    } else if i == 13 {
        "F"@
    } else if i == 14 {
        "G"@
    } else if i == 15 {
        "H"@
    } else if i == 16 {
        "J"@
    } else if i == 17 {
        "K"@
    } else if i == 18 {
        "L"@
    } else if i == 19 {
        "M"@
    } else if i == 20 {
        "W"@
    } else if i == 21 {
        "X"@
    } else if i == 22 {
        "C"@
    } else if i == 23 {
        "V"@
    } else if i == 24 {
        "B"@
    } else if i == 25 {
        "N"@
    } else if i == 26 {
        "SEMICOLON"@
    } else if i == 27 {
        "COMMA"@
    } else if i == 28 {
        "DOT"@
    } else if i == 29 {
        "SLASH"@
    } else if i == 30 {
        "APOSTROPHE"@
    } else if i == 31 {
        "BACKSLASH"@
    } else if i == 32 {
        "LEFTBRACE"@
    } else if i == 33 {
        "RIGHTBRACE"@
    } else if i == 34 {
        "MINUS"@
    } else if i == 35 {
        "EQUAL"@
    } else if i == 36 {
        "TAB"@
    } else if i == 37 {
        "CAPSLOCK"@
    } else if i == 38 {
        "LEFTSHIFT"@
    } else if i == 39 {
        "RIGHTSHIFT"@
    } else if i == 40 {
        "LEFTCTRL"@
    } else if i == 41 {
        "RIGHTCTRL"@
    } else if i == 42 {
        "LEFTALT"@
    } else if i == 43 {
        "RIGHTALT"@
    } else if i == 44 {
        "COMPOSE"@
    } else if i == 45 {
        "BACKSPACE"@
    } else if i == 46 {
        "SPACE"@
    } else if i == 47 {
        "KPDOT"@
    } else if i == 48 {
        "KPPLUS"@
    } else if i == 49 {
        "KPMINUS"@
    } else if i == 50 {
        "KPASTERISK"@
    } else if i == 51 {
        "KPSLASH"@
    } else if i == 52 {
        "NUMLOCK"@
    } else if i == 53 {
        "SYSRQ"@
    } else if i == 54 {
        "SCROLLLOCK"@
    } else if i == 55 {
        "PAUSE"@
    } else if i == 56 {
        "INSERT"@
    } else if i == 57 {
        "HOME"@
    } else if i == 58 {
        "PAGEUP"@
    } else if i == 59 {
        "PAGEDOWN"@
    } else if i == 60 {
        "END"@
    } else if i == 61 {
        "DELETE"@
    } else if i == 62 {
        "0"@
    } else if i == 63 {
        "1"@
    } else if i == 64 {
        "2"@
    } else if i == 65 {
        "3"@
    } else if i == 66 {
        "4"@
    } else if i == 67 {
        "5"@
    } else if i == 68 {
        "6"@
    } else if i == 69 {
        "7"@
    } else if i == 70 {
        "8"@
    } else if i == 71 {
        "9"@
    } else if i == 72 {
        "KP0"@
    } else if i == 73 {
        "KP1"@
    } else if i == 74 {
        "KP2"@
    } else if i == 75 {
        "KP3"@
    } else if i == 76 {
        "KP4"@
    } else if i == 77 {
        "KP5"@
    } else if i == 78 {
        "KP6"@
    } else if i == 79 {
        "KP7"@
    } else if i == 80 {
        "KP8"@
    } else if i == 81 {
        "KP9"@
    } else if i == 82 {
        "F1"@
    } else if i == 83 {
        "F2"@
    } else if i == 84 {
        "F3"@
    } else if i == 85 {
        "F4"@
    } else if i == 86 {
        "F5"@
    } else if i == 87 {
        "F6"@
    } else if i == 88 {
        "F7"@
    } else if i == 89 {
        "F8"@
    } else if i == 90 {
        "F9"@
    } else if i == 91 {
        "F10"@
    } else if i == 92 {
        "F11"@
    } else if i == 93 {
        "F12"@
    } else if i == 94 {
        "ENTER"@
    } else if i == 95 {
        "KPENTER"@
    } else if i == 96 {
        "102ND"@
    } else if i == 97 {
        "GRAVE"@
    } else if i == 98 {
        "ESC"@
    } else if i == 99 {
        "UP"@
    } else if i == 100 {
        "DOWN"@
    } else if i == 101 {
        "RIGHT"@
    } else if i == 102 {
        "LEFT"@
    } else {
        "LEFTMETA"@
    }
}

/// Category id of the default catalog's key at position `i`: positions
/// 0-35 are letters and punctuation (main), 36-61 modifier and navigation
/// keys (specials), 62-81 digits, 82-93 function keys, 94-97 enter/grave
/// (specials 2), 98-103 escape/arrows/meta (specials 3).
pub open spec fn default_key_category(i: int) -> CategoryId {
    if i < 36 {
        1
    } else if i < 62 {
        4
    } else if i < 82 {
        2
    } else if i < 94 {
        3
    } else if i < 98 {
        5
    } else {
        6
    }
}

/// The first `n` keys of `keys` are the first `n` keys of the default
/// catalog, in order, and there are no others.
pub open spec fn default_keys_prefix_ok(keys: Seq<Key>, n: int) -> bool {
    &&& keys.len() == n
    &&& forall|i: int|
        0 <= i < n ==> {
            &&& (#[trigger] keys[i]).id@ == default_key_id(i)
            &&& keys[i].category == default_key_category(i)
            &&& keys[i].custom_color is None
        }
}

/// `keys` is exactly the default catalog's key list: 104 keys, in order,
/// each with its fixed name and category and no per-key override.
pub open spec fn default_keys_ok(keys: Seq<Key>) -> bool {
    default_keys_prefix_ok(keys, 104)
}

/// `cats` is exactly the default catalog's six categories, ids 1-6, each
/// with its fixed description and color.
pub open spec fn default_categories_ok(cats: Seq<Category>) -> bool {
    &&& cats.len() == 6
    &&& cats[0].id == 1 && cats[0].description@ == "Main color[letters]"@ && cats[0].color == (
        Color { r: 10, g: 20, b: 30 })
    &&& cats[1].id == 2 && cats[1].description@ == " Digits color"@ && cats[1].color == (Color {
        r: 0,
        g: 100,
        b: 30,
    })
    &&& cats[2].id == 3 && cats[2].description@ == "Functions color[F1, F2..]"@ && cats[2].color
        == (Color { r: 255, g: 85, b: 0 })
    &&& cats[3].id == 4 && cats[3].description@ == "Specials color [CTRL, ALT, TAB, SHIFT..]"@
        && cats[3].color == (Color { r: 0, g: 20, b: 20 })
    &&& cats[4].id == 5 && cats[4].description@ == "Specials 2 color [ENTER, GRAVE..]"@ && cats[4].color
        == (Color { r: 255, g: 0, b: 0 })
    &&& cats[5].id == 6 && cats[5].description@ == "Specials 3 color [ESC, ARROWS, META..]"@
        && cats[5].color == (Color { r: 255, g: 255, b: 255 })
}

/// Law: the default catalog's category ids are unique, so looking a key's
/// category up by first match finds its only match.
pub proof fn lemma_default_category_ids_unique(cats: Seq<Category>)
    requires
        default_categories_ok(cats),
    ensures
        forall|i: int, j: int|
            0 <= i < cats.len() && 0 <= j < cats.len() && i != j ==> (#[trigger] cats[i]).id != (
            #[trigger] cats[j]).id,
{
}

/// The default 7-slot impact color ramp: slot 0 is the idle base color,
/// slots 1-3 the decaying typed-key colors, slots 4-6 the decaying
/// ghost/neighbor colors.
pub open spec fn default_ramp() -> Seq<ImpactColor> {
    seq![
        ImpactColor { r: 0, g: 0, b: 119 },
        ImpactColor { r: 2303, g: 0, b: -255i16 },
        ImpactColor { r: 2303, g: 0, b: -143i16 },
        ImpactColor { r: 2303, g: 0, b: 0 },
        ImpactColor { r: 187, g: 0, b: 187 },
        ImpactColor { r: 153, g: 0, b: 187 },
        ImpactColor { r: 85, g: 0, b: 170 },
    ]
}

fn push_letter_and_punctuation_keys(keys: &mut Vec<Key>)
    requires
        default_keys_prefix_ok(old(keys)@, 0),
    ensures
        default_keys_prefix_ok(final(keys)@, 36),
{
    keys.push(Key::new(String::from_str("A"), 1, None));
    keys.push(Key::new(String::from_str("Z"), 1, None));
    keys.push(Key::new(String::from_str("E"), 1, None));
    keys.push(Key::new(String::from_str("R"), 1, None));
    keys.push(Key::new(String::from_str("T"), 1, None));
    keys.push(Key::new(String::from_str("Y"), 1, None));
    keys.push(Key::new(String::from_str("U"), 1, None));
    keys.push(Key::new(String::from_str("I"), 1, None));
    keys.push(Key::new(String::from_str("O"), 1, None));
    keys.push(Key::new(String::from_str("P"), 1, None));
    keys.push(Key::new(String::from_str("Q"), 1, None));
    keys.push(Key::new(String::from_str("S"), 1, None));
    keys.push(Key::new(String::from_str("D"), 1, None));
    keys.push(Key::new(String::from_str("F"), 1, None));
    keys.push(Key::new(String::from_str("G"), 1, None));
    keys.push(Key::new(String::from_str("H"), 1, None));
    keys.push(Key::new(String::from_str("J"), 1, None));
    keys.push(Key::new(String::from_str("K"), 1, None));
    keys.push(Key::new(String::from_str("L"), 1, None));
    keys.push(Key::new(String::from_str("M"), 1, None));
    keys.push(Key::new(String::from_str("W"), 1, None));
    keys.push(Key::new(String::from_str("X"), 1, None));
    keys.push(Key::new(String::from_str("C"), 1, None));
    keys.push(Key::new(String::from_str("V"), 1, None));
    keys.push(Key::new(String::from_str("B"), 1, None));
    keys.push(Key::new(String::from_str("N"), 1, None));
    keys.push(Key::new(String::from_str("SEMICOLON"), 1, None));
    keys.push(Key::new(String::from_str("COMMA"), 1, None));
    keys.push(Key::new(String::from_str("DOT"), 1, None));
    keys.push(Key::new(String::from_str("SLASH"), 1, None));
    keys.push(Key::new(String::from_str("APOSTROPHE"), 1, None));
    keys.push(Key::new(String::from_str("BACKSLASH"), 1, None));
    keys.push(Key::new(String::from_str("LEFTBRACE"), 1, None));
    keys.push(Key::new(String::from_str("RIGHTBRACE"), 1, None));
    keys.push(Key::new(String::from_str("MINUS"), 1, None));
    keys.push(Key::new(String::from_str("EQUAL"), 1, None));
}

fn push_modifier_and_navigation_keys(keys: &mut Vec<Key>)
    requires
        default_keys_prefix_ok(old(keys)@, 36),
    ensures
        default_keys_prefix_ok(final(keys)@, 62),
{
    keys.push(Key::new(String::from_str("TAB"), 4, None));
    keys.push(Key::new(String::from_str("CAPSLOCK"), 4, None));
    keys.push(Key::new(String::from_str("LEFTSHIFT"), 4, None));
    keys.push(Key::new(String::from_str("RIGHTSHIFT"), 4, None));
    keys.push(Key::new(String::from_str("LEFTCTRL"), 4, None));
    keys.push(Key::new(String::from_str("RIGHTCTRL"), 4, None));
    keys.push(Key::new(String::from_str("LEFTALT"), 4, None));
    keys.push(Key::new(String::from_str("RIGHTALT"), 4, None));
    keys.push(Key::new(String::from_str("COMPOSE"), 4, None));
    keys.push(Key::new(String::from_str("BACKSPACE"), 4, None));
    keys.push(Key::new(String::from_str("SPACE"), 4, None));
    keys.push(Key::new(String::from_str("KPDOT"), 4, None));
    keys.push(Key::new(String::from_str("KPPLUS"), 4, None));
    keys.push(Key::new(String::from_str("KPMINUS"), 4, None));
    keys.push(Key::new(String::from_str("KPASTERISK"), 4, None));
    keys.push(Key::new(String::from_str("KPSLASH"), 4, None));
    keys.push(Key::new(String::from_str("NUMLOCK"), 4, None));
    keys.push(Key::new(String::from_str("SYSRQ"), 4, None));
    keys.push(Key::new(String::from_str("SCROLLLOCK"), 4, None));
    keys.push(Key::new(String::from_str("PAUSE"), 4, None));
    keys.push(Key::new(String::from_str("INSERT"), 4, None));
    keys.push(Key::new(String::from_str("HOME"), 4, None));
    keys.push(Key::new(String::from_str("PAGEUP"), 4, None));
    keys.push(Key::new(String::from_str("PAGEDOWN"), 4, None));
    keys.push(Key::new(String::from_str("END"), 4, None));
    keys.push(Key::new(String::from_str("DELETE"), 4, None));
}

fn push_digit_keys(keys: &mut Vec<Key>)
    requires
        default_keys_prefix_ok(old(keys)@, 62),
    ensures
        default_keys_prefix_ok(final(keys)@, 82),
{
    keys.push(Key::new(String::from_str("0"), 2, None));
    keys.push(Key::new(String::from_str("1"), 2, None));
    keys.push(Key::new(String::from_str("2"), 2, None));
    keys.push(Key::new(String::from_str("3"), 2, None));
    keys.push(Key::new(String::from_str("4"), 2, None));
    keys.push(Key::new(String::from_str("5"), 2, None));
    keys.push(Key::new(String::from_str("6"), 2, None));
    keys.push(Key::new(String::from_str("7"), 2, None));
    keys.push(Key::new(String::from_str("8"), 2, None));
    keys.push(Key::new(String::from_str("9"), 2, None));
    keys.push(Key::new(String::from_str("KP0"), 2, None));
    keys.push(Key::new(String::from_str("KP1"), 2, None));
    keys.push(Key::new(String::from_str("KP2"), 2, None));
    keys.push(Key::new(String::from_str("KP3"), 2, None));
    keys.push(Key::new(String::from_str("KP4"), 2, None));
    keys.push(Key::new(String::from_str("KP5"), 2, None));
    keys.push(Key::new(String::from_str("KP6"), 2, None));
    keys.push(Key::new(String::from_str("KP7"), 2, None));
    keys.push(Key::new(String::from_str("KP8"), 2, None));
    keys.push(Key::new(String::from_str("KP9"), 2, None));
}

fn push_function_keys(keys: &mut Vec<Key>)
    requires
        default_keys_prefix_ok(old(keys)@, 82),
    ensures
        default_keys_prefix_ok(final(keys)@, 94),
{
    keys.push(Key::new(String::from_str("F1"), 3, None));
    keys.push(Key::new(String::from_str("F2"), 3, None));
    keys.push(Key::new(String::from_str("F3"), 3, None));
    keys.push(Key::new(String::from_str("F4"), 3, None));
    keys.push(Key::new(String::from_str("F5"), 3, None));
    keys.push(Key::new(String::from_str("F6"), 3, None));
    keys.push(Key::new(String::from_str("F7"), 3, None));
    keys.push(Key::new(String::from_str("F8"), 3, None));
    keys.push(Key::new(String::from_str("F9"), 3, None));
    keys.push(Key::new(String::from_str("F10"), 3, None));
    keys.push(Key::new(String::from_str("F11"), 3, None));
    keys.push(Key::new(String::from_str("F12"), 3, None));
}

fn push_enter_and_grave_keys(keys: &mut Vec<Key>)
    requires
        default_keys_prefix_ok(old(keys)@, 94),
    ensures
        default_keys_prefix_ok(final(keys)@, 98),
{
    keys.push(Key::new(String::from_str("ENTER"), 5, None));
    keys.push(Key::new(String::from_str("KPENTER"), 5, None));
    keys.push(Key::new(String::from_str("102ND"), 5, None));
    keys.push(Key::new(String::from_str("GRAVE"), 5, None));
}

fn push_escape_arrow_and_meta_keys(keys: &mut Vec<Key>)
    requires
        default_keys_prefix_ok(old(keys)@, 98),
    ensures
        default_keys_prefix_ok(final(keys)@, 104),
{
    keys.push(Key::new(String::from_str("ESC"), 6, None));
    keys.push(Key::new(String::from_str("UP"), 6, None));
    keys.push(Key::new(String::from_str("DOWN"), 6, None));
    keys.push(Key::new(String::from_str("RIGHT"), 6, None));
    keys.push(Key::new(String::from_str("LEFT"), 6, None));
    keys.push(Key::new(String::from_str("LEFTMETA"), 6, None));
}

fn default_categories() -> (cats: Vec<Category>)
    ensures
        default_categories_ok(cats@),
{
    let mut cats: Vec<Category> = Vec::new();
    cats.push(Category::new(1, "Main color[letters]", Color::from(10, 20, 30)));
    cats.push(Category::new(2, " Digits color", Color::from(0, 100, 30)));
    cats.push(Category::new(3, "Functions color[F1, F2..]", Color::from(255, 85, 0)));
    cats.push(
        Category::new(4, "Specials color [CTRL, ALT, TAB, SHIFT..]", Color::from(0, 20, 20)),
    );
    cats.push(Category::new(5, "Specials 2 color [ENTER, GRAVE..]", Color::from(255, 0, 0)));
    cats.push(Category::new(6, "Specials 3 color [ESC, ARROWS, META..]", Color::from(255, 255, 255)));
    cats
}

/// Configuration of impact mode: the catalog (keys and categories) and the
/// 7-slot color ramp.
pub struct ImpactSettings {
    pub fixed_keys: Vec<Key>,
    pub fixed_categories: Vec<Category>,
    pub color_idx: [ImpactColor; 7],
}

/// `s` is exactly the built-in default impact configuration.
pub open spec fn is_default_impact_settings(s: ImpactSettings) -> bool {
    &&& default_keys_ok(s.fixed_keys@)
    &&& default_categories_ok(s.fixed_categories@)
    &&& s.color_idx@ == default_ramp()
}

impl Default for ImpactSettings {
    /// Builds the default catalog and ramp, deterministically and with no
    /// I/O.
    fn default() -> (s: ImpactSettings)
        ensures
            is_default_impact_settings(s),
    {
        let categories = default_categories();
        let mut keys: Vec<Key> = Vec::new();
        push_letter_and_punctuation_keys(&mut keys);
        push_modifier_and_navigation_keys(&mut keys);
        push_digit_keys(&mut keys);
        push_function_keys(&mut keys);
        push_enter_and_grave_keys(&mut keys);
        push_escape_arrow_and_meta_keys(&mut keys);
        let color_idx: [ImpactColor; 7] = [
            ImpactColor::from(0, 0, 119),
            ImpactColor::from(2303, 0, -255),
            ImpactColor::from(2303, 0, -143),
            ImpactColor::from(2303, 0, 0),
            ImpactColor::from(187, 0, 187),
            ImpactColor::from(153, 0, 187),
            ImpactColor::from(85, 0, 170),
        ];
        proof {
            assert(color_idx@ =~= default_ramp());
        }
        ImpactSettings { fixed_keys: keys, fixed_categories: categories, color_idx }
    }
}

/// The root persisted aggregate: the impact configuration, the wave speed,
/// the active mode, and the path of the configuration file (recorded as a
/// plain field, including in the file itself).
pub struct Settings {
    pub impact_settings: ImpactSettings,
    pub wave_speed: u8,
    pub mode: Mode,
    pub config_path: String,
}

/// `s` is exactly the built-in default settings: the default impact
/// configuration, wave speed 6, impact mode, and `config.ron` as the
/// configuration file.
pub open spec fn is_default_settings(s: Settings) -> bool {
    &&& is_default_impact_settings(s.impact_settings)
    &&& s.wave_speed == 6
    &&& s.mode == Mode::Impact
    &&& s.config_path@ == "config.ron"@
}

impl Settings {
    /// Replaces the active mode; every other field keeps its value.
    pub fn set_mode(&mut self, mode: Mode)
        ensures
            final(self).mode == mode,
            final(self).impact_settings == old(self).impact_settings,
            final(self).wave_speed == old(self).wave_speed,
            final(self).config_path == old(self).config_path,
    {
        self.mode = mode;
    }
}

impl Default for Settings {
    /// Builds the default aggregate around the default catalog.
    fn default() -> (s: Settings)
        ensures
            is_default_settings(s),
    {
        Settings {
            impact_settings: ImpactSettings::default(),
            wave_speed: 6,
            mode: Mode::Impact,
            config_path: String::from_str("config.ron"),
        }
    }
}

} // verus!
