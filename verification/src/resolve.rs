//! The resolver: the precedence rule that computes a key's effective color.
//!
//! Precedence is override > category > failure: in Off mode every key is
//! black; otherwise a per-key override wins, else the color of the first
//! category matching the key's category id, else no color at all (the key is
//! skipped, with a diagnostic, rather than given a fallback).

use crate::color::Color;
use crate::key::Category;
use crate::key::CategoryId;
use crate::key::Key;
use crate::mode::Mode;
use crate::settings::ImpactSettings;
use crate::settings::is_default_impact_settings;
use vstd::prelude::*;

verus! {

/// The first category in `cats` whose id is `id`, if any. Category ids are
/// expected unique, so the first match is the only match.
pub open spec fn spec_find_category(cats: Seq<Category>, id: CategoryId) -> Option<Category>
    decreases cats.len(),
{
    if cats.len() == 0 {
        None
    } else if cats[0].id == id {
        Some(cats[0])
    } else {
        spec_find_category(cats.drop_first(), id)
    }
}

/// The effective color of `key` under `mode`: black in Off mode regardless
/// of configuration; otherwise the key's override if present, else its
/// category's color, else no color.
pub open spec fn spec_resolve(key: Key, cats: Seq<Category>, mode: Mode) -> Option<Color> {
    if mode is Off {
        Some(Color { r: 0, g: 0, b: 0 })
    } else if key.custom_color is Some {
        key.custom_color
    } else {
        match spec_find_category(cats, key.category) {
            Some(c) => Some(c.color),
            None => None,
        }
    }
}

proof fn lemma_find_category_skip(cats: Seq<Category>, id: CategoryId, i: int)
    requires
        0 <= i <= cats.len(),
        forall|j: int| 0 <= j < i ==> cats[j].id != id,
    ensures
        spec_find_category(cats, id) == spec_find_category(cats.skip(i), id),
    decreases i,
{
    if i > 0 {
        lemma_find_category_skip(cats, id, i - 1);
        assert(cats.skip(i - 1).drop_first() =~= cats.skip(i));
        assert(cats.skip(i - 1)[0] == cats[i - 1]);
    } else {
        assert(cats.skip(0) =~= cats);
    }
}

/// Position of the first category in `cats` whose id is `id`, if any.
pub fn find_category(cats: &Vec<Category>, id: CategoryId) -> (r: Option<usize>)
    ensures
        match r {
            Some(i) => i < cats@.len() && spec_find_category(cats@, id) == Some(cats@[i as int]),
            None => spec_find_category(cats@, id) is None,
        },
{
    let mut i: usize = 0;
    while i < cats.len()
        invariant
            i <= cats@.len(),
            forall|j: int| 0 <= j < i ==> cats@[j].id != id,
        decreases cats@.len() - i,
    {
        if cats[i].id() == id {
            proof {
                lemma_find_category_skip(cats@, id, i as int);
                assert(cats@.skip(i as int)[0] == cats@[i as int]);
            }
            return Some(i);
        }
        i = i + 1;
    }
    proof {
        lemma_find_category_skip(cats@, id, cats@.len() as int);
        assert(cats@.skip(cats@.len() as int) =~= Seq::<Category>::empty());
    }
    None
}

/// Computes the effective color of `key` as [`spec_resolve`] states it.
/// `None` means resolution failed (dangling category reference) and the key
/// is to be skipped.
pub fn resolve_key_color(key: &Key, cats: &Vec<Category>, mode: Mode) -> (r: Option<Color>)
    ensures
        r == spec_resolve(*key, cats@, mode),
{
    match mode {
        Mode::Off => Some(Color::from(0, 0, 0)),
        _ => match key.custom_color() {
            Some(c) => Some(c),
            None => match find_category(cats, key.category()) {
                Some(i) => Some(cats[i].color()),
                None => None,
            },
        },
    }
}

/// Law: in Off mode every key resolves to black, whatever its category or
/// override.
pub proof fn lemma_off_mode_resolves_black(key: Key, cats: Seq<Category>)
    ensures
        spec_resolve(key, cats, Mode::Off) == Some(Color { r: 0, g: 0, b: 0 }),
{
}

/// Law: a key with a custom color resolves to exactly that color in Impact
/// mode, whatever its category's color.
pub proof fn lemma_custom_color_wins(key: Key, cats: Seq<Category>, c: Color)
    requires
        key.custom_color == Some(c),
    ensures
        spec_resolve(key, cats, Mode::Impact) == Some(c),
{
}

/// Law: in the default catalog, a key without a custom color resolves in
/// Impact mode to exactly the color of its declared category.
pub proof fn lemma_default_catalog_resolves_to_category(s: ImpactSettings, i: int)
    requires
        is_default_impact_settings(s),
        0 <= i < s.fixed_keys@.len(),
    ensures
        ({
            let key = s.fixed_keys@[i];
            let cat = s.fixed_categories@[key.category - 1];
            &&& cat.id == key.category
            &&& spec_resolve(key, s.fixed_categories@, Mode::Impact) == Some(cat.color)
        }),
{
    let key = s.fixed_keys@[i];
    let cats = s.fixed_categories@;
    assert(1 <= key.category <= 6);
    assert(spec_find_category(cats, key.category) == Some(cats[key.category - 1])) by {
        reveal_with_fuel(spec_find_category, 7);
        assert(cats.drop_first()[0] == cats[1]);
        assert(cats.drop_first().drop_first()[0] == cats[2]);
        assert(cats.drop_first().drop_first().drop_first()[0] == cats[3]);
        assert(cats.drop_first().drop_first().drop_first().drop_first()[0] == cats[4]);
        assert(cats.drop_first().drop_first().drop_first().drop_first().drop_first()[0] == cats[5]);
    }
}

} // verus!
