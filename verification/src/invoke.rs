//! The invocation builder: translates a settings aggregate into the ordered
//! argument list for the external lighting driver.
//!
//! Wave mode emits a single `-w <speed>` pair; Impact mode emits one
//! `-k KEY_<id>:<r,g,b>` pair per resolvable key in catalog order followed
//! by one `-c <slot>:<r,g,b>` pair per ramp slot in order; Off mode emits
//! `-k KEY_<id>:0,0,0` for every key. Keys whose resolution fails are
//! skipped and reported as diagnostics. Argument order is a correctness
//! requirement: the driver may treat later duplicates as overrides.

use crate::color::Color;
use crate::color::ImpactColor;
use crate::color::dec_u32;
use crate::color::spec_color_text;
use crate::color::spec_dec;
use crate::color::spec_impact_color_text;
use crate::key::Category;
use crate::key::Key;
use crate::mode::Mode;
use crate::resolve::resolve_key_color;
use crate::resolve::spec_find_category;
use crate::resolve::spec_resolve;
use crate::settings::Settings;
use vstd::prelude::*;
use vstd::string::StringExecFns;

verus! {

/// The character sequences of a sequence of strings.
pub open spec fn views(strs: Seq<String>) -> Seq<Seq<char>> {
    strs.map_values(|s: String| s@)
}

/// The `-k` argument text for the key named `id` with resolved color `c`.
pub open spec fn spec_key_arg(id: Seq<char>, c: Color) -> Seq<char> {
    "KEY_"@ + id + ":"@ + spec_color_text(c)
}

/// The `-c` argument text for ramp slot `slot` holding `c`.
pub open spec fn spec_ramp_arg(slot: nat, c: ImpactColor) -> Seq<char> {
    spec_dec(slot) + ":"@ + spec_impact_color_text(c)
}

/// What one key contributes to the Impact argument list: a `-k` pair when
/// it resolves, nothing when it does not.
pub open spec fn spec_impact_key_contrib(key: Key, cats: Seq<Category>) -> Seq<Seq<char>> {
    match spec_resolve(key, cats, Mode::Impact) {
        Some(c) => seq!["-k"@, spec_key_arg(key.id@, c)],
        None => Seq::empty(),
    }
}

/// The Impact-mode `-k` pairs contributed by the keys from position `i` on.
pub open spec fn spec_impact_key_args_from(keys: Seq<Key>, cats: Seq<Category>, i: int) -> Seq<
    Seq<char>,
>
    decreases keys.len() - i,
{
    if i < 0 || i >= keys.len() {
        Seq::empty()
    } else {
        spec_impact_key_contrib(keys[i], cats) + spec_impact_key_args_from(keys, cats, i + 1)
    }
}

/// The names of the keys from position `i` on whose resolution fails in
/// Impact mode, in catalog order.
pub open spec fn spec_unresolved_from(keys: Seq<Key>, cats: Seq<Category>, i: int) -> Seq<
    Seq<char>,
>
    decreases keys.len() - i,
{
    if i < 0 || i >= keys.len() {
        Seq::empty()
    } else {
        let rest = spec_unresolved_from(keys, cats, i + 1);
        if spec_resolve(keys[i], cats, Mode::Impact) is None {
            seq![keys[i].id@] + rest
        } else {
            rest
        }
    }
}

/// The Off-mode `-k` pairs for the keys from position `i` on: every key,
/// unconditionally black.
pub open spec fn spec_off_key_args_from(keys: Seq<Key>, i: int) -> Seq<Seq<char>>
    decreases keys.len() - i,
{
    if i < 0 || i >= keys.len() {
        Seq::empty()
    } else {
        seq!["-k"@, spec_key_arg(keys[i].id@, Color { r: 0, g: 0, b: 0 })]
            + spec_off_key_args_from(keys, i + 1)
    }
}

/// The `-c` pairs for the ramp slots from `i` on, in slot order.
pub open spec fn spec_ramp_args_from(ramp: Seq<ImpactColor>, i: int) -> Seq<Seq<char>>
    decreases ramp.len() - i,
{
    if i < 0 || i >= ramp.len() {
        Seq::empty()
    } else {
        seq!["-c"@, spec_ramp_arg(i as nat, ramp[i])] + spec_ramp_args_from(ramp, i + 1)
    }
}

/// The full ordered argument list for the driver, with `-v` appended last
/// when verbose.
pub open spec fn spec_invocation_args(s: Settings, verbose: bool) -> Seq<Seq<char>> {
    let base = match s.mode {
        Mode::Wave => seq!["-w"@, spec_dec(s.wave_speed as nat)],
        Mode::Impact => spec_impact_key_args_from(
            s.impact_settings.fixed_keys@,
            s.impact_settings.fixed_categories@,
            0,
        ) + spec_ramp_args_from(s.impact_settings.color_idx@, 0),
        Mode::Off => spec_off_key_args_from(s.impact_settings.fixed_keys@, 0),
    };
    if verbose {
        base + seq!["-v"@]
    } else {
        base
    }
}

/// The names of the keys skipped for want of a color: only Impact mode
/// resolves per key and reports failures.
pub open spec fn spec_unresolved_keys(s: Settings) -> Seq<Seq<char>> {
    if s.mode is Impact {
        spec_unresolved_from(
            s.impact_settings.fixed_keys@,
            s.impact_settings.fixed_categories@,
            0,
        )
    } else {
        Seq::empty()
    }
}

/// Two keys carrying the same content: name, category and override.
pub open spec fn key_equiv(a: Key, b: Key) -> bool {
    a.id@ == b.id@ && a.category == b.category && a.custom_color == b.custom_color
}

/// Two categories that resolution cannot tell apart: same id and color
/// (the description plays no part in resolution).
pub open spec fn category_equiv(a: Category, b: Category) -> bool {
    a.id == b.id && a.color == b.color
}

/// Pointwise [`category_equiv`] over two category lists.
pub open spec fn catalogs_equiv(a: Seq<Category>, b: Seq<Category>) -> bool {
    a.len() == b.len() && forall|i: int| 0 <= i < a.len() ==> category_equiv(#[trigger] a[i], b[i])
}

/// Pointwise [`key_equiv`] over two key lists.
pub open spec fn keys_equiv(a: Seq<Key>, b: Seq<Key>) -> bool {
    a.len() == b.len() && forall|i: int| 0 <= i < a.len() ==> key_equiv(#[trigger] a[i], b[i])
}

/// Two settings aggregates carrying the same persisted content.
pub open spec fn settings_equiv(a: Settings, b: Settings) -> bool {
    &&& a.mode == b.mode
    &&& a.wave_speed == b.wave_speed
    &&& keys_equiv(a.impact_settings.fixed_keys@, b.impact_settings.fixed_keys@)
    &&& catalogs_equiv(a.impact_settings.fixed_categories@, b.impact_settings.fixed_categories@)
    &&& a.impact_settings.color_idx@ == b.impact_settings.color_idx@
}

proof fn lemma_find_category_equiv(a: Seq<Category>, b: Seq<Category>, id: crate::key::CategoryId)
    requires
        catalogs_equiv(a, b),
    ensures
        match (spec_find_category(a, id), spec_find_category(b, id)) {
            (Some(x), Some(y)) => category_equiv(x, y),
            (None, None) => true,
            _ => false,
        },
    decreases a.len(),
{
    if a.len() > 0 && a[0].id != id {
        assert(catalogs_equiv(a.drop_first(), b.drop_first())) by {
            assert forall|i: int| 0 <= i < a.drop_first().len() implies category_equiv(
                #[trigger] a.drop_first()[i],
                b.drop_first()[i],
            ) by {
                assert(a.drop_first()[i] == a[i + 1]);
                assert(b.drop_first()[i] == b[i + 1]);
            }
        }
        lemma_find_category_equiv(a.drop_first(), b.drop_first(), id);
    }
}

proof fn lemma_resolve_equiv(ka: Key, kb: Key, a: Seq<Category>, b: Seq<Category>, mode: Mode)
    requires
        key_equiv(ka, kb),
        catalogs_equiv(a, b),
    ensures
        spec_resolve(ka, a, mode) == spec_resolve(kb, b, mode),
{
    lemma_find_category_equiv(a, b, ka.category);
}

proof fn lemma_impact_args_equiv(
    ka: Seq<Key>,
    kb: Seq<Key>,
    a: Seq<Category>,
    b: Seq<Category>,
    i: int,
)
    requires
        keys_equiv(ka, kb),
        catalogs_equiv(a, b),
    ensures
        spec_impact_key_args_from(ka, a, i) == spec_impact_key_args_from(kb, b, i),
        spec_unresolved_from(ka, a, i) == spec_unresolved_from(kb, b, i),
    decreases ka.len() - i,
{
    if 0 <= i < ka.len() {
        lemma_resolve_equiv(ka[i], kb[i], a, b, Mode::Impact);
        lemma_impact_args_equiv(ka, kb, a, b, i + 1);
    }
}

proof fn lemma_off_args_equiv(ka: Seq<Key>, kb: Seq<Key>, i: int)
    requires
        keys_equiv(ka, kb),
    ensures
        spec_off_key_args_from(ka, i) == spec_off_key_args_from(kb, i),
    decreases ka.len() - i,
{
    if 0 <= i < ka.len() {
        lemma_off_args_equiv(ka, kb, i + 1);
    }
}

/// Law: the driver argument list and the skipped-key diagnostics are
/// functions of the persisted content alone. Two aggregates that agree on
/// mode, wave speed, key list, category ids and colors, and ramp produce
/// identical results, whatever the mode. Together with a faithful codec
/// this gives the round-trip guarantee: saving and re-loading a
/// configuration leaves the computed invocation unchanged.
pub proof fn lemma_invocation_depends_only_on_content(a: Settings, b: Settings, verbose: bool)
    requires
        settings_equiv(a, b),
    ensures
        spec_invocation_args(a, verbose) == spec_invocation_args(b, verbose),
        spec_unresolved_keys(a) == spec_unresolved_keys(b),
{
    lemma_impact_args_equiv(
        a.impact_settings.fixed_keys@,
        b.impact_settings.fixed_keys@,
        a.impact_settings.fixed_categories@,
        b.impact_settings.fixed_categories@,
        0,
    );
    lemma_off_args_equiv(a.impact_settings.fixed_keys@, b.impact_settings.fixed_keys@, 0);
}

/// What one run hands to the external driver: the ordered argument list,
/// and the names of the keys that were skipped because no color could be
/// resolved for them.
pub struct Invocation {
    pub args: Vec<String>,
    pub unresolved: Vec<String>,
}

fn key_arg_string(key: &Key, c: Color) -> (s: String)
    ensures
        s@ == spec_key_arg(key.id@, c),
{
    let mut s = String::from_str("KEY_");
    s.append(key.id.as_str());
    s.append(":");
    let ct = c.render();
    s.append(ct.as_str());
    s
}

impl Settings {
    /// Builds the driver argument list for the active mode, in the exact
    /// order [`spec_invocation_args`] states, together with the diagnostic
    /// list of unresolvable keys.
    pub fn build_invocation(&self, verbose: bool) -> (r: Invocation)
        ensures
            views(r.args@) == spec_invocation_args(*self, verbose),
            views(r.unresolved@) == spec_unresolved_keys(*self),
    {
        let mut args: Vec<String> = Vec::new();
        let mut unresolved: Vec<String> = Vec::new();
        match self.mode {
            Mode::Wave => {
                args.push(String::from_str("-w"));
                args.push(dec_u32(self.wave_speed as u32));
                proof {
                    assert(views(args@) =~~= seq!["-w"@, spec_dec(self.wave_speed as nat)]);
                }
            },
            Mode::Impact => {
                let keys = &self.impact_settings.fixed_keys;
                let cats = &self.impact_settings.fixed_categories;
                let mut i: usize = 0;
                while i < keys.len()
                    invariant
                        i <= keys@.len(),
                        views(args@) + spec_impact_key_args_from(keys@, cats@, i as int)
                            == spec_impact_key_args_from(keys@, cats@, 0),
                        views(unresolved@) + spec_unresolved_from(keys@, cats@, i as int)
                            == spec_unresolved_from(keys@, cats@, 0),
                    decreases keys@.len() - i,
                {
                    let ghost vargs0 = views(args@);
                    let ghost vunres0 = views(unresolved@);
                    let key = &keys[i];
                    match resolve_key_color(key, cats, Mode::Impact) {
                        Some(c) => {
                            args.push(String::from_str("-k"));
                            args.push(key_arg_string(key, c));
                            proof {
                                assert(views(args@) =~~= vargs0 + spec_impact_key_contrib(
                                    keys@[i as int],
                                    cats@,
                                ));
                            }
                        },
                        None => {
                            unresolved.push(key.id.clone());
                            proof {
                                assert(views(unresolved@) =~~= vunres0.push(keys@[i as int].id@));
                            }
                        },
                    }
                    proof {
                        assert(spec_impact_key_args_from(keys@, cats@, i as int)
                            == spec_impact_key_contrib(keys@[i as int], cats@)
                            + spec_impact_key_args_from(keys@, cats@, i as int + 1));
                        assert(views(args@) + spec_impact_key_args_from(keys@, cats@, i as int + 1)
                            =~~= vargs0 + spec_impact_key_args_from(keys@, cats@, i as int));
                        assert(views(unresolved@) + spec_unresolved_from(keys@, cats@, i as int + 1)
                            =~~= vunres0 + spec_unresolved_from(keys@, cats@, i as int));
                    }
                    i = i + 1;
                }
                let ghost base_keys = views(args@);
                let ramp = &self.impact_settings.color_idx;
                let mut j: usize = 0;
                while j < 7
                    invariant
                        j <= 7,
                        ramp@ == self.impact_settings.color_idx@,
                        ramp@.len() == 7,
                        views(args@) + spec_ramp_args_from(ramp@, j as int) == base_keys
                            + spec_ramp_args_from(ramp@, 0),
                    decreases 7 - j,
                {
                    let ghost vargs0 = views(args@);
                    args.push(String::from_str("-c"));
                    let mut a = dec_u32(j as u32);
                    a.append(":");
                    let ct = ramp[j].render();
                    a.append(ct.as_str());
                    args.push(a);
                    proof {
                        assert(a@ == spec_ramp_arg(j as nat, ramp@[j as int]));
                        assert(views(args@) =~~= vargs0 + seq![
                            "-c"@,
                            spec_ramp_arg(j as nat, ramp@[j as int]),
                        ]);
                        assert(spec_ramp_args_from(ramp@, j as int) == seq![
                            "-c"@,
                            spec_ramp_arg(j as nat, ramp@[j as int]),
                        ] + spec_ramp_args_from(ramp@, j as int + 1));
                        assert(views(args@) + spec_ramp_args_from(ramp@, j as int + 1) =~~= vargs0
                            + spec_ramp_args_from(ramp@, j as int));
                    }
                    j = j + 1;
                }
            },
            Mode::Off => {
                let keys = &self.impact_settings.fixed_keys;
                let mut i: usize = 0;
                while i < keys.len()
                    invariant
                        i <= keys@.len(),
                        views(args@) + spec_off_key_args_from(keys@, i as int)
                            == spec_off_key_args_from(keys@, 0),
                    decreases keys@.len() - i,
                {
                    let ghost vargs0 = views(args@);
                    let key = &keys[i];
                    args.push(String::from_str("-k"));
                    args.push(key_arg_string(key, Color::from(0, 0, 0)));
                    proof {
                        assert(views(args@) =~~= vargs0 + seq![
                            "-k"@,
                            spec_key_arg(keys@[i as int].id@, Color { r: 0, g: 0, b: 0 }),
                        ]);
                        assert(spec_off_key_args_from(keys@, i as int) == seq![
                            "-k"@,
                            spec_key_arg(keys@[i as int].id@, Color { r: 0, g: 0, b: 0 }),
                        ] + spec_off_key_args_from(keys@, i as int + 1));
                        assert(views(args@) + spec_off_key_args_from(keys@, i as int + 1) =~~=
                            vargs0 + spec_off_key_args_from(keys@, i as int));
                    }
                    i = i + 1;
                }
            },
        }
        if verbose {
            let ghost base = views(args@);
            args.push(String::from_str("-v"));
            proof {
                assert(views(args@) =~~= base + seq!["-v"@]);
            }
        }
        Invocation { args, unresolved }
    }
}

} // verus!
