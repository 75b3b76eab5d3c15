//! The lighting mode: a tagged choice consulted once per run.
//!
//! Parsing is case-sensitive and total over the six accepted spellings
//! (`"wave"`/`"w"`, `"impact"`/`"i"`, `"off"`/`"o"`); anything else is a
//! parse failure whose message carries the offending string.

use vstd::prelude::*;
use vstd::string::StrSliceExecFns;
use vstd::string::StringExecFns;

verus! {

/// The active lighting mode.
#[derive(Clone, Copy, PartialEq, Eq, Structural, Debug)]
pub enum Mode {
    /// Colors cycle across the board at a configurable speed.
    Wave,
    /// Keypresses trigger a decaying color ramp over per-key base colors.
    Impact,
    /// All keys forced to black.
    Off,
}

/// Which mode, if any, the string `s` names.
pub open spec fn spec_mode_of(s: Seq<char>) -> Option<Mode> {
    if s == "wave"@ || s == "w"@ {
        Some(Mode::Wave)
    } else if s == "impact"@ || s == "i"@ {
        Some(Mode::Impact)
    } else if s == "off"@ || s == "o"@ {
        Some(Mode::Off)
    } else {
        None
    }
}

/// Character-by-character string equality.
fn str_eq(a: &str, b: &str) -> (r: bool)
    ensures
        r == (a@ == b@),
{
    let n = a.unicode_len();
    if n != b.unicode_len() {
        return false;
    }
    let mut i: usize = 0;
    while i < n
        invariant
            n == a@.len(),
            n == b@.len(),
            i <= n,
            forall|j: int| 0 <= j < i ==> a@[j] == b@[j],
        decreases n - i,
    {
        if a.get_char(i) != b.get_char(i) {
            return false;
        }
        i = i + 1;
    }
    proof {
        assert(a@ =~= b@);
    }
    true
}

impl Mode {
    /// Parses a mode name. Accepts exactly `"wave"`/`"w"`, `"impact"`/`"i"`
    /// and `"off"`/`"o"`, case-sensitively; any other input is rejected with
    /// a message naming it.
    pub fn from_str(s: &str) -> (r: Result<Mode, String>)
        ensures
            match r {
                Ok(m) => spec_mode_of(s@) == Some(m),
                Err(e) => spec_mode_of(s@) is None && e@ == "Invalid mode identifier : "@ + s@,
            },
    {
        if str_eq(s, "wave") || str_eq(s, "w") {
            Ok(Mode::Wave)
        } else if str_eq(s, "impact") || str_eq(s, "i") {
            Ok(Mode::Impact)
        } else if str_eq(s, "off") || str_eq(s, "o") {
            Ok(Mode::Off)
        } else {
            let mut e = String::from_str("Invalid mode identifier : ");
            e.append(s);
            Err(e)
        }
    }
}

} // verus!
