//! The condition classifier: a total map from a free-text weather
//! description to a symbolic icon.
//!
//! The first three checks are exact equality against the whole description;
//! the later ones are substring containment. The asymmetry is deliberate:
//! `"light clouds"` is not `"few clouds"`, so it falls through to the
//! substring check and gets the plain cloud icon.

use vstd::prelude::*;
use crate::text::{contains_sub, contains_str, str_eq};

verus! {

/// The icon that a condition description classifies to, in order of
/// precedence; descriptions that match nothing yield the empty string.
pub open spec fn icon_spec(d: Seq<char>) -> Seq<char> {
    if d == "clear sky"@ {
        "☀"@
    } else if d == "few clouds"@ {
        "🌤"@
    } else if d == "tornado"@ {
        "🌪"@
    } else if contains_sub(d, "clouds"@) {
        "☁"@
    } else if contains_sub(d, "rain"@) || contains_sub(d, "drizzle"@) {
        "🌧"@
    } else if contains_sub(d, "thunderstorm"@) {
        "⛈"@
    } else if contains_sub(d, "snow"@) || contains_sub(d, "sleet"@) {
        "🌨"@
    } else if contains_sub(d, "mist"@) || contains_sub(d, "smoke"@)
            || contains_sub(d, "sand"@) || contains_sub(d, "dust"@) {
        "🌫"@
    } else {
        Seq::<char>::empty()
    }
}

/// Classifies a weather condition description to its icon.
pub fn get_icon(description: &str) -> (r: String)
    ensures
        r@ == icon_spec(description@),
{
    if str_eq(description, "clear sky") {
        "☀".to_owned()
    } else if str_eq(description, "few clouds") {
        "🌤".to_owned()
    } else if str_eq(description, "tornado") {
        "🌪".to_owned()
    } else if contains_str(description, "clouds") {
        "☁".to_owned()
    } else if contains_str(description, "rain") || contains_str(description, "drizzle") {
        "🌧".to_owned()
    } else if contains_str(description, "thunderstorm") {
        "⛈".to_owned()
    } else if contains_str(description, "snow") || contains_str(description, "sleet") {
        "🌨".to_owned()
    } else if contains_str(description, "mist") || contains_str(description, "smoke")
            || contains_str(description, "sand") || contains_str(description, "dust") {
        "🌫".to_owned()
    } else {
        String::new()
    }
}

/// Every description that contains `"clouds"` but is not exactly
/// `"few clouds"` classifies to the plain cloud icon: neither of the other
/// exact matches can contain `"clouds"`.
pub proof fn lemma_clouds_substring(d: Seq<char>)
    requires
        contains_sub(d, "clouds"@),
        d != "few clouds"@,
    ensures
        icon_spec(d) == "☁"@,
{
    reveal_strlit("clouds");
    reveal_strlit("clear sky");
    reveal_strlit("tornado");
    if d == "clear sky"@ {
        let i = choose|i: int|
            0 <= i && i + "clouds"@.len() <= d.len() && #[trigger] d.subrange(
                i,
                i + "clouds"@.len(),
            ) == "clouds"@;
        assert(d.subrange(i, i + 6)[2] == d[i + 2]);
        assert(false);
    }
    if d == "tornado"@ {
        let i = choose|i: int|
            0 <= i && i + "clouds"@.len() <= d.len() && #[trigger] d.subrange(
                i,
                i + "clouds"@.len(),
            ) == "clouds"@;
        assert(d.subrange(i, i + 6)[0] == d[i]);
        assert(false);
    }
}

/// A description that matches none of the exact forms and contains none of
/// the listed terms classifies to the empty string.
pub proof fn lemma_unmatched(d: Seq<char>)
    requires
        d != "clear sky"@,
        d != "few clouds"@,
        d != "tornado"@,
        !contains_sub(d, "clouds"@),
        !contains_sub(d, "rain"@),
        !contains_sub(d, "drizzle"@),
        !contains_sub(d, "thunderstorm"@),
        !contains_sub(d, "snow"@),
        !contains_sub(d, "sleet"@),
        !contains_sub(d, "mist"@),
        !contains_sub(d, "smoke"@),
        !contains_sub(d, "sand"@),
        !contains_sub(d, "dust"@),
    ensures
        icon_spec(d) == Seq::<char>::empty(),
{
}

} // verus!
