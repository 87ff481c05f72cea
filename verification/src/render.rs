//! Rendering: the final weather summary, the enumerated candidate
//! listing, and the selection prompt line.
//!
//! The emphasized pieces go through the terminal-color collaborator, which
//! either passes text through unchanged or wraps it in ANSI escapes, so
//! the contracts here hold for both outcomes.

use vstd::prelude::*;
use vstd::string::*;
use crate::classify::{get_icon, icon_spec};
use crate::model::{City, WeatherSnapshot, city_caption};
use crate::text::{contains_sub, dec_of, u64_to_string};

verus! {

/// The ANSI escape that ends an emphasized span.
pub open spec fn ansi_reset() -> Seq<char> {
    seq!['\u{1b}', '[', '0', 'm']
}

/// The ANSI escape that starts a span with the given color code.
pub open spec fn ansi_start(code: Seq<char>) -> Seq<char> {
    seq!['\u{1b}', '['] + code + seq!['m']
}

/// The foreground color code for yellow.
pub open spec fn yellow_code() -> Seq<char> {
    seq!['3', '3']
}

/// The foreground color code for green.
pub open spec fn green_code() -> Seq<char> {
    seq!['3', '2']
}

/// `out` is `s` either unchanged (colors disabled) or wrapped in the
/// color escape `code` and the reset escape (colors enabled).
pub open spec fn emphasized(out: Seq<char>, code: Seq<char>, s: Seq<char>) -> bool {
    out == s || out == ansi_start(code) + s + ansi_reset()
}

/// Relies on colored's `Colorize::yellow` and the `Display` of its
/// `ColoredString`: with colors disabled the text is unchanged, with them
/// enabled it is wrapped in the `33` foreground escape and the reset
/// escape; text that itself contains a reset escape is rewritten further,
/// so nothing is claimed for it.
#[verifier::external_body]
fn paint_yellow(s: &str) -> (r: String)
    ensures
        !contains_sub(s@, ansi_reset()) ==> emphasized(r@, yellow_code(), s@),
{
    colored::Colorize::yellow(s).to_string()
}

/// Relies on colored's `Colorize::green` and the `Display` of its
/// `ColoredString`, exactly as `paint_yellow` relies on `yellow`, with
/// the `32` foreground escape.
#[verifier::external_body]
fn paint_green(s: &str) -> (r: String)
    ensures
        !contains_sub(s@, ansi_reset()) ==> emphasized(r@, green_code(), s@),
{
    colored::Colorize::green(s).to_string()
}

/// The fixed summary template: name and country on the heading line, then
/// description with icon, temperature and feels-like in °C, pressure in
/// hPa, visibility in m, humidity in %, wind speed in m/s and cloud cover
/// in %, in this order.
pub open spec fn render_template(
    name_e: Seq<char>,
    country_e: Seq<char>,
    desc: Seq<char>,
    icon: Seq<char>,
    temp: Seq<char>,
    feels: Seq<char>,
    pressure: Seq<char>,
    vis: Seq<char>,
    hum: Seq<char>,
    wind: Seq<char>,
    clouds: Seq<char>,
) -> Seq<char> {
    "Weather in "@ + name_e + " - "@ + country_e + "\n        🢒 "@ + desc + " "@ + icon
        + "\n        🢒 Temperature: "@ + temp + "°C | feels_like "@ + feels
        + "°C \n        🢒 Atmospheric pressure : "@ + pressure + " hPa\n        🢒 Visibility: "@
        + vis + " m\n        🢒 Humidity: "@ + hum + "%\n        🢒 Wind speed: "@ + wind
        + " m/s\n        🢒 Clouds: "@ + clouds + "%\n        "@
}

/// The summary a render yields for this weather, as a function of the two
/// emphasized heading pieces.
pub open spec fn rendered(name_e: Seq<char>, country_e: Seq<char>, w: WeatherSnapshot) -> Seq<
    char,
> {
    render_template(
        name_e,
        country_e,
        w.description@,
        icon_spec(w.description@),
        w.temperature@,
        w.feels_like@,
        dec_of(w.pressure as nat),
        dec_of(w.visibility as nat),
        dec_of(w.humidity as nat),
        w.wind_speed@,
        dec_of(w.cloud_cover as nat),
    )
}

/// Fills the summary template around already-emphasized heading pieces.
pub fn render_with(name_e: &str, country_e: &str, weather: &WeatherSnapshot) -> (r: String)
    ensures
        r@ == rendered(name_e@, country_e@, *weather),
{
    let icon = get_icon(weather.description.as_str());
    let pressure = u64_to_string(weather.pressure as u64);
    let visibility = u64_to_string(weather.visibility as u64);
    let humidity = u64_to_string(weather.humidity as u64);
    let clouds = u64_to_string(weather.cloud_cover as u64);
    let mut s = "Weather in ".to_owned();
    s.append(name_e);
    s.append(" - ");
    s.append(country_e);
    s.append("\n        🢒 ");
    s.append(weather.description.as_str());
    s.append(" ");
    s.append(icon.as_str());
    s.append("\n        🢒 Temperature: ");
    s.append(weather.temperature.as_str());
    s.append("°C | feels_like ");
    s.append(weather.feels_like.as_str());
    s.append("°C \n        🢒 Atmospheric pressure : ");
    s.append(pressure.as_str());
    s.append(" hPa\n        🢒 Visibility: ");
    s.append(visibility.as_str());
    s.append(" m\n        🢒 Humidity: ");
    s.append(humidity.as_str());
    s.append("%\n        🢒 Wind speed: ");
    s.append(weather.wind_speed.as_str());
    s.append(" m/s\n        🢒 Clouds: ");
    s.append(clouds.as_str());
    s.append("%\n        ");
    proof {
        assert(s@ =~= rendered(name_e@, country_e@, *weather));
    }
    s
}

/// Renders the user-facing summary. The heading pieces go through the
/// color collaborator: whatever it did, the rest of the template is
/// exact, and for city fields free of reset escapes the heading pieces
/// are the emphasized name and country.
pub fn render(city: &City, weather: &WeatherSnapshot) -> (r: String)
    ensures
        exists|ne: Seq<char>, ce: Seq<char>| r@ == #[trigger] rendered(ne, ce, *weather),
        !contains_sub(city.name@, ansi_reset()) && !contains_sub(city.country@, ansi_reset())
            ==> exists|ne: Seq<char>, ce: Seq<char>|
            emphasized(ne, yellow_code(), city.name@) && emphasized(ce, yellow_code(), city.country@)
                && r@ == #[trigger] rendered(ne, ce, *weather),
{
    let ne = paint_yellow(city.name.as_str());
    let ce = paint_yellow(city.country.as_str());
    let r = render_with(ne.as_str(), ce.as_str(), weather);
    proof {
        assert(r@ == rendered(ne@, ce@, *weather));
    }
    r
}

/// The enumerated candidate listing up to index `k`: one line per
/// candidate, its 1-based ordinal and its caption.
pub open spec fn listing_upto(cities: Seq<City>, k: int) -> Seq<char>
    decreases k,
{
    if k <= 0 {
        Seq::<char>::empty()
    } else {
        listing_upto(cities, k - 1) + dec_of(k as nat) + ". "@ + city_caption(cities[k - 1])
            + "\n"@
    }
}

/// Renders the whole enumerated candidate listing.
pub fn candidate_listing(cities: &Vec<City>) -> (r: String)
    ensures
        r@ == listing_upto(cities@, cities@.len() as int),
{
    let mut s = String::new();
    let mut i: usize = 0;
    while i < cities.len()
        invariant
            0 <= i <= cities@.len(),
            s@ == listing_upto(cities@, i as int),
        decreases cities@.len() - i,
    {
        let num = u64_to_string((i as u64) + 1);
        s.append(num.as_str());
        s.append(". ");
        let cap = cities[i].caption();
        s.append(cap.as_str());
        s.append("\n");
        proof {
            assert(s@ =~= listing_upto(cities@, i + 1));
        }
        i += 1;
    }
    s
}

/// The selection prompt line, emphasized in green.
pub fn selection_prompt() -> (r: String)
    ensures
        emphasized(r@, green_code(), "Please select a city to monitor for weather updates"@),
{
    let p = "Please select a city to monitor for weather updates";
    proof {
        reveal_strlit("Please select a city to monitor for weather updates");
        if contains_sub(p@, ansi_reset()) {
            let i = choose|i: int|
                0 <= i && i + ansi_reset().len() <= p@.len() && #[trigger] p@.subrange(
                    i,
                    i + ansi_reset().len(),
                ) == ansi_reset();
            assert(p@.subrange(i, i + 4)[0] == p@[i]);
            assert(false);
        }
    }
    paint_green(p)
}

} // verus!
