use weathercli::model::{City, WeatherSnapshot};
use weathercli::render::{candidate_listing, render, render_with, selection_prompt};
use weathercli::text::u64_to_string;

fn paris() -> City {
    City {
        name: "Paris".to_owned(),
        country: "FR".to_owned(),
        lat: "48.8566".to_owned(),
        lon: "2.3522".to_owned(),
    }
}

fn light_rain() -> WeatherSnapshot {
    WeatherSnapshot {
        description: "light rain".to_owned(),
        temperature: "15.2".to_owned(),
        feels_like: "14".to_owned(),
        pressure: 1012,
        visibility: 8000,
        humidity: 77,
        wind_speed: "3.4".to_owned(),
        cloud_cover: 90,
    }
}

#[test]
fn summary_holds_every_field_in_order() {
    let out = render(&paris(), &light_rain());
    let expected = [
        "Paris", "FR", "light rain", "🌧", "15.2", "14", "1012", "8000", "77", "3.4", "90",
    ];
    let mut from: usize = 0;
    for piece in expected {
        let at = out[from..]
            .find(piece)
            .unwrap_or_else(|| panic!("{piece} missing or out of order in {out}"));
        from += at + piece.len();
    }
}

#[test]
fn summary_keeps_the_template_labels() {
    let out = render(&paris(), &light_rain());
    assert!(out.starts_with("Weather in "));
    assert!(out.contains("🢒 Temperature: 15.2°C | feels_like 14°C "));
    assert!(out.contains("🢒 Atmospheric pressure : 1012 hPa"));
    assert!(out.contains("🢒 Visibility: 8000 m"));
    assert!(out.contains("🢒 Humidity: 77%"));
    assert!(out.contains("🢒 Wind speed: 3.4 m/s"));
    assert!(out.contains("🢒 Clouds: 90%"));
}

#[test]
fn plain_render_is_the_exact_template() {
    let out = render_with("Paris", "FR", &light_rain());
    assert_eq!(
        out,
        "Weather in Paris - FR\n        🢒 light rain 🌧\n        🢒 Temperature: 15.2°C | feels_like 14°C \n        🢒 Atmospheric pressure : 1012 hPa\n        🢒 Visibility: 8000 m\n        🢒 Humidity: 77%\n        🢒 Wind speed: 3.4 m/s\n        🢒 Clouds: 90%\n        "
    );
}

#[test]
fn unmatched_description_renders_empty_icon() {
    let mut w = light_rain();
    w.description = "haze".to_owned();
    let out = render_with("Paris", "FR", &w);
    assert!(out.contains("🢒 haze \n"));
}

#[test]
fn listing_numbers_candidates_from_one() {
    let cities = vec![paris()];
    let out = candidate_listing(&cities);
    assert_eq!(
        out,
        "1. City { name: \"Paris\", country: \"FR\", lat: 48.8566, lon: 2.3522 }\n"
    );
}

#[test]
fn listing_is_one_line_per_candidate() {
    let mut cities = Vec::new();
    for i in 0..12 {
        let mut c = paris();
        c.name = format!("City{i}");
        cities.push(c);
    }
    let out = candidate_listing(&cities);
    assert_eq!(out.lines().count(), 12);
    assert!(out.contains("12. City { name: \"City11\""));
}

#[test]
fn prompt_line_carries_the_message() {
    assert!(selection_prompt().contains("Please select a city to monitor for weather updates"));
}

#[test]
fn decimal_formatting_is_exact() {
    assert_eq!(u64_to_string(0), "0");
    assert_eq!(u64_to_string(7), "7");
    assert_eq!(u64_to_string(120), "120");
    assert_eq!(u64_to_string(18446744073709551615), "18446744073709551615");
}
