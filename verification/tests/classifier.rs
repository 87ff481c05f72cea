use weathercli::classify::get_icon;

#[test]
fn exact_clear_sky() {
    assert_eq!(get_icon("clear sky"), "☀");
}

#[test]
fn exact_few_clouds() {
    assert_eq!(get_icon("few clouds"), "🌤");
}

#[test]
fn exact_tornado() {
    assert_eq!(get_icon("tornado"), "🌪");
}

#[test]
fn clouds_substring_overcast() {
    assert_eq!(get_icon("overcast clouds"), "☁");
}

#[test]
fn clouds_substring_light() {
    assert_eq!(get_icon("light clouds"), "☁");
}

#[test]
fn rain_substring() {
    assert_eq!(get_icon("light rain"), "🌧");
}

#[test]
fn drizzle_substring() {
    assert_eq!(get_icon("heavy intensity drizzle"), "🌧");
}

#[test]
fn rain_wins_over_thunderstorm_by_order() {
    // the rain set is checked before the thunderstorm set
    assert_eq!(get_icon("thunderstorm with rain"), "🌧");
}

#[test]
fn thunderstorm_substring() {
    assert_eq!(get_icon("thunderstorm"), "⛈");
}

#[test]
fn snow_substring() {
    assert_eq!(get_icon("light snow"), "🌨");
}

#[test]
fn sleet_substring() {
    assert_eq!(get_icon("shower sleet"), "🌨");
}

#[test]
fn fog_group_mist() {
    assert_eq!(get_icon("mist"), "🌫");
}

#[test]
fn fog_group_smoke() {
    assert_eq!(get_icon("smoke"), "🌫");
}

#[test]
fn fog_group_dust() {
    assert_eq!(get_icon("sand/dust whirls"), "🌫");
}

#[test]
fn unmatched_is_empty() {
    assert_eq!(get_icon("haze"), "");
}

#[test]
fn empty_description_is_empty() {
    assert_eq!(get_icon(""), "");
}
