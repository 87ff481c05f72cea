use weathercli::json::{Json, city_to_json, json_to_api_key, json_to_cities, json_to_city};
use weathercli::model::{City, WorkflowError};
use weathercli::workflow::resolve_context;

fn city(name: &str, country: &str, lat: &str, lon: &str) -> City {
    City {
        name: name.to_owned(),
        country: country.to_owned(),
        lat: lat.to_owned(),
        lon: lon.to_owned(),
    }
}

fn city_json(name: &str, country: &str, lat: &str, lon: &str) -> Json {
    city_to_json(&city(name, country, lat, lon))
}

fn key_json(key: &str) -> Json {
    Json::Obj(vec![("key".to_owned(), Json::Str(key.to_owned()))])
}

#[test]
fn city_round_trips_through_store_form() {
    let c = city("Paris", "FR", "48.8566", "2.3522");
    let j = city_to_json(&c);
    let back = json_to_city(&j).expect("canonical form must read back");
    assert_eq!(back, c);
}

#[test]
fn city_fields_found_in_any_order() {
    // a store written by an outside tool may order the fields differently
    let j = Json::Obj(vec![
        ("country".to_owned(), Json::Str("FR".to_owned())),
        ("lat".to_owned(), Json::Num("48.8566".to_owned())),
        ("lon".to_owned(), Json::Num("2.3522".to_owned())),
        ("name".to_owned(), Json::Str("Paris".to_owned())),
    ]);
    let c = json_to_city(&j).expect("all four fields are present");
    assert_eq!(c, city("Paris", "FR", "48.8566", "2.3522"));
}

#[test]
fn city_with_missing_field_is_rejected() {
    let j = Json::Obj(vec![("name".to_owned(), Json::Str("Paris".to_owned()))]);
    assert_eq!(json_to_city(&j), None);
}

#[test]
fn city_with_wrong_field_type_is_rejected() {
    let j = Json::Obj(vec![
        ("name".to_owned(), Json::Str("Paris".to_owned())),
        ("country".to_owned(), Json::Str("FR".to_owned())),
        ("lat".to_owned(), Json::Str("48.8566".to_owned())),
        ("lon".to_owned(), Json::Num("2.3522".to_owned())),
    ]);
    assert_eq!(json_to_city(&j), None);
}

#[test]
fn cities_reads_each_element() {
    let j = Json::Arr(vec![
        city_json("Paris", "FR", "48.8566", "2.3522"),
        city_json("Oslo", "NO", "59.9139", "10.7522"),
    ]);
    let cs = json_to_cities(&j).expect("both elements are cities");
    assert_eq!(cs.len(), 2);
    assert_eq!(cs[0].name, "Paris");
    assert_eq!(cs[1].name, "Oslo");
}

#[test]
fn cities_rejects_non_array() {
    assert!(json_to_cities(&city_json("Paris", "FR", "1", "2")).is_none());
}

#[test]
fn cities_rejects_array_with_non_city() {
    let j = Json::Arr(vec![city_json("Paris", "FR", "1", "2"), Json::Null]);
    assert!(json_to_cities(&j).is_none());
}

#[test]
fn api_key_reads_back() {
    let k = json_to_api_key(&key_json("k")).expect("well-shaped key record");
    assert_eq!(k.key, "k");
}

#[test]
fn api_key_rejects_wrong_shape() {
    assert_eq!(json_to_api_key(&Json::Arr(vec![])), None);
    assert_eq!(
        json_to_api_key(&Json::Obj(vec![("key".to_owned(), Json::Num("1".to_owned()))])),
        None
    );
}

#[test]
fn non_prompting_returns_stored_city() {
    let cfg = city_json("Paris", "FR", "48.8566", "2.3522");
    let (c, k, w) = resolve_context(false, &cfg, "", &key_json("k")).expect("singleton city");
    assert_eq!(c, city("Paris", "FR", "48.8566", "2.3522"));
    assert_eq!(k.key, "k");
    assert!(w.is_none());
}

#[test]
fn non_prompting_rejects_list_shape() {
    let cfg = Json::Arr(vec![city_json("Paris", "FR", "1", "2")]);
    assert_eq!(
        resolve_context(false, &cfg, "", &key_json("k")).unwrap_err(),
        WorkflowError::ConfigShapeMismatch
    );
}

#[test]
fn non_prompting_rejects_malformed_city() {
    assert_eq!(
        resolve_context(false, &Json::Null, "", &key_json("k")).unwrap_err(),
        WorkflowError::ConfigUnavailable
    );
}

#[test]
fn malformed_key_record_is_shape_mismatch() {
    let cfg = city_json("Paris", "FR", "1", "2");
    assert_eq!(
        resolve_context(false, &cfg, "", &Json::Null).unwrap_err(),
        WorkflowError::ConfigShapeMismatch
    );
}

fn three_candidates() -> Json {
    Json::Arr(vec![
        city_json("Paris", "FR", "48.8566", "2.3522"),
        city_json("Lima", "PE", "-12.0464", "-77.0428"),
        city_json("Oslo", "NO", "59.9139", "10.7522"),
    ])
}

#[test]
fn prompting_persists_and_returns_second_candidate() {
    let (c, k, w) = resolve_context(true, &three_candidates(), "2", &key_json("k"))
        .expect("selection 2 of 3 is valid");
    let lima = city("Lima", "PE", "-12.0464", "-77.0428");
    assert_eq!(c, lima);
    assert_eq!(k.key, "k");
    // the persisted record is exactly the chosen candidate's store form
    assert_eq!(w.expect("prompting persists the choice"), city_to_json(&lima));
}

#[test]
fn prompting_rejects_zero_as_out_of_range() {
    assert_eq!(
        resolve_context(true, &three_candidates(), "0", &key_json("k")).unwrap_err(),
        WorkflowError::SelectionOutOfRange
    );
}

#[test]
fn prompting_rejects_four_as_out_of_range() {
    assert_eq!(
        resolve_context(true, &three_candidates(), "4", &key_json("k")).unwrap_err(),
        WorkflowError::SelectionOutOfRange
    );
}

#[test]
fn prompting_rejects_non_integer() {
    assert_eq!(
        resolve_context(true, &three_candidates(), "abc", &key_json("k")).unwrap_err(),
        WorkflowError::InvalidSelection
    );
}

#[test]
fn prompting_rejects_non_list_shape() {
    let cfg = city_json("Paris", "FR", "1", "2");
    assert_eq!(
        resolve_context(true, &cfg, "1", &key_json("k")).unwrap_err(),
        WorkflowError::ConfigUnavailable
    );
}

#[test]
fn selection_errors_precede_key_errors() {
    // the original read the key record only after the selection succeeded
    assert_eq!(
        resolve_context(true, &three_candidates(), "9", &Json::Null).unwrap_err(),
        WorkflowError::SelectionOutOfRange
    );
}
