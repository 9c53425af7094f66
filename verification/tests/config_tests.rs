use away::config::{Config, LoadOutcome};

#[test]
fn defaults_are_sixty_seconds_and_a_tenth() {
    let c = Config::default();
    assert_eq!(c.user_input_wait_time_ms, 60000);
    assert_eq!(c.key_press_time_ms, 100);
}

#[test]
fn rendering_is_canonical() {
    let c = Config::default();
    assert_eq!(
        c.to_json(),
        "{\n  \"user_input_wait_time_ms\": 60000,\n  \"key_press_time_ms\": 100\n}"
    );
}

#[test]
fn round_trip_returns_the_same_values() {
    let c = Config {
        user_input_wait_time_ms: 12345,
        key_press_time_ms: 678,
    };
    let text = c.to_json();
    assert_eq!(Config::from_json(text.as_str()), Some(c));
}

#[test]
fn parsing_tolerates_whitespace() {
    let text = "  {\n  \"user_input_wait_time_ms\" : 1500 ,\n  \"key_press_time_ms\" : 250\n}  ";
    let c = Config::from_json(text).unwrap();
    assert_eq!(c.user_input_wait_time_ms, 1500);
    assert_eq!(c.key_press_time_ms, 250);
}

#[test]
fn parsing_rejects_corrupt_text() {
    assert!(Config::from_json("garbage").is_none());
    assert!(Config::from_json("{}").is_none());
    assert!(Config::from_json("{\"user_input_wait_time_ms\":1}").is_none());
    assert!(Config::from_json("{\"user_input_wait_time_ms\":1,\"key_press_time_ms\":2}x").is_none());
    assert!(
        Config::from_json("{\"user_input_wait_time_ms\":99999999999999999999,\"key_press_time_ms\":1}")
            .is_none()
    );
}

#[test]
fn keys_parse_in_either_order() {
    let c = Config::from_json("{\"key_press_time_ms\":1,\"user_input_wait_time_ms\":2}").unwrap();
    assert_eq!(c.key_press_time_ms, 1);
    assert_eq!(c.user_input_wait_time_ms, 2);
}

#[test]
fn missing_file_heals_with_defaults() {
    let (c, outcome) = Config::resolve_loaded(None);
    assert_eq!(c, Config::default());
    assert_eq!(outcome, LoadOutcome::CreatedNew);
}

#[test]
fn empty_file_stands_for_defaults() {
    let text = String::new();
    let (c, outcome) = Config::resolve_loaded(Some(&text));
    assert_eq!(c, Config::default());
    assert_eq!(outcome, LoadOutcome::UsedFile);
}

#[test]
fn valid_file_supplies_its_values() {
    let text = String::from("{\"user_input_wait_time_ms\":30000,\"key_press_time_ms\":50}");
    let (c, outcome) = Config::resolve_loaded(Some(&text));
    assert_eq!(c.user_input_wait_time_ms, 30000);
    assert_eq!(c.key_press_time_ms, 50);
    assert_eq!(outcome, LoadOutcome::UsedFile);
}

#[test]
fn corrupt_file_is_removed_and_defaults_apply() {
    let text = String::from("{not json");
    let (c, outcome) = Config::resolve_loaded(Some(&text));
    assert_eq!(c, Config::default());
    assert_eq!(outcome, LoadOutcome::RemovedCorrupt);
}
