use mpvy::settings::{find_value, number_of, Settings};

fn pairs(list: &[(&str, &str)]) -> Vec<(String, String)> {
    list.iter().map(|(k, v)| (k.to_string(), v.to_string())).collect()
}

#[test]
fn defaults_hold_without_configuration() {
    let s = Settings::defaults();
    assert_eq!(s.max_file_count, 15);
    assert_eq!(s.audio_quality, "0");
    assert_eq!(s.concurrent_fragments, "4");
    let s = Settings::from_pairs(&pairs(&[]));
    assert_eq!(s.max_file_count, 15);
    assert_eq!(s.audio_quality, "0");
    assert_eq!(s.concurrent_fragments, "4");
}

#[test]
fn configured_values_are_taken() {
    let s = Settings::from_pairs(&pairs(&[
        ("concurrent_fragments", "8"),
        ("max_file_count", "3"),
        ("audio_quality", "10"),
        ("other", "x"),
    ]));
    assert_eq!(s.max_file_count, 3);
    assert_eq!(s.audio_quality, "10");
    assert_eq!(s.concurrent_fragments, "8");
}

#[test]
fn unusable_values_fall_back() {
    let s = Settings::from_pairs(&pairs(&[
        ("max_file_count", "many"),
        ("audio_quality", "11"),
        ("concurrent_fragments", ""),
    ]));
    assert_eq!(s.max_file_count, 15);
    assert_eq!(s.audio_quality, "0");
    assert_eq!(s.concurrent_fragments, "4");
    let s = Settings::from_pairs(&pairs(&[
        ("max_file_count", "-1"),
        ("audio_quality", "best"),
        ("concurrent_fragments", "4.5"),
    ]));
    assert_eq!(s.max_file_count, 15);
    assert_eq!(s.audio_quality, "0");
    assert_eq!(s.concurrent_fragments, "4");
    let s = Settings::from_pairs(&pairs(&[("max_file_count", "99999999999999999999999")]));
    assert_eq!(s.max_file_count, 15);
}

#[test]
fn zero_is_a_file_count() {
    let s = Settings::from_pairs(&pairs(&[("max_file_count", "0")]));
    assert_eq!(s.max_file_count, 0);
}

#[test]
fn first_pair_of_a_key_counts() {
    let list = pairs(&[("a", "1"), ("b", "2"), ("a", "3")]);
    assert_eq!(find_value(&list, "a").map(|s| s.as_str()), Some("1"));
    assert_eq!(find_value(&list, "b").map(|s| s.as_str()), Some("2"));
    assert!(find_value(&list, "c").is_none());
    assert!(find_value(&list, "A").is_none());
}

#[test]
fn numbers_are_runs_of_digits() {
    assert_eq!(number_of("0"), Some(0));
    assert_eq!(number_of("007"), Some(7));
    assert_eq!(number_of("18446744073709551615"), Some(u64::MAX));
    assert_eq!(number_of("18446744073709551616"), None);
    assert_eq!(number_of(""), None);
    assert_eq!(number_of("12a"), None);
    assert_eq!(number_of("+3"), None);
    assert_eq!(number_of(" 3"), None);
}
