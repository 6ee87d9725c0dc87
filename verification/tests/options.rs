use usi::decimal::decimal_string;
use usi::EngineOptions;

#[test]
fn decimal_notation() {
    assert_eq!(decimal_string(0), "0");
    assert_eq!(decimal_string(4), "4");
    assert_eq!(decimal_string(9), "9");
    assert_eq!(decimal_string(10), "10");
    assert_eq!(decimal_string(-1), "-1");
    assert_eq!(decimal_string(1024), "1024");
    assert_eq!(decimal_string(-9070), "-9070");
    assert_eq!(decimal_string(i32::MAX), "2147483647");
    assert_eq!(decimal_string(i32::MIN), "-2147483648");
}

#[test]
fn decimal_notation_agrees_with_the_standard_library() {
    let mut n: i32 = -100_000;
    while n <= 100_000 {
        assert_eq!(decimal_string(n), n.to_string());
        n += 37;
    }
}

#[test]
fn options_start_empty() {
    let options = EngineOptions::new();
    assert_eq!(options.len(), 0);
    assert_eq!(options.get("Threads"), None);
    assert!(options.entries().is_empty());
}

#[test]
fn options_hold_each_name_once() {
    let mut options = EngineOptions::new();
    options.insert("Threads".to_string(), "4".to_string());
    options.insert("Hash".to_string(), "256".to_string());
    options.insert("Threads".to_string(), "8".to_string());
    options.insert("".to_string(), "".to_string());
    assert_eq!(options.len(), 3);
    assert_eq!(options.get("Threads").map(|text| text.as_str()), Some("8"));
    assert_eq!(options.get("Hash").map(|text| text.as_str()), Some("256"));
    assert_eq!(options.get("").map(|text| text.as_str()), Some(""));
    assert_eq!(options.get("threads"), None);
    let mut names: Vec<&str> = options.entries().iter().map(|entry| entry.0.as_str()).collect();
    names.sort();
    assert_eq!(names, vec!["", "Hash", "Threads"]);
}
