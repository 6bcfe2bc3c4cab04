use konnektoren_core::task_pattern::TaskPattern;

#[test]
fn test_parse_exact() {
    assert_eq!(TaskPattern::parse("10"), Ok(TaskPattern::Exact(10)));
}

#[test]
fn test_parse_range() {
    assert_eq!(TaskPattern::parse("1..10"), Ok(TaskPattern::Range(1..=10)));
    assert_eq!(TaskPattern::parse("..10"), Ok(TaskPattern::Range(i32::MIN..=10)));
    assert_eq!(TaskPattern::parse("10.."), Ok(TaskPattern::Range(10..=i32::MAX)));
}

#[test]
fn test_parse_random() {
    assert_eq!(TaskPattern::parse("5:random"), Ok(TaskPattern::Random(5, None)));
    assert_eq!(TaskPattern::parse("5:1..10"), Ok(TaskPattern::Random(5, Some(1..=10))));
}

#[test]
fn test_select_items() {
    let items: Vec<i32> = (1..=20).collect();
    let pattern = TaskPattern::Exact(5);
    assert_eq!(pattern.select_items(&items).len(), 5);
    let pattern = TaskPattern::Range(5..=10);
    assert_eq!(pattern.select_items(&items), vec![6, 7, 8, 9, 10, 11]);
    let pattern = TaskPattern::Random(5, None);
    assert_eq!(pattern.select_items(&items).len(), 5);
    let pattern = TaskPattern::Random(5, Some(1..=10));
    let selected = pattern.select_items(&items);
    assert_eq!(selected.len(), 5);
    assert!(selected.iter().all(|&x| (2..=11).contains(&x)));
}

#[test]
fn select_items_random_draws_distinct_items() {
    let items: Vec<i32> = (1..=20).collect();
    let selected = TaskPattern::Random(20, None).select_items(&items);
    let mut sorted = selected.clone();
    sorted.sort();
    assert_eq!(sorted, items);
    let few = TaskPattern::Random(30, Some(3..=5)).select_items(&items);
    assert_eq!(few.len(), 3);
}

#[test]
fn select_items_clamps_ranges() {
    let items: Vec<i32> = (1..=5).collect();
    assert_eq!(TaskPattern::Range(-3..=1).select_items(&items), vec![1, 2]);
    assert_eq!(TaskPattern::Range(3..=100).select_items(&items), vec![4, 5]);
    assert_eq!(TaskPattern::Exact(10).select_items(&items), items);
}

#[test]
fn test_from_usize() {
    let pattern: TaskPattern = 5.into();
    assert_eq!(pattern, TaskPattern::Exact(5));
}

#[test]
fn test_from_string() {
    let pattern: TaskPattern = "5".to_string().into();
    assert_eq!(pattern, TaskPattern::Exact(5));
}

#[test]
fn test_from_str() {
    let pattern: TaskPattern = "5".into();
    assert_eq!(pattern, TaskPattern::Exact(5));
}

#[test]
fn test_invalid_pattern() {
    assert_eq!(TaskPattern::parse("invalid"), Err("Invalid range".to_string()));
}

#[test]
fn test_invalid_range() {
    assert_eq!(TaskPattern::parse("10..5"), Err("Invalid range".to_string()));
}

#[test]
fn test_invalid_random() {
    assert_eq!(TaskPattern::parse("5:10..5"), Err("Invalid range".to_string()));
}

#[test]
fn test_invalid_random_count() {
    assert_eq!(TaskPattern::parse("5:random:10"), Err("Invalid random pattern".to_string()));
}

#[test]
fn test_invalid_random_range() {
    assert_eq!(TaskPattern::parse("5:10..5"), Err("Invalid range".to_string()));
}

#[test]
fn test_invalid_random_range_count() {
    assert_eq!(TaskPattern::parse("5:10..5:10"), Err("Invalid random pattern".to_string()));
}

#[test]
fn pattern_text_round_trip() {
    for p in [
        TaskPattern::Exact(5),
        TaskPattern::Range(5..=10),
        TaskPattern::Random(5, Some(1..=10)),
        TaskPattern::Random(5, None),
    ] {
        let text = p.to_pattern_string();
        assert_eq!(TaskPattern::parse(&text), Ok(p));
    }
    assert_eq!(TaskPattern::Range(5..=10).to_pattern_string(), "5..10");
    assert_eq!(TaskPattern::Random(5, Some(1..=10)).to_pattern_string(), "5:1..10");
    assert_eq!(TaskPattern::Random(5, None).to_pattern_string(), "5:random");
}

#[test]
fn pattern_len_counts_tasks() {
    assert_eq!(TaskPattern::Exact(7).len(), 7);
    assert_eq!(TaskPattern::Range(2..=4).len(), 3);
    assert_eq!(TaskPattern::Range(-5..=4).len(), 5);
    assert_eq!(TaskPattern::Random(3, None).len(), 3);
}

#[test]
fn pattern_display() {
    assert_eq!(TaskPattern::Exact(5).to_string(), "5");
    assert_eq!(TaskPattern::Range(1..=10).to_string(), "1..=10");
}

#[test]
fn parse_range_reads_bounds() {
    assert_eq!(TaskPattern::parse_range("3..7"), Ok(3..=7));
    assert_eq!(TaskPattern::parse_range("..-2"), Ok(i32::MIN..=-2));
    assert_eq!(TaskPattern::parse_range("7..3"), Err("Invalid range".to_string()));
}

#[test]
fn test_serialize() {
    let pattern = TaskPattern::Exact(5);
    assert_eq!(serde_json::to_string(&pattern.to_pattern_string()).unwrap(), "\"5\"");

    let pattern = TaskPattern::Range(5..=10);
    assert_eq!(serde_json::to_string(&pattern.to_pattern_string()).unwrap(), "\"5..10\"");

    let pattern = TaskPattern::Random(5, Some(1..=10));
    assert_eq!(serde_json::to_string(&pattern.to_pattern_string()).unwrap(), "\"5:1..10\"");

    let pattern = TaskPattern::Random(5, None);
    assert_eq!(serde_json::to_string(&pattern.to_pattern_string()).unwrap(), "\"5:random\"");
}

#[test]
fn test_deserialize() {
    let text: String = serde_json::from_str("\"5\"").unwrap();
    assert_eq!(TaskPattern::parse(&text), Ok(TaskPattern::Exact(5)));

    let text: String = serde_json::from_str("\"5..10\"").unwrap();
    assert_eq!(TaskPattern::parse(&text), Ok(TaskPattern::Range(5..=10)));

    let text: String = serde_json::from_str("\"5:1..10\"").unwrap();
    assert_eq!(TaskPattern::parse(&text), Ok(TaskPattern::Random(5, Some(1..=10))));

    let text: String = serde_json::from_str("\"5:random\"").unwrap();
    assert_eq!(TaskPattern::parse(&text), Ok(TaskPattern::Random(5, None)));
}
