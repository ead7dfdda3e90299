use vox_verified::testbed::{Color, LookupError, MathError, Message, Point, TestbedService};

#[test]
fn divide_rounds_toward_zero_and_refuses_two_cases() {
    let s = TestbedService::new();
    assert_eq!(s.divide(7, 2), Ok(3));
    assert_eq!(s.divide(-7, 2), Ok(-3));
    assert_eq!(s.divide(7, -2), Ok(-3));
    assert_eq!(s.divide(-7, -2), Ok(3));
    assert_eq!(s.divide(1, 0), Err(MathError::DivisionByZero));
    assert_eq!(s.divide(i64::MIN, -1), Err(MathError::Overflow));
    assert_eq!(s.divide(i64::MIN, 1), Ok(i64::MIN));
}

#[test]
fn lookup_table() {
    let s = TestbedService::new();
    let alice = s.lookup(1).unwrap();
    assert_eq!(alice.name, "Alice");
    assert_eq!(alice.age, 30);
    assert_eq!(alice.email.as_deref(), Some("alice@example.com"));
    assert_eq!(s.lookup(2).unwrap().email, None);
    assert_eq!(s.lookup(3).unwrap().name, "Charlie");
    assert!(matches!(s.lookup(100), Err(LookupError::AccessDenied)));
    assert!(matches!(s.lookup(199), Err(LookupError::AccessDenied)));
    assert!(matches!(s.lookup(200), Err(LookupError::NotFound)));
    assert!(matches!(s.lookup(0), Err(LookupError::NotFound)));
}

#[test]
fn text_and_messages() {
    let s = TestbedService::new();
    assert_eq!(s.echo("hi".to_string()), "hi");
    assert_eq!(s.reverse("héllo"), "olléh");
    assert!(matches!(s.process_message(Message::Text("x".into())), Message::Text(t) if t == "processed: x"));
    assert!(matches!(s.process_message(Message::Number(21)), Message::Number(42)));
    assert!(matches!(s.process_message(Message::Data(vec![1, 2, 3])), Message::Data(d) if d == vec![3, 2, 1]));
    assert_eq!(s.swap_pair((5, "five".to_string())), ("five".to_string(), 5));
}

#[test]
fn streams_and_collections() {
    let s = TestbedService::new();
    assert_eq!(s.sum(&[1, 2, 3, -10]), -4);
    assert_eq!(s.sum(&[i32::MAX, i32::MAX]), 2 * i32::MAX as i64);
    assert_eq!(s.generate(4), vec![0, 1, 2, 3]);
    assert_eq!(s.get_points(3), vec![Point { x: 0, y: 0 }, Point { x: 1, y: 2 }, Point { x: 2, y: 4 }]);
    assert_eq!(s.all_colors(), vec![Color::Red, Color::Green, Color::Blue]);
    assert_eq!(s.echo_point(Point { x: -1, y: 9 }), Point { x: -1, y: 9 });
}

#[test]
fn colors_by_name() {
    let s = TestbedService::new();
    assert_eq!(s.parse_color("Red"), Some(Color::Red));
    assert_eq!(s.parse_color("GREEN"), Some(Color::Green));
    assert_eq!(s.parse_color("blue"), Some(Color::Blue));
    assert_eq!(s.parse_color("purple"), None);
}

#[test]
fn records() {
    let s = TestbedService::new();
    let p = s.create_person("Dee".to_string(), 40, None);
    assert_eq!((p.name.as_str(), p.age, p.email), ("Dee", 40, None));
    let t = s.describe_point("origin".to_string(), 0, 0, true);
    assert_eq!((t.label.as_str(), t.x, t.y, t.active), ("origin", 0, 0, true));
}

#[test]
fn counts_beyond_i32_range_yield_nothing() {
    let s = TestbedService::new();
    assert!(s.generate(0x8000_0000).is_empty());
    assert!(s.get_points(0x8000_0000).is_empty());
    assert!(s.generate(0).is_empty());
}
