use gpa_calculator::grade::{construct_grade_map, GradeTable};
use gpa_calculator::semester::Semester;

#[test]
fn grade_scale_values() {
    let t = construct_grade_map();
    let expected = [
        ("A+", 400),
        ("A", 400),
        ("A-", 367),
        ("B+", 333),
        ("B", 300),
        ("B-", 267),
        ("C+", 233),
        ("C", 200),
        ("C-", 167),
        ("D+", 133),
        ("D", 100),
        ("D-", 67),
        ("F", 0),
        ("P", 0),
    ];
    for (symbol, points) in expected {
        assert_eq!(t.lookup(&symbol.to_string()), Some(points), "{symbol}");
    }
}

#[test]
fn unknown_symbol_is_missing() {
    let t = construct_grade_map();
    assert_eq!(t.lookup(&"E".to_string()), None);
    assert_eq!(t.lookup(&"a".to_string()), None);
    assert_eq!(t.lookup(&String::new()), None);
}

#[test]
fn later_insert_replaces_value() {
    let mut t = GradeTable::new();
    assert_eq!(t.lookup(&"A".to_string()), None);
    t.insert("A".to_string(), 400);
    t.insert("B".to_string(), 300);
    t.insert("A".to_string(), 390);
    assert_eq!(t.lookup(&"A".to_string()), Some(390));
    assert_eq!(t.lookup(&"B".to_string()), Some(300));
}

#[test]
fn semester_indices_follow_order() {
    let all = [
        Semester::Fall2020,
        Semester::Spring2021,
        Semester::Summer2021,
        Semester::Fall2021,
        Semester::Spring2022,
        Semester::Summer2022,
        Semester::Fall2022,
        Semester::Spring2023,
        Semester::Summer2023,
        Semester::Fall2023,
        Semester::Spring2024,
    ];
    for (i, s) in all.iter().enumerate() {
        assert_eq!(s.index(), i);
    }
}
