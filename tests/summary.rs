use gpa_calculator::course::{construct_classes_map, Course};
use gpa_calculator::grade::{construct_grade_map, GradeTable};
use gpa_calculator::semester::{Semester, SEMESTER_COUNT};
use gpa_calculator::summary::{summarize, Summary};

fn gpa_of(s: &Summary) -> f32 {
    s.gpa_points as f32 / 100.0 / s.graded_credits as f32
}

#[test]
fn single_a_course() {
    let courses = vec![Course::new("Calculus II", Semester::Fall2020, 4, Some("A"))];
    let s = summarize(&courses, &construct_grade_map());
    assert_eq!(s.graded_credits, 4);
    assert_eq!(s.gpa_points, 1600);
    assert_eq!(s.gpa_hundredths(), Some(400));
    assert_eq!(gpa_of(&s), 4.0);
}

#[test]
fn a_and_b_minus_courses() {
    let courses = vec![
        Course::new("Algorithms", Semester::Fall2021, 4, Some("A")),
        Course::new("Set Theory", Semester::Fall2021, 3, Some("B-")),
    ];
    let s = summarize(&courses, &construct_grade_map());
    assert_eq!(s.graded_credits, 7);
    assert_eq!(s.total_credits, 7);
    assert_eq!(s.gpa_points, 2401);
    assert_eq!(s.gpa_hundredths(), Some(343));
    assert!((gpa_of(&s) - 3.43).abs() < 0.001);
}

#[test]
fn pass_course_has_no_gpa() {
    let courses = vec![Course::new("Fitness Activities", Semester::Fall2021, 1, Some("P"))];
    let s = summarize(&courses, &construct_grade_map());
    assert_eq!(s.graded_credits, 0);
    assert_eq!(s.gpa_points, 0);
    assert_eq!(s.total_credits, 1);
    assert_eq!(s.gpa_hundredths(), None);
}

#[test]
fn ungraded_course_counts_in_total_and_term_only() {
    let courses = vec![Course::new("CS Project II", Semester::Spring2023, 4, None)];
    let s = summarize(&courses, &construct_grade_map());
    assert_eq!(s.total_credits, 4);
    assert_eq!(s.graded_credits, 0);
    assert_eq!(s.gpa_points, 0);
    assert_eq!(s.gpa_hundredths(), None);
    let mut expected = vec![0u64; SEMESTER_COUNT];
    expected[Semester::Spring2023.index()] = 4;
    assert_eq!(s.distribution, expected);
}

#[test]
fn total_counts_every_course() {
    let courses = vec![
        Course::new("Graded", Semester::Fall2020, 4, Some("A")),
        Course::new("Passed", Semester::Fall2021, 1, Some("P")),
        Course::new("Planned", Semester::Spring2024, 3, None),
        Course::new("Typo", Semester::Spring2024, 2, Some("Q")),
    ];
    let s = summarize(&courses, &construct_grade_map());
    assert_eq!(s.total_credits, 10);
}

#[test]
fn distribution_per_term_sums_to_total() {
    let courses = vec![
        Course::new("One", Semester::Fall2020, 4, Some("A")),
        Course::new("Two", Semester::Fall2020, 3, None),
        Course::new("Three", Semester::Summer2022, 2, Some("P")),
        Course::new("Four", Semester::Spring2024, 1, Some("C")),
    ];
    let s = summarize(&courses, &construct_grade_map());
    assert_eq!(s.distribution, vec![7, 0, 0, 0, 0, 2, 0, 0, 0, 0, 1]);
    assert_eq!(s.distribution.iter().sum::<u64>(), s.total_credits);
}

#[test]
fn pass_and_planned_courses_add_no_grade() {
    let graded = vec![Course::new("One", Semester::Fall2020, 3, Some("B+"))];
    let mut with_others = vec![Course::new("One", Semester::Fall2020, 3, Some("B+"))];
    with_others.push(Course::new("Two", Semester::Fall2020, 2, Some("P")));
    with_others.push(Course::new("Three", Semester::Fall2021, 4, None));
    let grades = construct_grade_map();
    let a = summarize(&graded, &grades);
    let b = summarize(&with_others, &grades);
    assert_eq!(a.graded_credits, b.graded_credits);
    assert_eq!(a.gpa_points, b.gpa_points);
    assert_eq!(a.gpa_points, 999);
    assert_eq!(b.total_credits, 9);
}

#[test]
fn unknown_grade_counts_credits_without_points() {
    let courses = vec![
        Course::new("One", Semester::Fall2020, 4, Some("A")),
        Course::new("Two", Semester::Fall2020, 4, Some("A*")),
    ];
    let s = summarize(&courses, &construct_grade_map());
    assert_eq!(s.graded_credits, 8);
    assert_eq!(s.gpa_points, 1600);
    assert_eq!(s.gpa_hundredths(), Some(200));
}

#[test]
fn empty_table() {
    let courses: Vec<Course> = Vec::new();
    let s = summarize(&courses, &construct_grade_map());
    assert_eq!(s.total_credits, 0);
    assert_eq!(s.graded_credits, 0);
    assert_eq!(s.gpa_points, 0);
    assert_eq!(s.distribution, vec![0u64; SEMESTER_COUNT]);
    assert_eq!(s.gpa_hundredths(), None);
}

#[test]
fn largest_credit_count() {
    let courses = vec![
        Course::new("Big", Semester::Fall2023, 255, Some("A+")),
        Course::new("Big again", Semester::Fall2023, 255, Some("F")),
    ];
    let s = summarize(&courses, &construct_grade_map());
    assert_eq!(s.total_credits, 510);
    assert_eq!(s.graded_credits, 510);
    assert_eq!(s.gpa_points, 102000);
    assert_eq!(s.gpa_hundredths(), Some(200));
}

#[test]
fn empty_grade_table_gives_no_points() {
    let courses = vec![Course::new("One", Semester::Fall2020, 4, Some("A"))];
    let s = summarize(&courses, &GradeTable::new());
    assert_eq!(s.graded_credits, 4);
    assert_eq!(s.gpa_points, 0);
    assert_eq!(s.gpa_hundredths(), Some(0));
}

#[test]
fn course_table_summary() {
    let courses = construct_classes_map();
    assert_eq!(courses.len(), 39);
    let s = summarize(&courses, &construct_grade_map());
    assert_eq!(s.total_credits, 113);
    assert_eq!(s.graded_credits, 84);
    assert_eq!(s.gpa_points, 33468);
    assert_eq!(s.distribution, vec![12, 18, 9, 17, 13, 3, 13, 13, 0, 9, 6]);
    assert_eq!(s.gpa_hundredths(), Some(398));
}

#[test]
fn course_table_names_are_distinct() {
    let courses = construct_classes_map();
    for i in 0..courses.len() {
        for j in (i + 1)..courses.len() {
            assert_ne!(courses[i].name, courses[j].name);
        }
    }
}
