use gpa_calculator::course::{construct_classes_map, Course};
use gpa_calculator::semester::{Semester, SEMESTER_COUNT};

fn find<'a>(courses: &'a [Course], name: &str) -> &'a Course {
    courses.iter().find(|c| c.name == name).unwrap()
}

#[test]
fn course_table_named_entries() {
    let courses = construct_classes_map();
    let fitness = find(&courses, "Fitness Activities");
    assert_eq!((fitness.semester, fitness.credits, fitness.grade.as_deref()), (Semester::Fall2021, 1, Some("P")));
    let diff = find(&courses, "Differential Equations");
    assert_eq!((diff.semester, diff.credits, diff.grade.as_deref()), (Semester::Fall2021, 4, Some("A-")));
    let project = find(&courses, "CS Project II");
    assert_eq!((project.semester, project.credits, project.grade.as_deref()), (Semester::Spring2023, 4, None));
    let intro = find(&courses, "Intro to Programming");
    assert_eq!((intro.semester, intro.credits, intro.grade.as_deref()), (Semester::Fall2020, 4, Some("A")));
}

#[test]
fn course_table_shape() {
    let courses = construct_classes_map();
    let mut per_term = vec![0usize; SEMESTER_COUNT];
    for c in &courses {
        per_term[c.semester.index()] += 1;
        assert_eq!(c.grade.is_none(), c.semester.index() >= Semester::Spring2023.index());
        assert!(c.credits <= 4);
        assert_eq!(c.credits == 0, c.name == "N/A");
    }
    assert_eq!(per_term, vec![3, 5, 3, 5, 4, 1, 5, 6, 1, 3, 3]);
}

#[test]
fn course_table_is_fixed() {
    let a = construct_classes_map();
    let b = construct_classes_map();
    assert_eq!(a.len(), b.len());
    for (x, y) in a.iter().zip(b.iter()) {
        assert_eq!(x.name, y.name);
        assert_eq!(x.semester, y.semester);
        assert_eq!(x.credits, y.credits);
        assert_eq!(x.grade, y.grade);
    }
}
