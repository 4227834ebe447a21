use vstd::prelude::*;
use crate::grade::letter_grades;
use crate::semester::Semester;
use crate::summary::{
    course_points, gpa_points, graded_credits, is_graded, pass_symbol, semester_credits,
    total_credits,
};

verus! {

/// A course: the term it is taken in, its credits, and its letter grade,
/// `None` while no grade has been posted.
pub struct Course {
    pub name: String,
    pub semester: Semester,
    pub credits: u8,
    pub grade: Option<String>,
}

/// What a course holds, as mathematical values.
pub struct CourseView {
    pub name: Seq<char>,
    pub semester: Semester,
    pub credits: nat,
    pub grade: Option<Seq<char>>,
}

impl View for Course {
    type V = CourseView;

    open spec fn view(&self) -> CourseView {
        CourseView {
            name: self.name@,
            semester: self.semester,
            credits: self.credits as nat,
            grade: course_grade(*self),
        }
    }
}

/// The views of a sequence of courses.
pub open spec fn course_views(cs: Seq<Course>) -> Seq<CourseView> {
    cs.map_values(|c: Course| c@)
}

/// No two courses of `cs` have the same name.
pub open spec fn names_distinct(cs: Seq<Course>) -> bool {
    forall|i: int, j: int| 0 <= i < j < cs.len() ==> cs[i].name@ != cs[j].name@
}

/// The names of the courses of `cs`.
pub open spec fn names_of(cs: Seq<Course>) -> Set<Seq<char>>
    decreases cs.len(),
{
    if cs.len() == 0 {
        Set::empty()
    } else {
        names_of(cs.drop_last()).insert(cs.last().name@)
    }
}

proof fn lemma_names_of_contains(cs: Seq<Course>, i: int)
    requires
        0 <= i < cs.len(),
    ensures
        names_of(cs).contains(cs[i].name@),
    decreases cs.len(),
{
    if i < cs.len() - 1 {
        lemma_names_of_contains(cs.drop_last(), i);
    }
}

/// The view of an optional grade symbol.
pub open spec fn grade_view(g: Option<&str>) -> Option<Seq<char>> {
    match g {
        Some(s) => Some(s@),
        None => None,
    }
}

/// The view of a course's grade.
pub open spec fn course_grade(c: Course) -> Option<Seq<char>> {
    match c.grade {
        Some(g) => Some(g@),
        None => None,
    }
}

/// Every posted grade of `cs` is a symbol that `grades` holds.
pub open spec fn grades_on_scale(cs: Seq<Course>, grades: Map<Seq<char>, nat>) -> bool {
    forall|i: int|
        0 <= i < cs.len() && (#[trigger] course_grade(cs[i])) is Some ==> grades.contains_key(
            course_grade(cs[i])->0,
        )
}

impl Course {
    /// A course with the given name, term, credits and grade.
    pub fn new(name: &str, semester: Semester, credits: u8, grade: Option<&str>) -> (r: Course)
        ensures
            r.name@ == name@,
            r.semester == semester,
            r.credits == credits,
            course_grade(r) == grade_view(grade),
    {
        let grade = match grade {
            Some(g) => Some(g.to_owned()),
            None => None,
        };
        Course { name: name.to_owned(), semester, credits, grade }
    }
}

/// Adds a course to the end of `table`.
fn add_course(table: &mut Vec<Course>, name: &str, semester: Semester, credits: u8, grade: Option<&str>)
    requires
        grades_on_scale(old(table)@, letter_grades()),
        grade_view(grade) is Some ==> letter_grades().contains_key(grade_view(grade)->0),
        names_distinct(old(table)@),
        !names_of(old(table)@).contains(name@),
    ensures
        course_views(final(table)@) == course_views(old(table)@).push(
            CourseView { name: name@, semester, credits: credits as nat, grade: grade_view(grade) },
        ),
        names_of(final(table)@) == names_of(old(table)@).insert(name@),
        names_distinct(final(table)@),
        final(table)@.len() == old(table)@.len() + 1,
        final(table)@.drop_last() == old(table)@,
        final(table)@.last().semester == semester,
        final(table)@.last().credits == credits,
        course_grade(final(table)@.last()) == grade_view(grade),
        total_credits(final(table)@) == total_credits(old(table)@) + credits,
        forall|s: Semester|
            #[trigger] semester_credits(final(table)@, s) == semester_credits(old(table)@, s) + if s
                == semester {
                credits as nat
            } else {
                0
            },
        graded_credits(final(table)@) == graded_credits(old(table)@) + if is_graded(
            final(table)@.last(),
        ) {
            credits as nat
        } else {
            0
        },
        gpa_points(final(table)@, letter_grades()) == gpa_points(old(table)@, letter_grades())
            + course_points(final(table)@.last(), letter_grades()),
        grades_on_scale(final(table)@, letter_grades()),
{
    table.push(Course::new(name, semester, credits, grade));
    assert(table@.drop_last() =~= old(table)@);
    assert(course_views(table@) =~= course_views(old(table)@).push(table@.last()@));
    assert forall|i: int, j: int| 0 <= i < j < table@.len() implies table@[i].name@ != table@[j].name@ by {
        if j == table@.len() - 1 {
            lemma_names_of_contains(old(table)@, i);
        }
    }
}

/// The values of the letter grades that the course table uses.
proof fn lemma_used_grades()
    ensures
        letter_grades().contains_key("A+"@),
        letter_grades()["A+"@] == 400,
        letter_grades().contains_key("A"@),
        letter_grades()["A"@] == 400,
        letter_grades().contains_key("A-"@),
        letter_grades()["A-"@] == 367,
        letter_grades().contains_key("P"@),
        "A+"@ != pass_symbol(),
        "A"@ != pass_symbol(),
        "A-"@ != pass_symbol(),
{
    reveal_strlit("A+");
    assert("A+"@.len() == 2);
    assert("A+"@[0] == 'A');
    assert("A+"@[1] == '+');
    reveal_strlit("A");
    assert("A"@.len() == 1);
    assert("A"@[0] == 'A');
    reveal_strlit("A-");
    assert("A-"@.len() == 2);
    assert("A-"@[0] == 'A');
    assert("A-"@[1] == '-');
    reveal_strlit("B+");
    assert("B+"@.len() == 2);
    assert("B+"@[0] == 'B');
    assert("B+"@[1] == '+');
    reveal_strlit("B");
    assert("B"@.len() == 1);
    assert("B"@[0] == 'B');
    reveal_strlit("B-");
    assert("B-"@.len() == 2);
    assert("B-"@[0] == 'B');
    assert("B-"@[1] == '-');
    reveal_strlit("C+");
    assert("C+"@.len() == 2);
    assert("C+"@[0] == 'C');
    assert("C+"@[1] == '+');
    reveal_strlit("C");
    assert("C"@.len() == 1);
    assert("C"@[0] == 'C');
    reveal_strlit("C-");
    assert("C-"@.len() == 2);
    assert("C-"@[0] == 'C');
    assert("C-"@[1] == '-');
    reveal_strlit("D+");
    assert("D+"@.len() == 2);
    assert("D+"@[0] == 'D');
    assert("D+"@[1] == '+');
    reveal_strlit("D");
    assert("D"@.len() == 1);
    assert("D"@[0] == 'D');
    reveal_strlit("D-");
    assert("D-"@.len() == 2);
    assert("D-"@[0] == 'D');
    assert("D-"@[1] == '-');
    reveal_strlit("F");
    assert("F"@.len() == 1);
    assert("F"@[0] == 'F');
    reveal_strlit("P");
    assert("P"@.len() == 1);
    assert("P"@[0] == 'P');
}

/// The course table: each course's name, term, credits and grade, `None`
/// for a course that is planned or under way.
pub open spec fn course_table() -> Seq<CourseView> {
    Seq::empty()
        .push(CourseView { name: "Intro to Programming"@, semester: Semester::Fall2020, credits: 4, grade: Some("A"@) })
        .push(CourseView { name: "United States Government"@, semester: Semester::Fall2020, credits: 4, grade: Some("A"@) })
        .push(CourseView { name: "Calculus II"@, semester: Semester::Fall2020, credits: 4, grade: Some("A"@) })
        .push(CourseView { name: "Pop Music USA"@, semester: Semester::Spring2021, credits: 3, grade: Some("A"@) })
        .push(CourseView { name: "Calculus III"@, semester: Semester::Spring2021, credits: 4, grade: Some("A+"@) })
        .push(CourseView { name: "Intro to Math Software"@, semester: Semester::Spring2021, credits: 3, grade: Some("A"@) })
        .push(CourseView { name: "Data Structures"@, semester: Semester::Spring2021, credits: 4, grade: Some("A"@) })
        .push(CourseView { name: "Composition"@, semester: Semester::Spring2021, credits: 4, grade: Some("A"@) })
        .push(CourseView { name: "Concepts of Fitness"@, semester: Semester::Summer2021, credits: 2, grade: Some("A"@) })
        .push(CourseView { name: "Intro to Sociology"@, semester: Semester::Summer2021, credits: 3, grade: Some("A"@) })
        .push(CourseView { name: "Linear Algebra I"@, semester: Semester::Summer2021, credits: 4, grade: Some("A"@) })
        .push(CourseView { name: "Fitness Activities"@, semester: Semester::Fall2021, credits: 1, grade: Some("P"@) })
        .push(CourseView { name: "General Physics I"@, semester: Semester::Fall2021, credits: 4, grade: Some("A"@) })
        .push(CourseView { name: "Algorithms"@, semester: Semester::Fall2021, credits: 4, grade: Some("A"@) })
        .push(CourseView { name: "Set Theory"@, semester: Semester::Fall2021, credits: 4, grade: Some("A"@) })
        .push(CourseView { name: "Differential Equations"@, semester: Semester::Fall2021, credits: 4, grade: Some("A-"@) })
        .push(CourseView { name: "Discrete Math I"@, semester: Semester::Spring2022, credits: 4, grade: Some("A"@) })
        .push(CourseView { name: "HONOR Portfolio Development"@, semester: Semester::Spring2022, credits: 1, grade: Some("A"@) })
        .push(CourseView { name: "Computer Architecture"@, semester: Semester::Spring2022, credits: 4, grade: Some("A"@) })
        .push(CourseView { name: "Physical Geology"@, semester: Semester::Spring2022, credits: 4, grade: Some("A"@) })
        .push(CourseView { name: "Intro to Philosphy"@, semester: Semester::Summer2022, credits: 3, grade: Some("A"@) })
        .push(CourseView { name: "CS Project I"@, semester: Semester::Fall2022, credits: 4, grade: Some("A"@) })
        .push(CourseView { name: "Databases & Security"@, semester: Semester::Fall2022, credits: 2, grade: Some("A"@) })
        .push(CourseView { name: "Programming Languages"@, semester: Semester::Fall2022, credits: 2, grade: Some("A+"@) })
        .push(CourseView { name: "CS Seminar I"@, semester: Semester::Fall2022, credits: 1, grade: Some("A"@) })
        .push(CourseView { name: "Probs & Stats"@, semester: Semester::Fall2022, credits: 4, grade: Some("A"@) })
        .push(CourseView { name: "CS Project II"@, semester: Semester::Spring2023, credits: 4, grade: None })
        .push(CourseView { name: "Operating Systems"@, semester: Semester::Spring2023, credits: 2, grade: None })
        .push(CourseView { name: "SE & Parallel Computing"@, semester: Semester::Spring2023, credits: 2, grade: None })
        .push(CourseView { name: "Algorithms & Computability"@, semester: Semester::Spring2023, credits: 2, grade: None })
        .push(CourseView { name: "Leetcode Class"@, semester: Semester::Spring2023, credits: 2, grade: None })
        .push(CourseView { name: "CS Seminar II"@, semester: Semester::Spring2023, credits: 1, grade: None })
        .push(CourseView { name: "N/A"@, semester: Semester::Summer2023, credits: 0, grade: None })
        .push(CourseView { name: "CS Project III"@, semester: Semester::Fall2023, credits: 4, grade: None })
        .push(CourseView { name: "CS Seminar III"@, semester: Semester::Fall2023, credits: 1, grade: None })
        .push(CourseView { name: "Discrete Math II"@, semester: Semester::Fall2023, credits: 4, grade: None })
        .push(CourseView { name: "CS Project IV"@, semester: Semester::Spring2024, credits: 4, grade: None })
        .push(CourseView { name: "CS Seminar IV"@, semester: Semester::Spring2024, credits: 1, grade: None })
        .push(CourseView { name: "HONR Portfolio Cap"@, semester: Semester::Spring2024, credits: 1, grade: None })
}

/// The lengths of the course names, and the characters that tell apart
/// names of equal length.
proof fn lemma_course_names()
    ensures
        "Intro to Programming"@.len() == 20,
        "United States Government"@.len() == 24,
        "Calculus II"@.len() == 11,
        "Pop Music USA"@.len() == 13,
        "Calculus III"@.len() == 12,
        "Intro to Math Software"@.len() == 22,
        "Data Structures"@.len() == 15,
        "Composition"@.len() == 11,
        "Concepts of Fitness"@.len() == 19,
        "Intro to Sociology"@.len() == 18,
        "Linear Algebra I"@.len() == 16,
        "Fitness Activities"@.len() == 18,
        "General Physics I"@.len() == 17,
        "Algorithms"@.len() == 10,
        "Set Theory"@.len() == 10,
        "Differential Equations"@.len() == 22,
        "Discrete Math I"@.len() == 15,
        "HONOR Portfolio Development"@.len() == 27,
        "Computer Architecture"@.len() == 21,
        "Physical Geology"@.len() == 16,
        "Intro to Philosphy"@.len() == 18,
        "CS Project I"@.len() == 12,
        "Databases & Security"@.len() == 20,
        "Programming Languages"@.len() == 21,
        "CS Seminar I"@.len() == 12,
        "Probs & Stats"@.len() == 13,
        "CS Project II"@.len() == 13,
        "Operating Systems"@.len() == 17,
        "SE & Parallel Computing"@.len() == 23,
        "Algorithms & Computability"@.len() == 26,
        "Leetcode Class"@.len() == 14,
        "CS Seminar II"@.len() == 13,
        "N/A"@.len() == 3,
        "CS Project III"@.len() == 14,
        "CS Seminar III"@.len() == 14,
        "Discrete Math II"@.len() == 16,
        "CS Project IV"@.len() == 13,
        "CS Seminar IV"@.len() == 13,
        "HONR Portfolio Cap"@.len() == 18,
        "Algorithms"@[0] == 'A',
        "CS Project I"@[1] == 'S',
        "CS Project I"@[3] == 'P',
        "CS Project II"@[0] == 'C',
        "CS Project II"@[3] == 'P',
        "CS Project II"@[12] == 'I',
        "CS Project III"@[0] == 'C',
        "CS Project III"@[3] == 'P',
        "CS Project IV"@[0] == 'C',
        "CS Project IV"@[3] == 'P',
        "CS Project IV"@[12] == 'V',
        "CS Seminar I"@[1] == 'S',
        "CS Seminar I"@[3] == 'S',
        "CS Seminar II"@[0] == 'C',
        "CS Seminar II"@[3] == 'S',
        "CS Seminar II"@[12] == 'I',
        "CS Seminar III"@[0] == 'C',
        "CS Seminar III"@[3] == 'S',
        "CS Seminar IV"@[0] == 'C',
        "CS Seminar IV"@[3] == 'S',
        "CS Seminar IV"@[12] == 'V',
        "Calculus II"@[1] == 'a',
        "Calculus III"@[1] == 'a',
        "Composition"@[1] == 'o',
        "Computer Architecture"@[0] == 'C',
        "Data Structures"@[1] == 'a',
        "Databases & Security"@[0] == 'D',
        "Differential Equations"@[0] == 'D',
        "Discrete Math I"@[1] == 'i',
        "Discrete Math II"@[0] == 'D',
        "Fitness Activities"@[0] == 'F',
        "General Physics I"@[0] == 'G',
        "HONR Portfolio Cap"@[0] == 'H',
        "Intro to Math Software"@[0] == 'I',
        "Intro to Philosphy"@[0] == 'I',
        "Intro to Philosphy"@[9] == 'P',
        "Intro to Programming"@[0] == 'I',
        "Intro to Sociology"@[0] == 'I',
        "Intro to Sociology"@[9] == 'S',
        "Leetcode Class"@[0] == 'L',
        "Linear Algebra I"@[0] == 'L',
        "Operating Systems"@[0] == 'O',
        "Physical Geology"@[0] == 'P',
        "Pop Music USA"@[0] == 'P',
        "Pop Music USA"@[1] == 'o',
        "Probs & Stats"@[0] == 'P',
        "Probs & Stats"@[1] == 'r',
        "Programming Languages"@[0] == 'P',
        "Set Theory"@[0] == 'S',
{
    reveal_strlit("Intro to Programming");
    reveal_strlit("United States Government");
    reveal_strlit("Calculus II");
    reveal_strlit("Pop Music USA");
    reveal_strlit("Calculus III");
    reveal_strlit("Intro to Math Software");
    reveal_strlit("Data Structures");
    reveal_strlit("Composition");
    reveal_strlit("Concepts of Fitness");
    reveal_strlit("Intro to Sociology");
    reveal_strlit("Linear Algebra I");
    reveal_strlit("Fitness Activities");
    reveal_strlit("General Physics I");
    reveal_strlit("Algorithms");
    reveal_strlit("Set Theory");
    reveal_strlit("Differential Equations");
    reveal_strlit("Discrete Math I");
    reveal_strlit("HONOR Portfolio Development");
    reveal_strlit("Computer Architecture");
    reveal_strlit("Physical Geology");
    reveal_strlit("Intro to Philosphy");
    reveal_strlit("CS Project I");
    reveal_strlit("Databases & Security");
    reveal_strlit("Programming Languages");
    reveal_strlit("CS Seminar I");
    reveal_strlit("Probs & Stats");
    reveal_strlit("CS Project II");
    reveal_strlit("Operating Systems");
    reveal_strlit("SE & Parallel Computing");
    reveal_strlit("Algorithms & Computability");
    reveal_strlit("Leetcode Class");
    reveal_strlit("CS Seminar II");
    reveal_strlit("N/A");
    reveal_strlit("CS Project III");
    reveal_strlit("CS Seminar III");
    reveal_strlit("Discrete Math II");
    reveal_strlit("CS Project IV");
    reveal_strlit("CS Seminar IV");
    reveal_strlit("HONR Portfolio Cap");
}

/// Builds the table of courses, one entry for each course of `course_table`,
/// with no name twice.
#[verifier::rlimit(60)]
pub fn construct_classes_map() -> (r: Vec<Course>)
    ensures
        course_views(r@) == course_table(),
        names_distinct(r@),
        r@.len() == 39,
        total_credits(r@) == 113,
        graded_credits(r@) == 84,
        gpa_points(r@, letter_grades()) == 33468,
        semester_credits(r@, Semester::Fall2020) == 12,
        semester_credits(r@, Semester::Spring2021) == 18,
        semester_credits(r@, Semester::Summer2021) == 9,
        semester_credits(r@, Semester::Fall2021) == 17,
        semester_credits(r@, Semester::Spring2022) == 13,
        semester_credits(r@, Semester::Summer2022) == 3,
        semester_credits(r@, Semester::Fall2022) == 13,
        semester_credits(r@, Semester::Spring2023) == 13,
        semester_credits(r@, Semester::Summer2023) == 0,
        semester_credits(r@, Semester::Fall2023) == 9,
        semester_credits(r@, Semester::Spring2024) == 6,
        grades_on_scale(r@, letter_grades()),
{
    proof {
        lemma_used_grades();
        lemma_course_names();
    }
    let mut t: Vec<Course> = Vec::new();
    assert(course_views(t@) =~= Seq::<CourseView>::empty());
    add_course(&mut t, "Intro to Programming", Semester::Fall2020, 4, Some("A"));
    add_course(&mut t, "United States Government", Semester::Fall2020, 4, Some("A"));
    add_course(&mut t, "Calculus II", Semester::Fall2020, 4, Some("A"));
    add_course(&mut t, "Pop Music USA", Semester::Spring2021, 3, Some("A"));
    add_course(&mut t, "Calculus III", Semester::Spring2021, 4, Some("A+"));
    add_course(&mut t, "Intro to Math Software", Semester::Spring2021, 3, Some("A"));
    add_course(&mut t, "Data Structures", Semester::Spring2021, 4, Some("A"));
    add_course(&mut t, "Composition", Semester::Spring2021, 4, Some("A"));
    add_course(&mut t, "Concepts of Fitness", Semester::Summer2021, 2, Some("A"));
    add_course(&mut t, "Intro to Sociology", Semester::Summer2021, 3, Some("A"));
    add_course(&mut t, "Linear Algebra I", Semester::Summer2021, 4, Some("A"));
    add_course(&mut t, "Fitness Activities", Semester::Fall2021, 1, Some("P"));
    add_course(&mut t, "General Physics I", Semester::Fall2021, 4, Some("A"));
    add_course(&mut t, "Algorithms", Semester::Fall2021, 4, Some("A"));
    add_course(&mut t, "Set Theory", Semester::Fall2021, 4, Some("A"));
    add_course(&mut t, "Differential Equations", Semester::Fall2021, 4, Some("A-"));
    add_course(&mut t, "Discrete Math I", Semester::Spring2022, 4, Some("A"));
    add_course(&mut t, "HONOR Portfolio Development", Semester::Spring2022, 1, Some("A"));
    add_course(&mut t, "Computer Architecture", Semester::Spring2022, 4, Some("A"));
    add_course(&mut t, "Physical Geology", Semester::Spring2022, 4, Some("A"));
    add_course(&mut t, "Intro to Philosphy", Semester::Summer2022, 3, Some("A"));
    add_course(&mut t, "CS Project I", Semester::Fall2022, 4, Some("A"));
    add_course(&mut t, "Databases & Security", Semester::Fall2022, 2, Some("A"));
    add_course(&mut t, "Programming Languages", Semester::Fall2022, 2, Some("A+"));
    add_course(&mut t, "CS Seminar I", Semester::Fall2022, 1, Some("A"));
    add_course(&mut t, "Probs & Stats", Semester::Fall2022, 4, Some("A"));
    add_course(&mut t, "CS Project II", Semester::Spring2023, 4, None);
    add_course(&mut t, "Operating Systems", Semester::Spring2023, 2, None);
    add_course(&mut t, "SE & Parallel Computing", Semester::Spring2023, 2, None);
    add_course(&mut t, "Algorithms & Computability", Semester::Spring2023, 2, None);
    add_course(&mut t, "Leetcode Class", Semester::Spring2023, 2, None);
    add_course(&mut t, "CS Seminar II", Semester::Spring2023, 1, None);
    add_course(&mut t, "N/A", Semester::Summer2023, 0, None);
    add_course(&mut t, "CS Project III", Semester::Fall2023, 4, None);
    add_course(&mut t, "CS Seminar III", Semester::Fall2023, 1, None);
    add_course(&mut t, "Discrete Math II", Semester::Fall2023, 4, None);
    add_course(&mut t, "CS Project IV", Semester::Spring2024, 4, None);
    add_course(&mut t, "CS Seminar IV", Semester::Spring2024, 1, None);
    add_course(&mut t, "HONR Portfolio Cap", Semester::Spring2024, 1, None);
    t
}

} // verus!
