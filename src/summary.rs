use vstd::prelude::*;
use crate::course::{Course, course_grade};
use crate::grade::{GradeTable, grades_in_scale, MAX_GRADE_POINTS};
use crate::semester::{Semester, SEMESTER_COUNT};

verus! {

/// The largest number of courses a summary is computed over; it keeps every
/// sum within a `u64`.
pub const MAX_COURSES: usize = 0xffff_ffff;

/// The most grade points, in hundredths, that one course can add.
const COURSE_POINTS_BOUND: u64 = 102000;

/// The symbol of a passed course, which carries no grade points.
pub open spec fn pass_symbol() -> Seq<char> {
    "P"@
}

/// Whether the course has a posted grade other than a pass.
pub open spec fn is_graded(c: Course) -> bool {
    match course_grade(c) {
        Some(g) => g != pass_symbol(),
        None => false,
    }
}

/// The grade points a course adds, in hundredths: its credits times the value
/// of its grade, or nothing where it is not graded or its grade is unknown.
pub open spec fn course_points(c: Course, grades: Map<Seq<char>, nat>) -> nat {
    if is_graded(c) && grades.contains_key(course_grade(c)->0) {
        c.credits as nat * grades[course_grade(c)->0]
    } else {
        0
    }
}

/// The credits of all courses.
pub open spec fn total_credits(cs: Seq<Course>) -> nat
    decreases cs.len(),
{
    if cs.len() == 0 {
        0
    } else {
        total_credits(cs.drop_last()) + cs.last().credits as nat
    }
}

/// The credits of the courses taken in term `s`.
pub open spec fn semester_credits(cs: Seq<Course>, s: Semester) -> nat
    decreases cs.len(),
{
    if cs.len() == 0 {
        0
    } else {
        semester_credits(cs.drop_last(), s) + if cs.last().semester == s {
            cs.last().credits as nat
        } else {
            0
        }
    }
}

/// The credits of the graded courses.
pub open spec fn graded_credits(cs: Seq<Course>) -> nat
    decreases cs.len(),
{
    if cs.len() == 0 {
        0
    } else {
        graded_credits(cs.drop_last()) + if is_graded(cs.last()) {
            cs.last().credits as nat
        } else {
            0
        }
    }
}

/// The grade points of all courses, in hundredths.
pub open spec fn gpa_points(cs: Seq<Course>, grades: Map<Seq<char>, nat>) -> nat
    decreases cs.len(),
{
    if cs.len() == 0 {
        0
    } else {
        gpa_points(cs.drop_last(), grades) + course_points(cs.last(), grades)
    }
}

/// The credits of the terms at the first `n` positions of the enumeration.
pub open spec fn semesters_sum(cs: Seq<Course>, n: nat) -> nat
    decreases n,
{
    if n == 0 {
        0
    } else {
        semesters_sum(cs, (n - 1) as nat) + semester_credits(cs, Semester::spec_from_index((n - 1) as nat))
    }
}

/// The sum of a sequence of counts.
pub open spec fn counts_sum(d: Seq<u64>) -> nat
    decreases d.len(),
{
    if d.len() == 0 {
        0
    } else {
        counts_sum(d.drop_last()) + d.last() as nat
    }
}

/// The totals of a table of courses.
pub struct Summary {
    /// Credits of all courses, graded or not.
    pub total_credits: u64,
    /// Credits of the courses with a posted grade other than a pass.
    pub graded_credits: u64,
    /// Credits times grade value over the graded courses, in hundredths.
    pub gpa_points: u64,
    /// Credits per term, in the enumeration order of the terms.
    pub distribution: Vec<u64>,
}

/// Computes the totals of `courses` against the grade table `grades`.
///
/// A graded course whose symbol the table does not hold still counts its
/// credits as graded, and adds no grade points.
pub fn summarize(courses: &[Course], grades: &GradeTable) -> (r: Summary)
    requires
        courses@.len() <= MAX_COURSES,
        grades_in_scale(grades@),
    ensures
        r.total_credits == total_credits(courses@),
        r.graded_credits == graded_credits(courses@),
        r.gpa_points == gpa_points(courses@, grades@),
        r.distribution@.len() == SEMESTER_COUNT,
        forall|i: int|
            0 <= i < SEMESTER_COUNT ==> r.distribution@[i] == semester_credits(
                courses@,
                Semester::spec_from_index(i as nat),
            ),
        counts_sum(r.distribution@) == r.total_credits,
{
    let ghost cs = courses@;
    let pass = "P".to_owned();
    let mut total: u64 = 0;
    let mut graded: u64 = 0;
    let mut points: u64 = 0;
    let mut distribution: Vec<u64> = Vec::new();
    let mut k: usize = 0;
    while k < SEMESTER_COUNT
        invariant
            k <= SEMESTER_COUNT,
            distribution@.len() == k,
            forall|j: int| 0 <= j < k ==> distribution@[j] == 0,
        decreases SEMESTER_COUNT - k,
    {
        distribution.push(0);
        k = k + 1;
    }
    let mut i: usize = 0;
    while i < courses.len()
        invariant
            cs == courses@,
            pass@ == pass_symbol(),
            cs.len() <= MAX_COURSES,
            grades_in_scale(grades@),
            i <= cs.len(),
            total == total_credits(cs.take(i as int)),
            graded == graded_credits(cs.take(i as int)),
            points == gpa_points(cs.take(i as int), grades@),
            total <= 255 * i,
            graded <= total,
            points <= COURSE_POINTS_BOUND * i,
            distribution@.len() == SEMESTER_COUNT,
            forall|j: int|
                0 <= j < SEMESTER_COUNT ==> distribution@[j] == semester_credits(
                    cs.take(i as int),
                    Semester::spec_from_index(j as nat),
                ) && distribution@[j] <= total,
        decreases cs.len() - i,
    {
        let c = &courses[i];
        let ghost prefix = cs.take(i as int);
        let ghost next = cs.take(i as int + 1);
        assert(next.drop_last() =~= prefix);
        assert(next.last() == *c);
        let credits = c.credits as u64;
        total = total + credits;
        let s = c.semester.index();
        let d = distribution[s] + credits;
        distribution.set(s, d);
        assert forall|j: int| 0 <= j < SEMESTER_COUNT implies distribution@[j] == semester_credits(
            next,
            Semester::spec_from_index(j as nat),
        ) by {
            Semester::lemma_from_index_round_trip(j as nat);
            c.semester.lemma_index_round_trip();
        }
        match &c.grade {
            Some(g) => {
                if !(*g == pass) {
                    graded = graded + credits;
                    match grades.lookup(g) {
                        Some(v) => {
                            assert(v <= MAX_GRADE_POINTS);
                            assert(credits * (v as u64) <= COURSE_POINTS_BOUND) by (nonlinear_arith)
                                requires
                                    credits <= 255,
                                    v <= MAX_GRADE_POINTS,
                            ;
                            points = points + credits * (v as u64);
                        },
                        None => {},
                    }
                }
            },
            None => {},
        }
        i = i + 1;
    }
    assert(cs.take(cs.len() as int) =~= cs);
    proof {
        lemma_counts_sum_semesters(distribution@, cs, SEMESTER_COUNT as nat);
        assert(distribution@.take(SEMESTER_COUNT as int) =~= distribution@);
        lemma_distribution_total(cs);
    }
    Summary { total_credits: total, graded_credits: graded, gpa_points: points, distribution }
}

impl Summary {
    /// The grade-point average in hundredths, rounded down; `None` where no
    /// course is graded, so that there is nothing to divide by.
    pub fn gpa_hundredths(&self) -> (r: Option<u64>)
        ensures
            r == if self.graded_credits == 0 {
                None
            } else {
                Some((self.gpa_points / self.graded_credits) as u64)
            },
    {
        if self.graded_credits == 0 {
            None
        } else {
            Some(self.gpa_points / self.graded_credits)
        }
    }
}

proof fn lemma_counts_sum_semesters(d: Seq<u64>, cs: Seq<Course>, n: nat)
    requires
        n <= d.len(),
        n <= SEMESTER_COUNT,
        forall|j: int| 0 <= j < n ==> d[j] == semester_credits(cs, Semester::spec_from_index(j as nat)),
    ensures
        counts_sum(d.take(n as int)) == semesters_sum(cs, n),
    decreases n,
{
    if n > 0 {
        lemma_counts_sum_semesters(d, cs, (n - 1) as nat);
        assert(d.take(n as int).drop_last() =~= d.take(n - 1));
    }
}

proof fn lemma_semesters_sum_step(cs: Seq<Course>, n: nat)
    requires
        cs.len() > 0,
        n <= SEMESTER_COUNT,
    ensures
        semesters_sum(cs, n) == semesters_sum(cs.drop_last(), n) + if cs.last().semester.spec_index() < n {
            cs.last().credits as nat
        } else {
            0
        },
    decreases n,
{
    if n > 0 {
        lemma_semesters_sum_step(cs, (n - 1) as nat);
        Semester::lemma_from_index_round_trip((n - 1) as nat);
        cs.last().semester.lemma_index_round_trip();
    }
}

/// The credits of all terms together are the credits of all courses.
pub proof fn lemma_distribution_total(cs: Seq<Course>)
    ensures
        semesters_sum(cs, SEMESTER_COUNT as nat) == total_credits(cs),
    decreases cs.len(),
{
    if cs.len() > 0 {
        lemma_distribution_total(cs.drop_last());
        lemma_semesters_sum_step(cs, SEMESTER_COUNT as nat);
        cs.last().semester.lemma_index_round_trip();
    } else {
        lemma_semesters_sum_empty(cs, SEMESTER_COUNT as nat);
    }
}

proof fn lemma_semesters_sum_empty(cs: Seq<Course>, n: nat)
    requires
        cs.len() == 0,
    ensures
        semesters_sum(cs, n) == 0,
    decreases n,
{
    if n > 0 {
        lemma_semesters_sum_empty(cs, (n - 1) as nat);
    }
}

proof fn lemma_sums_concat(a: Seq<Course>, b: Seq<Course>, grades: Map<Seq<char>, nat>)
    ensures
        total_credits(a + b) == total_credits(a) + total_credits(b),
        graded_credits(a + b) == graded_credits(a) + graded_credits(b),
        gpa_points(a + b, grades) == gpa_points(a, grades) + gpa_points(b, grades),
    decreases b.len(),
{
    if b.len() == 0 {
        assert(a + b =~= a);
    } else {
        lemma_sums_concat(a, b.drop_last(), grades);
        assert((a + b).drop_last() =~= a + b.drop_last());
        assert((a + b).last() == b.last());
    }
}

/// Splits the sums over `cs` into those without the course at `i` and what
/// that course adds.
proof fn lemma_sums_remove(cs: Seq<Course>, i: int, grades: Map<Seq<char>, nat>)
    requires
        0 <= i < cs.len(),
    ensures
        total_credits(cs) == total_credits(cs.remove(i)) + cs[i].credits,
        graded_credits(cs) == graded_credits(cs.remove(i)) + if is_graded(cs[i]) {
            cs[i].credits as nat
        } else {
            0
        },
        gpa_points(cs, grades) == gpa_points(cs.remove(i), grades) + course_points(cs[i], grades),
{
    let a = cs.take(i);
    let c = seq![cs[i]];
    let b = cs.skip(i + 1);
    assert(cs =~= a + c + b);
    assert(cs.remove(i) =~= a + b);
    lemma_sums_concat(a + c, b, grades);
    lemma_sums_concat(a, c, grades);
    lemma_sums_concat(a, b, grades);
    assert(c.drop_last() =~= Seq::<Course>::empty());
    assert(total_credits(c.drop_last()) == 0);
    assert(graded_credits(c.drop_last()) == 0);
    assert(gpa_points(c.drop_last(), grades) == 0);
}

/// Every course adds its credits to the total credits, whether it is graded,
/// passed or not yet graded.
pub proof fn lemma_every_course_counts(cs: Seq<Course>, i: int)
    requires
        0 <= i < cs.len(),
    ensures
        total_credits(cs) == total_credits(cs.remove(i)) + cs[i].credits,
{
    lemma_sums_remove(cs, i, Map::empty());
}

/// A course with no grade yet, or with a pass, adds neither graded credits nor
/// grade points.
pub proof fn lemma_ungraded_course_adds_nothing(cs: Seq<Course>, i: int, grades: Map<Seq<char>, nat>)
    requires
        0 <= i < cs.len(),
        course_grade(cs[i]) is None || course_grade(cs[i]) == Some(pass_symbol()),
    ensures
        graded_credits(cs) == graded_credits(cs.remove(i)),
        gpa_points(cs, grades) == gpa_points(cs.remove(i), grades),
{
    lemma_sums_remove(cs, i, grades);
}

/// A course whose grade symbol the grade table does not hold adds its credits
/// to the graded credits and adds no grade points.
pub proof fn lemma_unknown_grade_adds_credits_only(
    cs: Seq<Course>,
    i: int,
    grades: Map<Seq<char>, nat>,
)
    requires
        0 <= i < cs.len(),
        course_grade(cs[i]) is Some,
        course_grade(cs[i])->0 != pass_symbol(),
        !grades.contains_key(course_grade(cs[i])->0),
    ensures
        graded_credits(cs) == graded_credits(cs.remove(i)) + cs[i].credits,
        gpa_points(cs, grades) == gpa_points(cs.remove(i), grades),
{
    lemma_sums_remove(cs, i, grades);
}

} // verus!
