use vstd::prelude::*;

verus! {

/// The number of academic terms a course can be taken in.
pub const SEMESTER_COUNT: usize = 11;

/// An academic term, in the order in which the terms follow one another.
#[derive(Clone, Copy, Debug, PartialEq, Eq, Structural)]
pub enum Semester {
    Fall2020,
    Spring2021,
    Summer2021,
    Fall2021,
    Spring2022,
    Summer2022,
    Fall2022,
    Spring2023,
    Summer2023,
    Fall2023,
    Spring2024,
}

impl Semester {
    /// The position of the term in the enumeration order.
    pub open spec fn spec_index(self) -> nat {
        match self {
            Semester::Fall2020 => 0,
            Semester::Spring2021 => 1,
            Semester::Summer2021 => 2,
            Semester::Fall2021 => 3,
            Semester::Spring2022 => 4,
            Semester::Summer2022 => 5,
            Semester::Fall2022 => 6,
            Semester::Spring2023 => 7,
            Semester::Summer2023 => 8,
            Semester::Fall2023 => 9,
            Semester::Spring2024 => 10,
        }
    }

    /// The term at position `i` of the enumeration order.
    pub open spec fn spec_from_index(i: nat) -> Semester
        recommends
            i < SEMESTER_COUNT,
    {
        if i == 0 {
            Semester::Fall2020
        } else if i == 1 {
            Semester::Spring2021
        } else if i == 2 {
            Semester::Summer2021
        } else if i == 3 {
            Semester::Fall2021
        } else if i == 4 {
            Semester::Spring2022
        } else if i == 5 {
            Semester::Summer2022
        } else if i == 6 {
            Semester::Fall2022
        } else if i == 7 {
            Semester::Spring2023
        } else if i == 8 {
            Semester::Summer2023
        } else if i == 9 {
            Semester::Fall2023
        } else {
            Semester::Spring2024
        }
    }

    /// Positions and terms correspond one to one.
    pub proof fn lemma_index_round_trip(self)
        ensures
            self.spec_index() < SEMESTER_COUNT,
            Semester::spec_from_index(self.spec_index()) == self,
    {
    }

    /// Positions and terms correspond one to one.
    pub proof fn lemma_from_index_round_trip(i: nat)
        requires
            i < SEMESTER_COUNT,
        ensures
            Semester::spec_from_index(i).spec_index() == i,
    {
    }

    /// The position of the term in the enumeration order, used to index a
    /// per-term distribution.
    pub fn index(self) -> (r: usize)
        ensures
            r == self.spec_index(),
            r < SEMESTER_COUNT,
    {
        match self {
            Semester::Fall2020 => 0,
            Semester::Spring2021 => 1,
            Semester::Summer2021 => 2,
            Semester::Fall2021 => 3,
            Semester::Spring2022 => 4,
            Semester::Summer2022 => 5,
            Semester::Fall2022 => 6,
            Semester::Spring2023 => 7,
            Semester::Summer2023 => 8,
            Semester::Fall2023 => 9,
            Semester::Spring2024 => 10,
        }
    }
}

} // verus!
