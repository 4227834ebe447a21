//! A grade-point-average summary over a table of academic courses.
//!
//! Grade points are held in hundredths of a point (an "A-" is 367), so every
//! quantity the summary computes is an exact integer.

pub mod semester;
pub mod grade;
pub mod course;
pub mod summary;
