//! The data model: immutable snapshots of the fetched resources and the
//! enriched records the aggregator produces from them.

use vstd::prelude::*;

verus! {

/// The authenticated student's profile; its identifier parameterizes every
/// later request.
pub struct Profile {
    pub id: i32,
    pub name: String,
}

/// The grade snapshot carried by an enrollment. Absent values mean the
/// course is not graded yet; absence is preserved until presentation.
/// The numeric score is on a 0–100 scale.
pub struct Grades {
    pub letter_grade: Option<String>,
    pub number_grade: Option<u32>,
}

/// One course enrollment as fetched: course identifier, creation timestamp
/// (ISO-8601; its first ten characters are the calendar date), and the
/// current grade snapshot.
pub struct Enrollment {
    pub id: i32,
    pub date: String,
    pub grades: Grades,
}

/// One assignment of a course. Both the maximum points and the due
/// timestamp may be absent.
pub struct Assignment {
    pub id: i32,
    pub name: String,
    pub pts: Option<u32>,
    pub due: Option<String>,
}

/// A student's submission for one assignment; the score is absent until
/// the submission is graded.
pub struct Submission {
    pub id: i32,
    pub pts: Option<u32>,
}

/// An assignment paired with the one submission fetched for it.
pub struct AssignmentRecord {
    pub assignment: Assignment,
    pub submission: Submission,
}

/// A fully enriched course: the enrollment's own fields, the derived letter
/// grade, the resolved course name, and the complete assignment list with
/// one submission attached to each assignment.
pub struct CourseRecord {
    pub id: i32,
    pub date: String,
    pub grades: Grades,
    pub letter: String,
    pub course_name: String,
    pub assignments: Vec<AssignmentRecord>,
}

/// The finished report: the student's profile and one enriched record per
/// enrollment, in enrollment order.
pub struct Report {
    pub profile: Profile,
    pub courses: Vec<CourseRecord>,
}

} // verus!
