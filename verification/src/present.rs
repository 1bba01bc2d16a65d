//! The presenter: pure formatting of the aggregated records into the
//! terminal report lines.

use vstd::prelude::*;
use vstd::string::*;
use crate::model::{Profile, CourseRecord, Assignment, AssignmentRecord, Report};
use crate::numfmt::{dec_rep, int_rep, u32_to_string, i32_to_string};

verus! {

/// The letter grade derived from an optional numeric score, total over
/// `Option<u32>`: 90 and above is an A, 80 a B, 70 a C, 60 a D, any lower
/// present score an F, and a missing score reads "Not Graded". The lower
/// bounds are inclusive.
pub open spec fn letter_of(score: Option<u32>) -> Seq<char> {
    match score {
        None => "Not Graded"@,
        Some(s) => if s >= 90 {
            "A"@
        } else if s >= 80 {
            "B"@
        } else if s >= 70 {
            "C"@
        } else if s >= 60 {
            "D"@
        } else {
            "F"@
        },
    }
}

/// Derives the letter grade for a course's optional numeric score.
pub fn letter_grade(score: Option<u32>) -> (r: String)
    ensures
        r@ == letter_of(score),
{
    match score {
        None => String::from_str("Not Graded"),
        Some(s) => {
            if s >= 90 {
                String::from_str("A")
            } else if s >= 80 {
                String::from_str("B")
            } else if s >= 70 {
                String::from_str("C")
            } else if s >= 60 {
                String::from_str("D")
            } else {
                String::from_str("F")
            }
        },
    }
}

/// Truncates an ISO-8601 timestamp to its ten-character calendar-date
/// prefix.
pub fn truncate_date(ts: &str) -> (r: String)
    requires
        ts@.len() >= 10,
    ensures
        r@ == ts@.subrange(0, 10),
{
    let s = ts.substring_char(0, 10);
    String::from_str(s)
}

/// What a due timestamp renders as: its date prefix, or the sentinel for a
/// missing due date.
pub open spec fn due_display_of(due: Option<String>) -> Seq<char> {
    match due {
        None => "No Due Date"@,
        Some(d) => d@.subrange(0, 10),
    }
}

/// Renders an assignment's optional due timestamp.
pub fn due_display(due: &Option<String>) -> (r: String)
    requires
        due matches Some(d) ==> d@.len() >= 10,
    ensures
        r@ == due_display_of(*due),
{
    match due {
        None => String::from_str("No Due Date"),
        Some(d) => truncate_date(d.as_str()),
    }
}

/// What an optional achieved score renders as: the score in decimal, or
/// the sentinel for ungraded work.
pub open spec fn score_display_of(pts: Option<u32>) -> Seq<char> {
    match pts {
        None => "Not Graded"@,
        Some(p) => dec_rep(p as int),
    }
}

/// Renders an optional achieved score.
pub fn score_display(pts: Option<u32>) -> (r: String)
    ensures
        r@ == score_display_of(pts),
{
    match pts {
        None => String::from_str("Not Graded"),
        Some(p) => u32_to_string(p),
    }
}

/// What an optional point value renders as where a number is always shown:
/// the value, or zero when absent.
pub open spec fn points_display_of(pts: Option<u32>) -> Seq<char> {
    match pts {
        None => dec_rep(0),
        Some(p) => dec_rep(p as int),
    }
}

/// Renders an optional point value, defaulting a missing one to zero.
pub fn points_display(pts: Option<u32>) -> (r: String)
    ensures
        r@ == points_display_of(pts),
{
    match pts {
        None => u32_to_string(0),
        Some(p) => u32_to_string(p),
    }
}

/// The report's heading line with the student's identity.
pub open spec fn student_line_of(p: Profile) -> Seq<char> {
    "Student ID: "@ + int_rep(p.id as int) + ", Name: "@ + p.name@
}

/// Renders the student heading line.
pub fn render_student_line(p: &Profile) -> (r: String)
    ensures
        r@ == student_line_of(*p),
{
    let mut r = String::from_str("Student ID: ");
    let id = i32_to_string(p.id);
    r.append(id.as_str());
    r.append(", Name: ");
    r.append(p.name.as_str());
    proof {
        assert(r@ =~= student_line_of(*p));
    }
    r
}

/// One course's heading line: identifier, resolved name, start date,
/// derived letter grade, and the overall score (zero when ungraded).
pub open spec fn course_line_of(c: CourseRecord) -> Seq<char> {
    "ID: "@ + int_rep(c.id as int) + ", Course: "@ + c.course_name@ + ", Started: "@
        + c.date@.subrange(0, 10) + ", Grade: "@ + c.letter@ + ", Overall Score: "@
        + points_display_of(c.grades.number_grade)
}

/// Renders one course's heading line.
pub fn render_course_line(c: &CourseRecord) -> (r: String)
    requires
        c.date@.len() >= 10,
    ensures
        r@ == course_line_of(*c),
{
    let mut r = String::from_str("ID: ");
    let id = i32_to_string(c.id);
    r.append(id.as_str());
    r.append(", Course: ");
    r.append(c.course_name.as_str());
    r.append(", Started: ");
    let date = truncate_date(c.date.as_str());
    r.append(date.as_str());
    r.append(", Grade: ");
    r.append(c.letter.as_str());
    r.append(", Overall Score: ");
    let score = points_display(c.grades.number_grade);
    r.append(score.as_str());
    proof {
        assert(r@ =~= course_line_of(*c));
    }
    r
}

/// One assignment's line: its name and its due date or the missing-date
/// sentinel.
pub open spec fn assignment_line_of(a: Assignment) -> Seq<char> {
    a.name@ + " Due date: "@ + due_display_of(a.due)
}

/// Renders one assignment's line.
pub fn render_assignment_line(a: &Assignment) -> (r: String)
    requires
        a.due matches Some(d) ==> d@.len() >= 10,
    ensures
        r@ == assignment_line_of(*a),
{
    let mut r = a.name.clone();
    r.append(" Due date: ");
    let due = due_display(&a.due);
    r.append(due.as_str());
    proof {
        assert(r@ =~= assignment_line_of(*a));
    }
    r
}

/// One submission's line: the submission identifier, the achieved score or
/// the ungraded sentinel, and the assignment's maximum points (zero when
/// the assignment states none).
pub open spec fn submission_line_of(ar: AssignmentRecord) -> Seq<char> {
    "ID: "@ + int_rep(ar.submission.id as int) + " Total: "@
        + score_display_of(ar.submission.pts) + " / "@ + points_display_of(ar.assignment.pts)
}

/// Renders one submission's line.
pub fn render_submission_line(ar: &AssignmentRecord) -> (r: String)
    ensures
        r@ == submission_line_of(*ar),
{
    let mut r = String::from_str("ID: ");
    let id = i32_to_string(ar.submission.id);
    r.append(id.as_str());
    r.append(" Total: ");
    let score = score_display(ar.submission.pts);
    r.append(score.as_str());
    r.append(" / ");
    let pts = points_display(ar.assignment.pts);
    r.append(pts.as_str());
    proof {
        assert(r@ =~= submission_line_of(*ar));
    }
    r
}


/// The views of a sequence of rendered lines.
pub open spec fn views_of(v: Seq<String>) -> Seq<Seq<char>> {
    v.map_values(|s: String| s@)
}

/// The two lines of one assignment record: the assignment line, then the
/// submission line.
pub open spec fn assignment_lines_of(ars: Seq<AssignmentRecord>) -> Seq<Seq<char>>
    decreases ars.len(),
{
    if ars.len() == 0 {
        Seq::empty()
    } else {
        seq![assignment_line_of(ars[0].assignment), submission_line_of(ars[0])]
            + assignment_lines_of(ars.drop_first())
    }
}

/// The lines of one course: its heading line, then the lines of its
/// assignment records in listing order.
pub open spec fn course_lines_of(c: CourseRecord) -> Seq<Seq<char>> {
    seq![course_line_of(c)] + assignment_lines_of(c.assignments@)
}

/// The lines of a sequence of courses, in order.
pub open spec fn courses_lines_of(cs: Seq<CourseRecord>) -> Seq<Seq<char>>
    decreases cs.len(),
{
    if cs.len() == 0 {
        Seq::empty()
    } else {
        course_lines_of(cs[0]) + courses_lines_of(cs.drop_first())
    }
}

/// The whole report: the student heading line, then each course's lines in
/// enrollment order.
pub open spec fn report_lines_of(r: Report) -> Seq<Seq<char>> {
    seq![student_line_of(r.profile)] + courses_lines_of(r.courses@)
}

/// An assignment renders only when a present due timestamp is long enough
/// to carry its ten-character date prefix.
pub open spec fn assignment_renderable(a: Assignment) -> bool {
    a.due matches Some(d) ==> d@.len() >= 10
}

/// A course record renders only when its start timestamp and all its
/// assignments' due timestamps carry their date prefixes.
pub open spec fn course_renderable(c: CourseRecord) -> bool {
    &&& c.date@.len() >= 10
    &&& forall|i: int|
        0 <= i < c.assignments@.len() ==> assignment_renderable(
            (#[trigger] c.assignments@[i]).assignment,
        )
}

/// A report renders only when every course record does.
pub open spec fn report_renderable(r: Report) -> bool {
    forall|i: int| 0 <= i < r.courses@.len() ==> course_renderable(#[trigger] r.courses@[i])
}

/// Appending one assignment record appends exactly its two lines.
pub proof fn lemma_assignment_lines_snoc(ars: Seq<AssignmentRecord>, x: AssignmentRecord)
    ensures
        assignment_lines_of(ars.push(x)) == assignment_lines_of(ars) + seq![
            assignment_line_of(x.assignment),
            submission_line_of(x),
        ],
    decreases ars.len(),
{
    let p = ars.push(x);
    if ars.len() == 0 {
        assert(p[0] == x);
        assert(p.drop_first() =~= Seq::<AssignmentRecord>::empty());
        assert(assignment_lines_of(p.drop_first()) =~~= Seq::<Seq<char>>::empty());
        assert(assignment_lines_of(ars) =~~= Seq::<Seq<char>>::empty());
        assert(assignment_lines_of(p) =~~= assignment_lines_of(ars) + seq![
            assignment_line_of(x.assignment),
            submission_line_of(x),
        ]);
    } else {
        assert(p[0] == ars[0]);
        assert(p.drop_first() =~= ars.drop_first().push(x));
        lemma_assignment_lines_snoc(ars.drop_first(), x);
        assert(assignment_lines_of(p) =~~= assignment_lines_of(ars) + seq![
            assignment_line_of(x.assignment),
            submission_line_of(x),
        ]);
    }
}

/// Appending one course appends exactly its lines.
pub proof fn lemma_courses_lines_snoc(cs: Seq<CourseRecord>, x: CourseRecord)
    ensures
        courses_lines_of(cs.push(x)) == courses_lines_of(cs) + course_lines_of(x),
    decreases cs.len(),
{
    let p = cs.push(x);
    if cs.len() == 0 {
        assert(p[0] == x);
        assert(p.drop_first() =~= Seq::<CourseRecord>::empty());
        assert(courses_lines_of(p.drop_first()) =~~= Seq::<Seq<char>>::empty());
        assert(courses_lines_of(cs) =~~= Seq::<Seq<char>>::empty());
        assert(courses_lines_of(p) =~~= courses_lines_of(cs) + course_lines_of(x));
    } else {
        assert(p[0] == cs[0]);
        assert(p.drop_first() =~= cs.drop_first().push(x));
        lemma_courses_lines_snoc(cs.drop_first(), x);
        assert(courses_lines_of(p) =~~= courses_lines_of(cs) + course_lines_of(x));
    }
}

/// Renders the whole report, one string per terminal line, exactly as
/// `report_lines_of` lays it out.
pub fn render_report(r: &Report) -> (out: Vec<String>)
    requires
        report_renderable(*r),
    ensures
        views_of(out@) == report_lines_of(*r),
{
    let mut out: Vec<String> = Vec::new();
    let heading = render_student_line(&r.profile);
    out.push(heading);
    proof {
        assert(views_of(out@) =~~= seq![student_line_of(r.profile)] + courses_lines_of(
            r.courses@.take(0),
        ));
    }
    let n = r.courses.len();
    let mut i: usize = 0;
    while i < n
        invariant
            i <= n,
            n == r.courses@.len(),
            report_renderable(*r),
            views_of(out@) =~~= seq![student_line_of(r.profile)] + courses_lines_of(
                r.courses@.take(i as int),
            ),
        decreases n - i,
    {
        let c = &r.courses[i];
        proof {
            assert(course_renderable(r.courses@[i as int]));
        }
        let course_line = render_course_line(c);
        out.push(course_line);
        let m = c.assignments.len();
        let mut j: usize = 0;
        proof {
            assert(c.assignments@.take(0) =~= Seq::<AssignmentRecord>::empty());
            assert(views_of(out@) =~~= seq![student_line_of(r.profile)] + courses_lines_of(
                r.courses@.take(i as int),
            ) + seq![course_line_of(r.courses@[i as int])] + assignment_lines_of(
                c.assignments@.take(0),
            ));
        }
        while j < m
            invariant
                j <= m,
                i < n,
                n == r.courses@.len(),
                m == c.assignments@.len(),
                c == &r.courses@[i as int],
                report_renderable(*r),
                views_of(out@) =~~= seq![student_line_of(r.profile)] + courses_lines_of(
                    r.courses@.take(i as int),
                ) + seq![course_line_of(r.courses@[i as int])] + assignment_lines_of(
                    c.assignments@.take(j as int),
                ),
            decreases m - j,
        {
            let ar = &c.assignments[j];
            proof {
                assert(course_renderable(r.courses@[i as int]));
                assert(assignment_renderable(c.assignments@[j as int].assignment));
            }
            let ghost pre = out@;
            let a_line = render_assignment_line(&ar.assignment);
            let ghost av = a_line@;
            out.push(a_line);
            let s_line = render_submission_line(ar);
            let ghost sv = s_line@;
            out.push(s_line);
            proof {
                assert(views_of(out@) =~~= views_of(pre) + seq![av, sv]);
                lemma_assignment_lines_snoc(
                    c.assignments@.take(j as int),
                    c.assignments@[j as int],
                );
                assert(c.assignments@.take(j as int).push(c.assignments@[j as int]) =~= c
                    .assignments@.take(j as int + 1));
                assert(assignment_lines_of(c.assignments@.take(j as int + 1)) =~~=
                    assignment_lines_of(c.assignments@.take(j as int)) + seq![av, sv]);
                assert(views_of(out@) =~~= seq![student_line_of(r.profile)] + courses_lines_of(
                    r.courses@.take(i as int),
                ) + seq![course_line_of(r.courses@[i as int])] + assignment_lines_of(
                    c.assignments@.take(j as int + 1),
                ));
            }
            j = j + 1;
        }
        proof {
            assert(c.assignments@.take(m as int) =~= c.assignments@);
            lemma_courses_lines_snoc(r.courses@.take(i as int), r.courses@[i as int]);
            assert(r.courses@.take(i as int).push(r.courses@[i as int]) =~= r.courses@.take(
                i as int + 1,
            ));
            assert(views_of(out@) =~~= seq![student_line_of(r.profile)] + courses_lines_of(
                r.courses@.take(i as int + 1),
            ));
        }
        i = i + 1;
    }
    proof {
        assert(r.courses@.take(n as int) =~= r.courses@);
        assert(views_of(out@) =~~= report_lines_of(*r));
    }
    out
}

} // verus!
