use lms_report::aggregate::{Aggregator, Phase};
use lms_report::error::FetchError;
use lms_report::model::{Assignment, Enrollment, Grades, Profile, Submission};
use lms_report::present::render_report;
use lms_report::urls::Request;

fn profile(id: i32, name: &str) -> Profile {
    Profile { id, name: name.to_string() }
}

fn enrollment(id: i32, date: &str, score: Option<u32>) -> Enrollment {
    Enrollment {
        id,
        date: date.to_string(),
        grades: Grades { letter_grade: None, number_grade: score },
    }
}

fn assignment(id: i32, name: &str, pts: Option<u32>, due: Option<&str>) -> Assignment {
    Assignment { id, name: name.to_string(), pts, due: due.map(|d| d.to_string()) }
}

#[test]
fn aggregator_one_record_per_enrollment_in_order() {
    let mut agg = Aggregator::new();
    assert_eq!(agg.next_request(), Some(Request::FetchUser));
    agg.give_user(profile(7, "Student"));
    assert_eq!(agg.next_request(), Some(Request::FetchEnrollments { student_id: 7 }));
    agg.give_enrollments(vec![
        enrollment(101, "2023-08-15T12:00:00Z", Some(95)),
        enrollment(202, "2024-01-02T08:30:00Z", None),
    ]);

    // First course: exactly one name fetch, then its (empty) assignment list.
    assert_eq!(agg.next_request(), Some(Request::FetchCourseName { course_id: 101 }));
    agg.give_course_name("Algebra".to_string());
    assert_eq!(
        agg.next_request(),
        Some(Request::FetchAssignmentsPage { course_id: 101, page: 1 })
    );
    agg.give_assignments_page(Vec::new());

    // Second course, in input order.
    assert_eq!(agg.next_request(), Some(Request::FetchCourseName { course_id: 202 }));
    agg.give_course_name("Biology".to_string());
    agg.give_assignments_page(Vec::new());

    assert_eq!(agg.next_request(), None);
    let report = agg.into_report().unwrap();
    assert_eq!(report.courses.len(), 2);
    assert_eq!(report.courses[0].id, 101);
    assert_eq!(report.courses[0].course_name, "Algebra");
    assert_eq!(report.courses[0].letter, "A");
    assert_eq!(report.courses[1].id, 202);
    assert_eq!(report.courses[1].course_name, "Biology");
    assert_eq!(report.courses[1].letter, "Not Graded");
}

#[test]
fn aggregator_empty_enrollment_list_finishes_at_once() {
    let mut agg = Aggregator::new();
    agg.give_user(profile(1, "S"));
    agg.give_enrollments(Vec::new());
    assert_eq!(agg.next_request(), None);
    let report = agg.into_report().unwrap();
    assert_eq!(report.courses.len(), 0);
    assert_eq!(report.profile.id, 1);
}

#[test]
fn aggregator_fetches_one_submission_per_assignment() {
    let mut agg = Aggregator::new();
    agg.give_user(profile(9, "S"));
    agg.give_enrollments(vec![enrollment(5, "2023-08-15T12:00:00Z", Some(72))]);
    agg.give_course_name("History".to_string());
    agg.give_assignments_page(vec![
        assignment(41, "Essay", Some(50), Some("2023-09-01T00:00:00Z")),
        assignment(42, "Quiz", None, None),
    ]);
    agg.give_assignments_page(Vec::new());

    assert_eq!(
        agg.next_request(),
        Some(Request::FetchSubmission { course_id: 5, assignment_id: 41, student_id: 9 })
    );
    agg.give_submission(Submission { id: 410, pts: Some(48) });
    assert_eq!(
        agg.next_request(),
        Some(Request::FetchSubmission { course_id: 5, assignment_id: 42, student_id: 9 })
    );
    agg.give_submission(Submission { id: 420, pts: None });

    let report = agg.into_report().unwrap();
    assert_eq!(report.courses.len(), 1);
    let course = &report.courses[0];
    assert_eq!(course.assignments.len(), 2);
    assert_eq!(course.assignments[0].assignment.id, 41);
    assert_eq!(course.assignments[0].submission.id, 410);
    assert_eq!(course.assignments[1].assignment.id, 42);
    assert_eq!(course.assignments[1].submission.pts, None);
}

#[test]
fn fetch_failure_aborts_the_whole_run() {
    let mut agg = Aggregator::new();
    agg.give_user(profile(9, "S"));
    agg.give_enrollments(vec![
        enrollment(5, "2023-08-15T12:00:00Z", Some(72)),
        enrollment(6, "2023-08-16T12:00:00Z", Some(88)),
    ]);
    agg.give_course_name("History".to_string());
    agg.give_assignments_page(vec![assignment(41, "Essay", Some(50), None)]);
    agg.give_assignments_page(Vec::new());

    // The submission fetch comes back with a non-success status: the run
    // aborts, nothing more is requested, and no report can be taken.
    agg.fail(FetchError::HttpStatus { code: 500 });
    assert_eq!(agg.next_request(), None);
    assert_eq!(agg.phase, Phase::Failed);
    match agg.into_report() {
        Err(e) => assert_eq!(e, FetchError::HttpStatus { code: 500 }),
        Ok(_) => panic!("a failed run must not yield a report"),
    }
}

#[test]
fn end_to_end_single_course_report() {
    let mut agg = Aggregator::new();
    agg.give_user(profile(33, "Alex Doe"));
    agg.give_enrollments(vec![enrollment(12, "2023-08-15T12:00:00Z", Some(85))]);
    agg.give_course_name("Chemistry".to_string());
    agg.give_assignments_page(vec![assignment(77, "Lab", Some(100), None)]);
    agg.give_assignments_page(Vec::new());
    agg.give_submission(Submission { id: 770, pts: Some(85) });

    let report = agg.into_report().unwrap();
    let lines = render_report(&report);
    assert_eq!(lines.len(), 4);
    assert_eq!(lines[0], "Student ID: 33, Name: Alex Doe");
    assert_eq!(
        lines[1],
        "ID: 12, Course: Chemistry, Started: 2023-08-15, Grade: B, Overall Score: 85"
    );
    assert_eq!(lines[2], "Lab Due date: No Due Date");
    assert!(lines[2].ends_with("Due date: No Due Date"));
    assert_eq!(lines[3], "ID: 770 Total: 85 / 100");
}

#[test]
fn page_bound_exceeded_fails_the_run() {
    let mut agg = Aggregator::new();
    agg.give_user(profile(9, "S"));
    agg.give_enrollments(vec![enrollment(5, "2023-08-15T12:00:00Z", None)]);
    agg.give_course_name("History".to_string());
    while agg.phase == Phase::AwaitAssignments {
        agg.give_assignments_page(vec![assignment(1, "A", None, None)]);
    }
    assert_eq!(agg.phase, Phase::Failed);
    match agg.into_report() {
        Err(e) => assert_eq!(e, FetchError::PageLimitExceeded),
        Ok(_) => panic!("an endless listing must fail the run"),
    }
}
