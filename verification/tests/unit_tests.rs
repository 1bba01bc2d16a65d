use lms_report::config::{core_config, CoreConfig};
use lms_report::error::FetchError;
use lms_report::model::{Assignment, AssignmentRecord, Submission};
use lms_report::numfmt::{i32_to_string, u32_to_string};
use lms_report::paginate::{PagStatus, Paginator, MAX_PAGES};
use lms_report::present::{
    due_display, letter_grade, points_display, render_assignment_line, render_submission_line,
    score_display, truncate_date,
};
use lms_report::urls::{
    assignments_page_url, course_info_url, enrollments_url, profile_url, request_url,
    submission_url, Request,
};

fn assignment(id: i32, name: &str, pts: Option<u32>, due: Option<&str>) -> Assignment {
    Assignment { id, name: name.to_string(), pts, due: due.map(|d| d.to_string()) }
}

#[test]
fn paginator_concatenates_pages_until_first_empty() {
    let mut pag = Paginator::new(5);
    pag.feed(vec![assignment(1, "A", None, None), assignment(2, "B", None, None)]);
    assert_eq!(pag.status, PagStatus::InProgress);
    assert_eq!(pag.next_page, 2);
    pag.feed(vec![assignment(3, "C", None, None)]);
    assert_eq!(pag.status, PagStatus::InProgress);
    assert_eq!(pag.next_page, 3);
    pag.feed(Vec::new());
    assert_eq!(pag.status, PagStatus::Done);
    assert_eq!(pag.pages_fetched, 3);
    let items = pag.into_items();
    let ids: Vec<i32> = items.iter().map(|a| a.id).collect();
    assert_eq!(ids, vec![1, 2, 3]);
}

#[test]
fn paginator_stops_on_immediate_empty_page() {
    let mut pag = Paginator::new(5);
    pag.feed(Vec::new());
    assert_eq!(pag.status, PagStatus::Done);
    assert_eq!(pag.pages_fetched, 1);
    let items = pag.into_items();
    assert_eq!(items.len(), 0);
}

#[test]
fn paginator_overflows_at_the_page_bound() {
    let mut pag = Paginator::new(5);
    let mut fed: u32 = 0;
    while pag.status == PagStatus::InProgress {
        pag.feed(vec![assignment(1, "A", None, None)]);
        fed += 1;
        assert!(fed <= MAX_PAGES);
    }
    assert_eq!(pag.status, PagStatus::Overflowed);
    assert_eq!(pag.pages_fetched, MAX_PAGES);
}

#[test]
fn letter_grade_mapping_is_total() {
    assert_eq!(letter_grade(Some(95)), "A");
    assert_eq!(letter_grade(Some(85)), "B");
    assert_eq!(letter_grade(Some(72)), "C");
    assert_eq!(letter_grade(Some(65)), "D");
    assert_eq!(letter_grade(Some(40)), "F");
    assert_eq!(letter_grade(None), "Not Graded");
    // Boundary values: the lower bound of each band is inclusive.
    assert_eq!(letter_grade(Some(90)), "A");
    assert_eq!(letter_grade(Some(80)), "B");
    assert_eq!(letter_grade(Some(70)), "C");
    assert_eq!(letter_grade(Some(60)), "D");
    assert_eq!(letter_grade(Some(59)), "F");
    assert_eq!(letter_grade(Some(0)), "F");
    assert_eq!(letter_grade(Some(100)), "A");
}

#[test]
fn date_truncation_keeps_the_calendar_prefix() {
    assert_eq!(truncate_date("2023-08-15T12:00:00Z"), "2023-08-15");
    assert_eq!(truncate_date("2024-01-02"), "2024-01-02");
}

#[test]
fn missing_values_render_as_sentinels() {
    assert_eq!(due_display(&None), "No Due Date");
    assert_eq!(due_display(&Some("2023-09-01T00:00:00Z".to_string())), "2023-09-01");
    assert_eq!(score_display(None), "Not Graded");
    assert_eq!(score_display(Some(85)), "85");
    assert_eq!(points_display(None), "0");
    assert_eq!(points_display(Some(100)), "100");
}

#[test]
fn assignment_and_submission_lines() {
    let a = assignment(7, "Essay", Some(50), Some("2023-09-01T00:00:00Z"));
    assert_eq!(render_assignment_line(&a), "Essay Due date: 2023-09-01");
    let ar = AssignmentRecord {
        assignment: assignment(7, "Essay", None, None),
        submission: Submission { id: 70, pts: None },
    };
    assert_eq!(render_submission_line(&ar), "ID: 70 Total: Not Graded / 0");
}

#[test]
fn decimal_rendering() {
    assert_eq!(u32_to_string(0), "0");
    assert_eq!(u32_to_string(7), "7");
    assert_eq!(u32_to_string(10), "10");
    assert_eq!(u32_to_string(12345), "12345");
    assert_eq!(i32_to_string(42), "42");
    assert_eq!(i32_to_string(-42), "-42");
    assert_eq!(i32_to_string(i32::MIN), "-2147483648");
    assert_eq!(i32_to_string(i32::MAX), "2147483647");
}

#[test]
fn url_composition() {
    assert_eq!(profile_url(), "https://alamo.instructure.com/api/v1/users/self/profile");
    assert_eq!(course_info_url(17), "https://alamo.instructure.com/api/v1/courses/17");
    assert_eq!(
        enrollments_url(33),
        "https://alamo.instructure.com/api/v1/users/33/enrollments"
    );
    assert_eq!(
        assignments_page_url(17, 2),
        "https://alamo.instructure.com/api/v1/courses/17/assignments?page=2"
    );
    assert_eq!(
        submission_url(17, 41, 33),
        "https://alamo.instructure.com/api/v1/courses/17/assignments/41/submissions/33"
    );
    assert_eq!(
        request_url(&Request::FetchSubmission { course_id: 17, assignment_id: 41, student_id: 33 }),
        "https://alamo.instructure.com/api/v1/courses/17/assignments/41/submissions/33"
    );
}

#[test]
fn config_requires_the_token() {
    let ok = core_config(Some("tok".to_string()));
    match ok {
        Ok(CoreConfig { api_key }) => assert_eq!(api_key, "tok"),
        Err(_) => panic!("a present token must load"),
    }
    match core_config(None) {
        Err(e) => assert_eq!(e, FetchError::MissingConfig),
        Ok(_) => panic!("a missing token must not load"),
    }
    match CoreConfig::load_from_env(None) {
        Err(e) => assert_eq!(e, FetchError::MissingConfig),
        Ok(_) => panic!("a missing token must not load"),
    }
}

#[test]
fn error_messages_name_the_failure() {
    assert_eq!(FetchError::MissingConfig.message(), "missing API access token");
    assert_eq!(FetchError::Transport.message(), "network transport failure");
    assert_eq!(
        FetchError::HttpStatus { code: 404 }.message(),
        "request rejected with a non-success status"
    );
    assert_eq!(
        FetchError::Decode.message(),
        "response body did not match the expected shape"
    );
    assert_eq!(
        FetchError::PageLimitExceeded.message(),
        "assignment listing exceeded the page bound"
    );
}
