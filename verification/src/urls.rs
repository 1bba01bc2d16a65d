//! The resource fetchers' URL composition: one fixed template per LMS
//! endpoint, parameterized by the identifiers of the resources involved.

use vstd::prelude::*;
use vstd::string::*;
use crate::numfmt::{dec_rep, int_rep, u32_to_string, i32_to_string};

verus! {

/// One pending fetch, as the aggregator hands it to the transport layer:
/// which resource to get, with every identifier it needs.
#[derive(Debug, Clone, Copy, PartialEq, Eq, Structural)]
pub enum Request {
    FetchUser,
    FetchEnrollments { student_id: i32 },
    FetchCourseName { course_id: i32 },
    FetchAssignmentsPage { course_id: i32, page: u32 },
    FetchSubmission { course_id: i32, assignment_id: i32, student_id: i32 },
}

/// The LMS host every endpoint lives under.
pub open spec fn base_url() -> Seq<char> {
    "https://alamo.instructure.com"@
}

/// The URL of the authenticated student's own profile.
pub open spec fn profile_url_of() -> Seq<char> {
    base_url() + "/api/v1/users/self/profile"@
}

/// Composes the profile endpoint URL.
pub fn profile_url() -> (r: String)
    ensures
        r@ == profile_url_of(),
{
    let r = String::from_str("https://alamo.instructure.com/api/v1/users/self/profile");
    proof {
        reveal_strlit("https://alamo.instructure.com");
        reveal_strlit("/api/v1/users/self/profile");
        reveal_strlit("https://alamo.instructure.com/api/v1/users/self/profile");
        assert(r@ =~= profile_url_of());
    }
    r
}

/// The URL of one course's information record.
pub open spec fn course_info_url_of(course_id: i32) -> Seq<char> {
    base_url() + "/api/v1/courses/"@ + int_rep(course_id as int)
}

/// Composes the course-information endpoint URL for one course.
pub fn course_info_url(course_id: i32) -> (r: String)
    ensures
        r@ == course_info_url_of(course_id),
{
    let mut r = String::from_str("https://alamo.instructure.com/api/v1/courses/");
    let id = i32_to_string(course_id);
    r.append(id.as_str());
    proof {
        reveal_strlit("https://alamo.instructure.com");
        reveal_strlit("/api/v1/courses/");
        reveal_strlit("https://alamo.instructure.com/api/v1/courses/");
        assert(r@ =~= course_info_url_of(course_id));
    }
    r
}

/// The URL of one student's enrollment list.
pub open spec fn enrollments_url_of(student_id: i32) -> Seq<char> {
    base_url() + "/api/v1/users/"@ + int_rep(student_id as int) + "/enrollments"@
}

/// Composes the enrollments endpoint URL for one student.
pub fn enrollments_url(student_id: i32) -> (r: String)
    ensures
        r@ == enrollments_url_of(student_id),
{
    let mut r = String::from_str("https://alamo.instructure.com/api/v1/users/");
    let id = i32_to_string(student_id);
    r.append(id.as_str());
    r.append("/enrollments");
    proof {
        reveal_strlit("https://alamo.instructure.com");
        reveal_strlit("/api/v1/users/");
        reveal_strlit("https://alamo.instructure.com/api/v1/users/");
        assert(r@ =~= enrollments_url_of(student_id));
    }
    r
}

/// The URL of one page of a course's assignment listing (pages are
/// 1-based).
pub open spec fn assignments_page_url_of(course_id: i32, page: u32) -> Seq<char> {
    base_url() + "/api/v1/courses/"@ + int_rep(course_id as int) + "/assignments?page="@
        + dec_rep(page as int)
}

/// Composes the assignment-listing endpoint URL for one course and page.
pub fn assignments_page_url(course_id: i32, page: u32) -> (r: String)
    ensures
        r@ == assignments_page_url_of(course_id, page),
{
    let mut r = String::from_str("https://alamo.instructure.com/api/v1/courses/");
    let id = i32_to_string(course_id);
    r.append(id.as_str());
    r.append("/assignments?page=");
    let p = u32_to_string(page);
    r.append(p.as_str());
    proof {
        reveal_strlit("https://alamo.instructure.com");
        reveal_strlit("/api/v1/courses/");
        reveal_strlit("https://alamo.instructure.com/api/v1/courses/");
        assert(r@ =~= assignments_page_url_of(course_id, page));
    }
    r
}

/// The URL of one student's submission for one assignment.
pub open spec fn submission_url_of(course_id: i32, assignment_id: i32, student_id: i32) -> Seq<
    char,
> {
    base_url() + "/api/v1/courses/"@ + int_rep(course_id as int) + "/assignments/"@ + int_rep(
        assignment_id as int,
    ) + "/submissions/"@ + int_rep(student_id as int)
}

/// Composes the submission endpoint URL for one course, assignment and
/// student.
pub fn submission_url(course_id: i32, assignment_id: i32, student_id: i32) -> (r: String)
    ensures
        r@ == submission_url_of(course_id, assignment_id, student_id),
{
    let mut r = String::from_str("https://alamo.instructure.com/api/v1/courses/");
    let cid = i32_to_string(course_id);
    r.append(cid.as_str());
    r.append("/assignments/");
    let aid = i32_to_string(assignment_id);
    r.append(aid.as_str());
    r.append("/submissions/");
    let sid = i32_to_string(student_id);
    r.append(sid.as_str());
    proof {
        reveal_strlit("https://alamo.instructure.com");
        reveal_strlit("/api/v1/courses/");
        reveal_strlit("https://alamo.instructure.com/api/v1/courses/");
        assert(r@ =~= submission_url_of(course_id, assignment_id, student_id));
    }
    r
}

/// The URL a request is performed against.
pub open spec fn request_url_of(r: Request) -> Seq<char> {
    match r {
        Request::FetchUser => profile_url_of(),
        Request::FetchEnrollments { student_id } => enrollments_url_of(student_id),
        Request::FetchCourseName { course_id } => course_info_url_of(course_id),
        Request::FetchAssignmentsPage { course_id, page } => assignments_page_url_of(
            course_id,
            page,
        ),
        Request::FetchSubmission { course_id, assignment_id, student_id } => submission_url_of(
            course_id,
            assignment_id,
            student_id,
        ),
    }
}

/// Composes the URL for any pending request.
pub fn request_url(r: &Request) -> (u: String)
    ensures
        u@ == request_url_of(*r),
{
    match r {
        Request::FetchUser => profile_url(),
        Request::FetchEnrollments { student_id } => enrollments_url(*student_id),
        Request::FetchCourseName { course_id } => course_info_url(*course_id),
        Request::FetchAssignmentsPage { course_id, page } => assignments_page_url(
            *course_id,
            *page,
        ),
        Request::FetchSubmission { course_id, assignment_id, student_id } => submission_url(
            *course_id,
            *assignment_id,
            *student_id,
        ),
    }
}

} // verus!
