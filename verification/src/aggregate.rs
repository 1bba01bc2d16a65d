//! The aggregator: a state machine that orders the dependent fetches of a
//! report run and merges their results into enriched course records.
//!
//! The machine never touches the network itself. It names the next fetch
//! through [`Aggregator::next_request`]; the caller performs it and hands
//! the decoded result back through the matching `give_*` method (or
//! [`Aggregator::fail`] on any fetch failure, which aborts the whole run).
//! The run is strictly sequential: profile, then enrollments, then per
//! enrollment — in enrollment order — the course name, the paginated
//! assignment list, and one submission per assignment.

use vstd::prelude::*;
use vstd::pervasive::unreached;
use crate::error::FetchError;
use crate::model::{
    Profile, Grades, Enrollment, Assignment, Submission, AssignmentRecord, CourseRecord, Report,
};
use crate::paginate::{Paginator, PagStatus, pag_init, pag_feed};
use crate::present::{letter_of, letter_grade};
use crate::urls::Request;

verus! {

/// Which result the aggregation run is waiting for.
#[derive(Debug, Clone, Copy, PartialEq, Eq, Structural)]
pub enum Phase {
    AwaitUser,
    AwaitEnrollments,
    AwaitCourseName,
    AwaitAssignments,
    AwaitSubmission,
    Finished,
    Failed,
}

/// An enriched record carries the fields of the enrollment it came from,
/// with the letter grade derived from the enrollment's numeric score.
pub open spec fn record_matches(rec: CourseRecord, e: Enrollment) -> bool {
    &&& rec.id == e.id
    &&& rec.date == e.date
    &&& rec.grades == e.grades
    &&& rec.letter@ == letter_of(e.grades.number_grade)
}

/// The aggregation state machine.
///
/// `done` holds the fully enriched records of the courses already
/// processed; the course being processed is `enrollments[done.len()]`.
/// `names_received` counts the course-name results consumed: exactly one
/// per finished course.
pub struct Aggregator {
    pub phase: Phase,
    pub profile: Option<Profile>,
    pub enrollments: Vec<Enrollment>,
    pub done: Vec<CourseRecord>,
    pub names_received: usize,
    pub current_name: Option<String>,
    pub pag: Paginator,
    pub assignments: Vec<Assignment>,
    pub subs_done: Vec<AssignmentRecord>,
    pub error: Option<FetchError>,
}

impl Aggregator {
    /// The position of the course now being processed.
    pub open spec fn cur_index(&self) -> int {
        self.done@.len() as int
    }

    /// The enrollment of the course now being processed.
    pub open spec fn cur_enrollment(&self) -> Enrollment {
        self.enrollments@[self.cur_index()]
    }

    /// The student identifier every request after the profile fetch
    /// carries.
    pub open spec fn student_id(&self) -> i32 {
        self.profile->0.id
    }

    /// The finished records agree, in order, with the enrollments they
    /// enrich.
    pub open spec fn prefix_ok(&self) -> bool {
        forall|i: int|
            0 <= i < self.done@.len() ==> record_matches(
                #[trigger] self.done@[i],
                self.enrollments@[i],
            )
    }

    /// Each submission record fetched so far belongs to the assignment at
    /// its own position.
    pub open spec fn subs_ok(&self) -> bool {
        forall|i: int|
            0 <= i < self.subs_done@.len() ==> (#[trigger] self.subs_done@[i]).assignment
                == self.assignments@[i]
    }

    /// The machine's invariant, by phase.
    pub open spec fn wf(&self) -> bool {
        match self.phase {
            Phase::AwaitUser => {
                &&& self.profile is None
                &&& self.enrollments@.len() == 0
                &&& self.done@.len() == 0
                &&& self.names_received == 0
            },
            Phase::AwaitEnrollments => {
                &&& self.profile is Some
                &&& self.enrollments@.len() == 0
                &&& self.done@.len() == 0
                &&& self.names_received == 0
            },
            Phase::AwaitCourseName => {
                &&& self.profile is Some
                &&& self.done@.len() < self.enrollments@.len()
                &&& self.names_received == self.done@.len()
                &&& self.prefix_ok()
            },
            Phase::AwaitAssignments => {
                &&& self.profile is Some
                &&& self.done@.len() < self.enrollments@.len()
                &&& self.names_received == self.done@.len() + 1
                &&& self.current_name is Some
                &&& self.pag.wf()
                &&& self.pag.status is InProgress
                &&& self.pag.course_id == self.cur_enrollment().id
                &&& self.prefix_ok()
            },
            Phase::AwaitSubmission => {
                &&& self.profile is Some
                &&& self.done@.len() < self.enrollments@.len()
                &&& self.names_received == self.done@.len() + 1
                &&& self.current_name is Some
                &&& self.subs_done@.len() < self.assignments@.len()
                &&& self.subs_ok()
                &&& self.prefix_ok()
            },
            Phase::Finished => {
                &&& self.profile is Some
                &&& self.done@.len() == self.enrollments@.len()
                &&& self.names_received == self.enrollments@.len()
                &&& self.prefix_ok()
            },
            Phase::Failed => self.error is Some,
        }
    }

    /// The fetch the machine is waiting for, if any.
    pub open spec fn spec_next(&self) -> Option<Request> {
        match self.phase {
            Phase::AwaitUser => Some(Request::FetchUser),
            Phase::AwaitEnrollments => Some(
                Request::FetchEnrollments { student_id: self.student_id() },
            ),
            Phase::AwaitCourseName => Some(
                Request::FetchCourseName { course_id: self.cur_enrollment().id },
            ),
            Phase::AwaitAssignments => Some(
                Request::FetchAssignmentsPage {
                    course_id: self.cur_enrollment().id,
                    page: self.pag.next_page,
                },
            ),
            Phase::AwaitSubmission => Some(
                Request::FetchSubmission {
                    course_id: self.cur_enrollment().id,
                    assignment_id: self.assignments@[self.subs_done@.len() as int].id,
                    student_id: self.student_id(),
                },
            ),
            Phase::Finished => None,
            Phase::Failed => None,
        }
    }

    /// Starts a run: the first thing to fetch is the student's profile.
    pub fn new() -> (a: Aggregator)
        ensures
            a.wf(),
            a.phase is AwaitUser,
            a.spec_next() == Some(Request::FetchUser),
    {
        Aggregator {
            phase: Phase::AwaitUser,
            profile: None,
            enrollments: Vec::new(),
            done: Vec::new(),
            names_received: 0,
            current_name: None,
            pag: Paginator::new(0),
            assignments: Vec::new(),
            subs_done: Vec::new(),
            error: None,
        }
    }

    /// Names the next fetch to perform, or nothing once the run has
    /// finished or failed.
    pub fn next_request(&self) -> (r: Option<Request>)
        requires
            self.wf(),
        ensures
            r == self.spec_next(),
    {
        match self.phase {
            Phase::AwaitUser => Some(Request::FetchUser),
            Phase::AwaitEnrollments => {
                match &self.profile {
                    Some(p) => Some(Request::FetchEnrollments { student_id: p.id }),
                    None => unreached(),
                }
            },
            Phase::AwaitCourseName => {
                let idx = self.done.len();
                Some(Request::FetchCourseName { course_id: self.enrollments[idx].id })
            },
            Phase::AwaitAssignments => {
                let idx = self.done.len();
                Some(
                    Request::FetchAssignmentsPage {
                        course_id: self.enrollments[idx].id,
                        page: self.pag.next_page,
                    },
                )
            },
            Phase::AwaitSubmission => {
                match &self.profile {
                    Some(p) => {
                        let idx = self.done.len();
                        let k = self.subs_done.len();
                        Some(
                            Request::FetchSubmission {
                                course_id: self.enrollments[idx].id,
                                assignment_id: self.assignments[k].id,
                                student_id: p.id,
                            },
                        )
                    },
                    None => unreached(),
                }
            },
            Phase::Finished => None,
            Phase::Failed => None,
        }
    }

    /// Takes the fetched profile; the run moves on to the enrollment list.
    pub fn give_user(&mut self, p: Profile)
        requires
            old(self).wf(),
            old(self).phase is AwaitUser,
        ensures
            final(self).wf(),
            final(self).phase is AwaitEnrollments,
            final(self).profile == Some(p),
            final(self).enrollments == old(self).enrollments,
            final(self).done == old(self).done,
            final(self).names_received == 0,
    {
        self.profile = Some(p);
        self.phase = Phase::AwaitEnrollments;
    }

    /// Takes the fetched enrollment list. An empty list finishes the run at
    /// once; otherwise the first course's name is fetched next.
    pub fn give_enrollments(&mut self, es: Vec<Enrollment>)
        requires
            old(self).wf(),
            old(self).phase is AwaitEnrollments,
        ensures
            final(self).wf(),
            final(self).profile == old(self).profile,
            final(self).enrollments == es,
            final(self).done@.len() == 0,
            final(self).names_received == 0,
            es@.len() == 0 ==> final(self).phase is Finished,
            es@.len() > 0 ==> final(self).phase is AwaitCourseName,
    {
        let empty = es.len() == 0;
        self.enrollments = es;
        if empty {
            self.phase = Phase::Finished;
        } else {
            self.phase = Phase::AwaitCourseName;
        }
    }

    /// Takes the resolved course name of the course now being processed;
    /// its assignment listing is paginated next, starting at page 1.
    pub fn give_course_name(&mut self, name: String)
        requires
            old(self).wf(),
            old(self).phase is AwaitCourseName,
        ensures
            final(self).wf(),
            final(self).phase is AwaitAssignments,
            final(self).profile == old(self).profile,
            final(self).enrollments == old(self).enrollments,
            final(self).done == old(self).done,
            final(self).current_name == Some(name),
            final(self).names_received == old(self).names_received + 1,
            final(self).pag@ == pag_init(),
    {
        let idx = self.done.len();
        let cid = self.enrollments[idx].id;
        self.current_name = Some(name);
        self.pag = Paginator::new(cid);
        // idx + 1 cannot overflow: idx indexes into the enrollment vector.
        let bound = self.enrollments.len();
        assert(idx < bound);
        self.names_received = idx + 1;
        self.phase = Phase::AwaitAssignments;
    }

    /// What finishing one course does: the enriched record — the
    /// enrollment's fields, the derived letter grade, the resolved name and
    /// the given assignment records — is appended to the finished records,
    /// and the run either moves to the next course's name or, after the
    /// last course, finishes.
    pub open spec fn course_completed(
        pre: Aggregator,
        post: Aggregator,
        subs: Seq<AssignmentRecord>,
    ) -> bool {
        &&& post.done@.len() == pre.done@.len() + 1
        &&& post.done@.subrange(0, pre.done@.len() as int) == pre.done@
        &&& ({
            let r = post.done@.last();
            &&& record_matches(r, pre.cur_enrollment())
            &&& Some(r.course_name) == pre.current_name
            &&& r.assignments@ == subs
        })
        &&& (post.done@.len() == pre.enrollments@.len() ==> post.phase is Finished)
        &&& (post.done@.len() < pre.enrollments@.len() ==> post.phase is AwaitCourseName)
    }

    /// Appends the enriched record of the course now being processed and
    /// advances to the next course or to the finished state.
    fn complete_course(&mut self, recs: Vec<AssignmentRecord>)
        requires
            old(self).profile is Some,
            old(self).done@.len() < old(self).enrollments@.len(),
            old(self).names_received == old(self).done@.len() + 1,
            old(self).current_name is Some,
            old(self).prefix_ok(),
        ensures
            final(self).wf(),
            final(self).profile == old(self).profile,
            final(self).enrollments == old(self).enrollments,
            final(self).names_received == old(self).names_received,
            Self::course_completed(*old(self), *final(self), recs@),
    {
        let idx = self.done.len();
        let n = self.enrollments.len();
        let letter = letter_grade(self.enrollments[idx].grades.number_grade);
        let name = match &self.current_name {
            Some(s) => s.clone(),
            None => unreached(),
        };
        let e = &self.enrollments[idx];
        let rec = CourseRecord {
            id: e.id,
            date: e.date.clone(),
            grades: Grades {
                letter_grade: match &e.grades.letter_grade {
                    Some(s) => Some(s.clone()),
                    None => None,
                },
                number_grade: e.grades.number_grade,
            },
            letter,
            course_name: name,
            assignments: recs,
        };
        proof {
            assert(rec.grades == e.grades);
        }
        self.done.push(rec);
        if self.done.len() == n {
            self.phase = Phase::Finished;
        } else {
            self.phase = Phase::AwaitCourseName;
            self.current_name = None;
        }
        proof {
            assert(self.done@.subrange(0, old(self).done@.len() as int) =~= old(self).done@);
        }
    }

    /// Takes one fetched page of the assignment listing, as `pag_feed`
    /// describes. An empty page completes the listing: with no assignments
    /// at all the course is finished outright, otherwise the submissions
    /// are fetched next, one per assignment in listing order. Reaching the
    /// page bound fails the run with `PageLimitExceeded`.
    pub fn give_assignments_page(&mut self, page: Vec<Assignment>)
        requires
            old(self).wf(),
            old(self).phase is AwaitAssignments,
        ensures
            final(self).wf(),
            final(self).profile == old(self).profile,
            final(self).enrollments == old(self).enrollments,
            final(self).names_received == old(self).names_received,
            ({
                let v = pag_feed(old(self).pag@, page@);
                &&& (v.status is InProgress ==> {
                    &&& final(self).phase is AwaitAssignments
                    &&& final(self).pag@ == v
                    &&& final(self).done == old(self).done
                    &&& final(self).current_name == old(self).current_name
                })
                &&& (v.status is Overflowed ==> {
                    &&& final(self).phase is Failed
                    &&& final(self).error == Some(FetchError::PageLimitExceeded)
                })
                &&& (v.status is Done ==> {
                    if v.items.len() == 0 {
                        Self::course_completed(*old(self), *final(self), Seq::empty())
                    } else {
                        &&& final(self).phase is AwaitSubmission
                        &&& final(self).assignments@ == v.items
                        &&& final(self).subs_done@.len() == 0
                        &&& final(self).done == old(self).done
                        &&& final(self).current_name == old(self).current_name
                    }
                })
            }),
    {
        self.pag.feed(page);
        match self.pag.status {
            PagStatus::InProgress => {
            },
            PagStatus::Overflowed => {
                self.error = Some(FetchError::PageLimitExceeded);
                self.phase = Phase::Failed;
            },
            PagStatus::Done => {
                let items = self.pag.take_items();
                if items.len() == 0 {
                    let recs: Vec<AssignmentRecord> = Vec::new();
                    proof {
                        assert(recs@ =~= Seq::<AssignmentRecord>::empty());
                    }
                    self.complete_course(recs);
                } else {
                    self.assignments = items;
                    self.subs_done = Vec::new();
                    self.phase = Phase::AwaitSubmission;
                }
            },
        }
    }

    /// Takes the fetched submission for the assignment now waiting for
    /// one. After the last assignment's submission the course is finished.
    pub fn give_submission(&mut self, s: Submission)
        requires
            old(self).wf(),
            old(self).phase is AwaitSubmission,
        ensures
            final(self).wf(),
            final(self).profile == old(self).profile,
            final(self).enrollments == old(self).enrollments,
            final(self).names_received == old(self).names_received,
            ({
                let k = old(self).subs_done@.len() as int;
                let rec = AssignmentRecord {
                    assignment: old(self).assignments@[k],
                    submission: s,
                };
                let subs = old(self).subs_done@.push(rec);
                if subs.len() < old(self).assignments@.len() {
                    &&& final(self).phase is AwaitSubmission
                    &&& final(self).subs_done@ == subs
                    &&& final(self).assignments == old(self).assignments
                    &&& final(self).done == old(self).done
                    &&& final(self).current_name == old(self).current_name
                } else {
                    Self::course_completed(*old(self), *final(self), subs)
                }
            }),
    {
        let k = self.subs_done.len();
        let total = self.assignments.len();
        let a0 = &self.assignments[k];
        let a = Assignment {
            id: a0.id,
            name: a0.name.clone(),
            pts: a0.pts,
            due: match &a0.due {
                Some(d) => Some(d.clone()),
                None => None,
            },
        };
        proof {
            assert(a == self.assignments@[k as int]);
        }
        let rec = AssignmentRecord { assignment: a, submission: s };
        if k + 1 < total {
            self.subs_done.push(rec);
        } else {
            let mut recs: Vec<AssignmentRecord> = Vec::new();
            core::mem::swap(&mut recs, &mut self.subs_done);
            recs.push(rec);
            self.complete_course(recs);
        }
    }

    /// Aborts the run on a fetch failure: the machine becomes terminal and
    /// no report — not even a partial one — can be taken from it.
    pub fn fail(&mut self, e: FetchError)
        ensures
            final(self).wf(),
            final(self).phase is Failed,
            final(self).error == Some(e),
            final(self).spec_next() is None,
    {
        self.error = Some(e);
        self.phase = Phase::Failed;
    }

    /// Hands out the outcome of a terminal run: the full report of a
    /// finished one — one enriched record per enrollment, in enrollment
    /// order — or the error that aborted it.
    pub fn into_report(self) -> (r: Result<Report, FetchError>)
        requires
            self.wf(),
            self.phase is Finished || self.phase is Failed,
        ensures
            self.phase is Finished ==> (r matches Ok(rep) && Some(rep.profile) == self.profile
                && rep.courses == self.done && rep.courses@.len() == self.enrollments@.len()
                && forall|i: int|
                0 <= i < self.enrollments@.len() ==> record_matches(
                    #[trigger] rep.courses@[i],
                    self.enrollments@[i],
                )),
            self.phase is Failed ==> (r matches Err(e) && Some(e) == self.error),
    {
        match self.phase {
            Phase::Finished => {
                match self.profile {
                    Some(p) => Ok(Report { profile: p, courses: self.done }),
                    None => unreached(),
                }
            },
            _ => {
                match self.error {
                    Some(e) => Err(e),
                    None => unreached(),
                }
            },
        }
    }
}

/// One enriched record per enrollment, in the order the enrollments were
/// returned, and exactly one course-name result consumed per enrollment:
/// what every finished aggregation run guarantees.
pub proof fn lemma_aggregation_complete(a: Aggregator)
    requires
        a.wf(),
        a.phase is Finished,
    ensures
        a.done@.len() == a.enrollments@.len(),
        a.names_received == a.enrollments@.len(),
        forall|i: int|
            0 <= i < a.enrollments@.len() ==> record_matches(
                #[trigger] a.done@[i],
                a.enrollments@[i],
            ),
{
}

} // verus!
