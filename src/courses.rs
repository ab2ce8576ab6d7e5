use vstd::prelude::*;

use crate::entities::{texts, Course, CourseView};
use crate::errors::StoreError;
use crate::store::{course_enrolled, course_withdrawn, without, Database, Transaction};

verus! {

/// The contents of a list of courses.
pub open spec fn course_views(cs: Seq<Course>) -> Seq<CourseView> {
    cs.map_values(|c: Course| c@)
}

/// The courses of `cs` owned by professor `p`, in order.
pub open spec fn taught_by(cs: Seq<CourseView>, p: Seq<char>) -> Seq<CourseView>
    decreases cs.len(),
{
    if cs.len() == 0 {
        cs
    } else if cs.last().professor_id == p {
        taught_by(cs.drop_last(), p).push(cs.last())
    } else {
        taught_by(cs.drop_last(), p)
    }
}

/// The courses of `cs` whose enrolled list holds student `s`, in order.
pub open spec fn attended_by(cs: Seq<CourseView>, s: Seq<char>) -> Seq<CourseView>
    decreases cs.len(),
{
    if cs.len() == 0 {
        cs
    } else if cs.last().enrolled_ids.contains(s) {
        attended_by(cs.drop_last(), s).push(cs.last())
    } else {
        attended_by(cs.drop_last(), s)
    }
}

/// Whether `s` occurs in `v`.
pub fn lists_string(v: &Vec<String>, s: &String) -> (r: bool)
    ensures
        r == texts(v@).contains(s@),
{
    let mut i: usize = 0;
    while i < v.len()
        invariant
            i <= v@.len(),
            forall|j: int| 0 <= j < i ==> v@[j]@ != s@,
        decreases v@.len() - i,
    {
        if v[i] == *s {
            assert(texts(v@)[i as int] == s@);
            return true;
        }
        i = i + 1;
    }
    assert(!texts(v@).contains(s@)) by {
        if texts(v@).contains(s@) {
            let k = choose|k: int| 0 <= k < texts(v@).len() && texts(v@)[k] == s@;
            assert(v@[k]@ == s@);
        }
    }
    false
}

/// `v` with every occurrence of `s` taken out.
pub fn strings_without(v: &Vec<String>, s: &String) -> (r: Vec<String>)
    ensures
        texts(r@) == without(texts(v@), s@),
{
    let mut r: Vec<String> = Vec::new();
    let mut i: usize = 0;
    while i < v.len()
        invariant
            i <= v@.len(),
            texts(r@) == without(texts(v@.subrange(0, i as int)), s@),
        decreases v@.len() - i,
    {
        let ghost before = texts(v@.subrange(0, i as int));
        assert(texts(v@.subrange(0, i + 1)).drop_last() =~= before);
        assert(texts(v@.subrange(0, i + 1)).last() == v@[i as int]@);
        if v[i] != *s {
            r.push(v[i].clone());
            assert(texts(r@) =~= without(before, s@).push(v@[i as int]@));
        }
        i = i + 1;
    }
    assert(v@.subrange(0, v@.len() as int) =~= v@);
    r
}

/// The position of the course keyed `c` among `courses`, if any.
fn find_course(courses: &Vec<Course>, c: &String) -> (r: Option<usize>)
    ensures
        match r {
            Some(i) => i < courses@.len() && courses@[i as int].course_id@ == c@,
            None => forall|j: int| 0 <= j < courses@.len() ==> courses@[j].course_id@ != c@,
        },
{
    let mut i: usize = 0;
    while i < courses.len()
        invariant
            i <= courses@.len(),
            forall|j: int| 0 <= j < i ==> courses@[j].course_id@ != c@,
        decreases courses@.len() - i,
    {
        if courses[i].course_id == *c {
            return Some(i);
        }
        i = i + 1;
    }
    None
}

/// The largest surrogate identifier a course can receive.
pub const MAX_COURSE_ID: i64 = 9223372036854775807;

/// Stores a new course and returns its surrogate identifier: one more than
/// the number of courses stored before it.
///
/// Fails with `ConstraintViolation` when `course_id` is taken, and with
/// `CapacityExceeded` when no identifier is left; either way nothing is written.
pub fn insert_course(tx: &mut Transaction, course: &Course) -> (r: Result<i64, StoreError>)
    requires
        old(tx)@.wf(),
    ensures
        final(tx)@.wf(),
        final(tx).base_stamp() == old(tx).base_stamp(),
        match r {
            Ok(id) => !old(tx)@.has_course(course.course_id@) && id == old(tx)@.courses.len() + 1
                && final(tx)@ == old(tx)@.with_course(course@),
            Err(e) => final(tx)@ == old(tx)@ && if old(tx)@.has_course(course.course_id@) {
                e == StoreError::ConstraintViolation
            } else {
                e == StoreError::CapacityExceeded && old(tx)@.courses.len() >= MAX_COURSE_ID
            },
        },
{
    match find_course(&tx.working.courses, &course.course_id) {
        Some(i) => {
            assert(old(tx)@.courses[i as int].course_id == course.course_id@);
            Err(StoreError::ConstraintViolation)
        },
        None => {
            let n = tx.working.courses.len();
            if n as u64 >= MAX_COURSE_ID as u64 {
                return Err(StoreError::CapacityExceeded);
            }
            tx.working.courses.push(course.duplicate());
            assert(tx@.courses =~= old(tx)@.courses.push(course@));
            assert(tx@.users == old(tx)@.users);
            assert(tx@.lectures == old(tx)@.lectures);
            assert forall|a: int, b: int| 0 <= a < b < tx@.courses.len() implies tx@.courses[a].course_id
                != tx@.courses[b].course_id by {
                if b == old(tx)@.courses.len() {
                    assert(old(tx)@.courses[a].course_id == old(tx).working.courses@[a].course_id@);
                }
            }
            Ok(n as i64 + 1)
        },
    }
}

/// Every course, in order of insertion.
pub fn select_all_courses(db: &Database) -> (r: Vec<Course>)
    ensures
        course_views(r@) == db@.courses,
{
    let mut r: Vec<Course> = Vec::new();
    let mut i: usize = 0;
    while i < db.courses.len()
        invariant
            i <= db.courses@.len(),
            r@.len() == i,
            forall|j: int| 0 <= j < i ==> r@[j]@ == db.courses@[j]@,
        decreases db.courses@.len() - i,
    {
        r.push(db.courses[i].duplicate());
        i = i + 1;
    }
    assert(course_views(r@) =~= db@.courses);
    r
}

/// The courses owned by `professor_id`, in order of insertion.
pub fn select_courses_by_professor_id(db: &Database, professor_id: &String) -> (r: Vec<Course>)
    ensures
        course_views(r@) == taught_by(db@.courses, professor_id@),
{
    let mut r: Vec<Course> = Vec::new();
    let mut i: usize = 0;
    while i < db.courses.len()
        invariant
            i <= db.courses@.len(),
            course_views(r@) == taught_by(course_views(db.courses@.subrange(0, i as int)), professor_id@),
        decreases db.courses@.len() - i,
    {
        let ghost before = course_views(db.courses@.subrange(0, i as int));
        assert(course_views(db.courses@.subrange(0, i + 1)).drop_last() =~= before);
        if db.courses[i].professor_id == *professor_id {
            r.push(db.courses[i].duplicate());
            assert(course_views(r@) =~= taught_by(before, professor_id@).push(db.courses@[i as int]@));
        }
        i = i + 1;
    }
    assert(db.courses@.subrange(0, db.courses@.len() as int) =~= db.courses@);
    r
}

/// The courses whose enrolled list holds `student_id`, in order of insertion.
pub fn select_courses_by_student_id(db: &Database, student_id: &String) -> (r: Vec<Course>)
    ensures
        course_views(r@) == attended_by(db@.courses, student_id@),
{
    let mut r: Vec<Course> = Vec::new();
    let mut i: usize = 0;
    while i < db.courses.len()
        invariant
            i <= db.courses@.len(),
            course_views(r@) == attended_by(course_views(db.courses@.subrange(0, i as int)), student_id@),
        decreases db.courses@.len() - i,
    {
        let ghost before = course_views(db.courses@.subrange(0, i as int));
        assert(course_views(db.courses@.subrange(0, i + 1)).drop_last() =~= before);
        if lists_string(&db.courses[i].enrolled_ids, student_id) {
            r.push(db.courses[i].duplicate());
            assert(course_views(r@) =~= attended_by(before, student_id@).push(db.courses@[i as int]@));
        }
        i = i + 1;
    }
    assert(db.courses@.subrange(0, db.courses@.len() as int) =~= db.courses@);
    r
}

/// Appends `student_id` to the enrolled list of the course keyed `course_id`.
///
/// No check for an existing entry is made: enrolling twice lists the student
/// twice. A key that names no course leaves the store as it was.
pub fn insert_student_in_enrolled_ids(tx: &mut Transaction, course_id: &String, student_id: &String)
    requires
        old(tx)@.wf(),
    ensures
        final(tx)@.wf(),
        final(tx).base_stamp() == old(tx).base_stamp(),
        final(tx)@ == old(tx)@.enrolled(course_id@, student_id@),
{
    let ghost start = tx@;
    let mut i: usize = 0;
    while i < tx.working.courses.len()
        invariant
            i <= tx.working.courses@.len(),
            tx.working.courses@.len() == start.courses.len(),
            tx.base == old(tx).base,
            tx@.users == start.users,
            tx@.lectures == start.lectures,
            forall|j: int| 0 <= j < i ==> tx.working.courses@[j]@ == course_enrolled(start.courses[j], course_id@, student_id@),
            forall|j: int| i <= j < start.courses.len() ==> tx.working.courses@[j]@ == start.courses[j],
        decreases tx.working.courses@.len() - i,
    {
        if tx.working.courses[i].course_id == *course_id {
            let mut c = tx.working.courses[i].duplicate();
            c.enrolled_ids.push(student_id.clone());
            assert(texts(c.enrolled_ids@) =~= start.courses[i as int].enrolled_ids.push(student_id@));
            tx.working.courses.set(i, c);
        }
        assert(tx.working.courses@[i as int]@ == course_enrolled(start.courses[i as int], course_id@, student_id@));
        i = i + 1;
    }
    assert(tx@.courses =~= start.enrolled(course_id@, student_id@).courses);
}

/// Removes every occurrence of `student_id` from the enrolled list of the
/// course keyed `course_id`. A key that names no course leaves the store as it was.
pub fn remove_student_from_enrolled_ids(tx: &mut Transaction, course_id: &String, student_id: &String)
    requires
        old(tx)@.wf(),
    ensures
        final(tx)@.wf(),
        final(tx).base_stamp() == old(tx).base_stamp(),
        final(tx)@ == old(tx)@.withdrawn(course_id@, student_id@),
{
    let ghost start = tx@;
    let mut i: usize = 0;
    while i < tx.working.courses.len()
        invariant
            i <= tx.working.courses@.len(),
            tx.working.courses@.len() == start.courses.len(),
            tx.base == old(tx).base,
            tx@.users == start.users,
            tx@.lectures == start.lectures,
            forall|j: int| 0 <= j < i ==> tx.working.courses@[j]@ == course_withdrawn(start.courses[j], course_id@, student_id@),
            forall|j: int| i <= j < start.courses.len() ==> tx.working.courses@[j]@ == start.courses[j],
        decreases tx.working.courses@.len() - i,
    {
        if tx.working.courses[i].course_id == *course_id {
            let kept = strings_without(&tx.working.courses[i].enrolled_ids, student_id);
            let mut c = tx.working.courses[i].duplicate();
            c.enrolled_ids = kept;
            tx.working.courses.set(i, c);
        }
        assert(tx.working.courses@[i as int]@ == course_withdrawn(start.courses[i as int], course_id@, student_id@));
        i = i + 1;
    }
    assert(tx@.courses =~= start.withdrawn(course_id@, student_id@).courses);
}

} // verus!
