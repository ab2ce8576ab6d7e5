use vstd::prelude::*;

use crate::courses::lists_string;
use crate::entities::{CourseView, Lecture, LectureView};
use crate::errors::StoreError;
use crate::store::{Database, Transaction};

verus! {

/// The contents of a list of lectures.
pub open spec fn lecture_views(ls: Seq<Lecture>) -> Seq<LectureView> {
    ls.map_values(|l: Lecture| l@)
}

/// The lectures of `ls` posted to course `c`, in order.
pub open spec fn posted_to(ls: Seq<LectureView>, c: Seq<char>) -> Seq<LectureView>
    decreases ls.len(),
{
    if ls.len() == 0 {
        ls
    } else if ls.last().course_id == c {
        posted_to(ls.drop_last(), c).push(ls.last())
    } else {
        posted_to(ls.drop_last(), c)
    }
}

/// Whether student `s` is enrolled in a course keyed `c`.
pub open spec fn is_enrolled(cs: Seq<CourseView>, c: Seq<char>, s: Seq<char>) -> bool {
    exists|k: int| 0 <= k < cs.len() && cs[k].course_id == c && cs[k].enrolled_ids.contains(s)
}

/// The lectures of `ls` in the courses where `s` is enrolled, in order of insertion.
pub open spec fn enrolled_lectures(ls: Seq<LectureView>, cs: Seq<CourseView>, s: Seq<char>) -> Seq<LectureView>
    decreases ls.len(),
{
    if ls.len() == 0 {
        ls
    } else if is_enrolled(cs, ls.last().course_id, s) {
        enrolled_lectures(ls.drop_last(), cs, s).push(ls.last())
    } else {
        enrolled_lectures(ls.drop_last(), cs, s)
    }
}

/// Where a lecture created at `t` goes in `sorted`, a list ordered newest
/// first: before the first entry that is not newer than it.
pub open spec fn slot(sorted: Seq<LectureView>, t: int) -> int
    decreases sorted.len(),
{
    if sorted.len() == 0 {
        0
    } else if sorted[0].created_at <= t {
        0
    } else {
        1 + slot(sorted.subrange(1, sorted.len() as int), t)
    }
}

/// The lectures of `ls` in the courses where `s` is enrolled, newest first;
/// of two created at the same time, the one stored later comes first.
pub open spec fn visible_to(ls: Seq<LectureView>, cs: Seq<CourseView>, s: Seq<char>) -> Seq<LectureView>
    decreases ls.len(),
{
    if ls.len() == 0 {
        ls
    } else {
        let rest = visible_to(ls.drop_last(), cs, s);
        if is_enrolled(cs, ls.last().course_id, s) {
            rest.insert(slot(rest, ls.last().created_at), ls.last())
        } else {
            rest
        }
    }
}

/// Lecture `l` as stored at time `t`.
pub open spec fn stamped(l: LectureView, t: int) -> LectureView {
    LectureView { created_at: t, ..l }
}

/// Ordered newest first.
pub open spec fn newest_first(ls: Seq<LectureView>) -> bool {
    forall|i: int, j: int| 0 <= i < j < ls.len() ==> ls[i].created_at >= ls[j].created_at
}

proof fn lemma_slot(sorted: Seq<LectureView>, t: int, p: int)
    requires
        0 <= p <= sorted.len(),
        forall|j: int| 0 <= j < p ==> sorted[j].created_at > t,
        p == sorted.len() || sorted[p].created_at <= t,
    ensures
        slot(sorted, t) == p,
    decreases p,
{
    if p > 0 {
        let rest = sorted.subrange(1, sorted.len() as int);
        lemma_slot(rest, t, p - 1);
    }
}

/// The position of the lecture keyed `l` among `lectures`, if any.
fn find_lecture(lectures: &Vec<Lecture>, l: &String) -> (r: Option<usize>)
    ensures
        match r {
            Some(i) => i < lectures@.len() && lectures@[i as int].lecture_id@ == l@,
            None => forall|j: int| 0 <= j < lectures@.len() ==> lectures@[j].lecture_id@ != l@,
        },
{
    let mut i: usize = 0;
    while i < lectures.len()
        invariant
            i <= lectures@.len(),
            forall|j: int| 0 <= j < i ==> lectures@[j].lecture_id@ != l@,
        decreases lectures@.len() - i,
    {
        if lectures[i].lecture_id == *l {
            return Some(i);
        }
        i = i + 1;
    }
    None
}

/// Stores a new lecture, stamped `created_at`, and returns its `lecture_id`.
/// The lecture's own `created_at` is ignored.
///
/// Fails with `ConstraintViolation`, writing nothing, when `lecture_id` is taken.
pub fn insert_lecture(tx: &mut Transaction, lecture: &Lecture, created_at: i64) -> (r: Result<String, StoreError>)
    requires
        old(tx)@.wf(),
    ensures
        final(tx)@.wf(),
        final(tx).base_stamp() == old(tx).base_stamp(),
        match r {
            Ok(id) => !old(tx)@.has_lecture(lecture.lecture_id@) && id@ == lecture.lecture_id@
                && final(tx)@ == old(tx)@.with_lecture(stamped(lecture@, created_at as int)),
            Err(e) => old(tx)@.has_lecture(lecture.lecture_id@) && e == StoreError::ConstraintViolation
                && final(tx)@ == old(tx)@,
        },
{
    match find_lecture(&tx.working.lectures, &lecture.lecture_id) {
        Some(i) => {
            assert(old(tx)@.lectures[i as int].lecture_id == lecture.lecture_id@);
            return Err(StoreError::ConstraintViolation);
        },
        None => {},
    }
    let mut stored = lecture.duplicate();
    stored.created_at = created_at;
    tx.working.lectures.push(stored);
    assert(tx@.lectures =~= old(tx)@.lectures.push(stamped(lecture@, created_at as int)));
    assert(tx@.users == old(tx)@.users);
    assert(tx@.courses == old(tx)@.courses);
    assert forall|a: int, b: int| 0 <= a < b < tx@.lectures.len() implies tx@.lectures[a].lecture_id
        != tx@.lectures[b].lecture_id by {
        if b == old(tx)@.lectures.len() {
            assert(old(tx)@.lectures[a].lecture_id == old(tx).working.lectures@[a].lecture_id@);
        }
    }
    Ok(lecture.lecture_id.clone())
}

/// The lectures posted to `course_id`, in order of insertion.
pub fn select_lectures_by_course_id(db: &Database, course_id: &String) -> (r: Vec<Lecture>)
    ensures
        lecture_views(r@) == posted_to(db@.lectures, course_id@),
{
    let mut r: Vec<Lecture> = Vec::new();
    let mut i: usize = 0;
    while i < db.lectures.len()
        invariant
            i <= db.lectures@.len(),
            lecture_views(r@) == posted_to(lecture_views(db.lectures@.subrange(0, i as int)), course_id@),
        decreases db.lectures@.len() - i,
    {
        let ghost before = lecture_views(db.lectures@.subrange(0, i as int));
        assert(lecture_views(db.lectures@.subrange(0, i + 1)).drop_last() =~= before);
        if db.lectures[i].course_id == *course_id {
            r.push(db.lectures[i].duplicate());
            assert(lecture_views(r@) =~= posted_to(before, course_id@).push(db.lectures@[i as int]@));
        }
        i = i + 1;
    }
    assert(db.lectures@.subrange(0, db.lectures@.len() as int) =~= db.lectures@);
    r
}

/// Whether `student_id` is enrolled in a course keyed `course_id`.
fn enrolled_in(db: &Database, course_id: &String, student_id: &String) -> (r: bool)
    ensures
        r == is_enrolled(db@.courses, course_id@, student_id@),
{
    let mut k: usize = 0;
    while k < db.courses.len()
        invariant
            k <= db.courses@.len(),
            forall|j: int| 0 <= j < k ==> !(db@.courses[j].course_id == course_id@
                && db@.courses[j].enrolled_ids.contains(student_id@)),
        decreases db.courses@.len() - k,
    {
        if db.courses[k].course_id == *course_id && lists_string(&db.courses[k].enrolled_ids, student_id) {
            assert(db@.courses[k as int] == db.courses@[k as int]@);
            return true;
        }
        k = k + 1;
    }
    false
}

/// Every lecture of every course `student_id` is enrolled in, most recent
/// first; of two created at the same time, the one stored later comes first.
pub fn select_lectures_by_enrolled_courses(db: &Database, student_id: &String) -> (r: Vec<Lecture>)
    ensures
        lecture_views(r@) == visible_to(db@.lectures, db@.courses, student_id@),
{
    let mut r: Vec<Lecture> = Vec::new();
    let mut i: usize = 0;
    while i < db.lectures.len()
        invariant
            i <= db.lectures@.len(),
            lecture_views(r@) == visible_to(lecture_views(db.lectures@.subrange(0, i as int)), db@.courses, student_id@),
        decreases db.lectures@.len() - i,
    {
        let ghost before = lecture_views(db.lectures@.subrange(0, i as int));
        let ghost sorted = lecture_views(r@);
        assert(lecture_views(db.lectures@.subrange(0, i + 1)).drop_last() =~= before);
        assert(lecture_views(db.lectures@.subrange(0, i + 1)).last() == db.lectures@[i as int]@);
        if enrolled_in(db, &db.lectures[i].course_id, student_id) {
            let t = db.lectures[i].created_at;
            let mut p: usize = 0;
            while p < r.len() && r[p].created_at > t
                invariant
                    p <= r@.len(),
                    sorted == lecture_views(r@),
                    forall|j: int| 0 <= j < p ==> r@[j].created_at > t,
                decreases r@.len() - p,
            {
                p = p + 1;
            }
            proof {
                lemma_slot(sorted, t as int, p as int);
            }
            r.insert(p, db.lectures[i].duplicate());
            assert(lecture_views(r@) =~= sorted.insert(p as int, db.lectures@[i as int]@));
        }
        i = i + 1;
    }
    assert(db.lectures@.subrange(0, db.lectures@.len() as int) =~= db.lectures@);
    r
}

} // verus!
