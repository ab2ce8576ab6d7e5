use vstd::prelude::*;

use crate::entities::{Course, CourseView, Lecture, LectureView, User, UserView};
use crate::errors::StoreError;

verus! {

/// The contents of the store: every user, course and lecture, in order of insertion.
pub struct DbModel {
    pub users: Seq<UserView>,
    pub courses: Seq<CourseView>,
    pub lectures: Seq<LectureView>,
}

/// `ids` with every occurrence of `s` taken out, the rest in order.
pub open spec fn without(ids: Seq<Seq<char>>, s: Seq<char>) -> Seq<Seq<char>>
    decreases ids.len(),
{
    if ids.len() == 0 {
        ids
    } else if ids.last() == s {
        without(ids.drop_last(), s)
    } else {
        without(ids.drop_last(), s).push(ids.last())
    }
}

/// The course after enrolling `s` when its natural key is `c`.
pub open spec fn course_enrolled(cv: CourseView, c: Seq<char>, s: Seq<char>) -> CourseView {
    if cv.course_id == c {
        CourseView { enrolled_ids: cv.enrolled_ids.push(s), ..cv }
    } else {
        cv
    }
}

/// The course after withdrawing `s` when its natural key is `c`.
pub open spec fn course_withdrawn(cv: CourseView, c: Seq<char>, s: Seq<char>) -> CourseView {
    if cv.course_id == c {
        CourseView { enrolled_ids: without(cv.enrolled_ids, s), ..cv }
    } else {
        cv
    }
}

impl DbModel {
    /// The store holding nothing.
    pub open spec fn empty() -> DbModel {
        DbModel { users: Seq::empty(), courses: Seq::empty(), lectures: Seq::empty() }
    }

    pub open spec fn has_user(self, name: Seq<char>) -> bool {
        exists|i: int| 0 <= i < self.users.len() && self.users[i].username == name
    }

    pub open spec fn has_course(self, c: Seq<char>) -> bool {
        exists|i: int| 0 <= i < self.courses.len() && self.courses[i].course_id == c
    }

    pub open spec fn has_lecture(self, l: Seq<char>) -> bool {
        exists|i: int| 0 <= i < self.lectures.len() && self.lectures[i].lecture_id == l
    }

    /// Natural keys are unique.
    pub open spec fn wf(self) -> bool {
        &&& forall|i: int, j: int|
            0 <= i < j < self.users.len() ==> self.users[i].username != self.users[j].username
        &&& forall|i: int, j: int|
            0 <= i < j < self.courses.len() ==> self.courses[i].course_id
                != self.courses[j].course_id
        &&& forall|i: int, j: int|
            0 <= i < j < self.lectures.len() ==> self.lectures[i].lecture_id
                != self.lectures[j].lecture_id
    }

    pub open spec fn with_user(self, u: UserView) -> DbModel {
        DbModel { users: self.users.push(u), ..self }
    }

    pub open spec fn with_course(self, c: CourseView) -> DbModel {
        DbModel { courses: self.courses.push(c), ..self }
    }

    pub open spec fn with_lecture(self, l: LectureView) -> DbModel {
        DbModel { lectures: self.lectures.push(l), ..self }
    }

    /// `s` appended to the enrolled list of the course keyed `c`.
    pub open spec fn enrolled(self, c: Seq<char>, s: Seq<char>) -> DbModel {
        DbModel { courses: self.courses.map_values(|cv: CourseView| course_enrolled(cv, c, s)), ..self }
    }

    /// Every occurrence of `s` removed from the enrolled list of the course keyed `c`.
    pub open spec fn withdrawn(self, c: Seq<char>, s: Seq<char>) -> DbModel {
        DbModel {
            courses: self.courses.map_values(|cv: CourseView| course_withdrawn(cv, c, s)),
            ..self
        }
    }
}

/// An in-memory relational store of users, courses and lectures.
///
/// Reads run against it directly; writes go through a `Transaction`, whose
/// effects become visible together when it commits, or not at all.
pub struct Database {
    pub(crate) users: Vec<User>,
    pub(crate) courses: Vec<Course>,
    pub(crate) lectures: Vec<Lecture>,
    pub(crate) version: u64,
}

impl View for Database {
    type V = DbModel;

    open(crate) spec fn view(&self) -> DbModel {
        DbModel {
            users: self.users@.map_values(|u: User| u@),
            courses: self.courses@.map_values(|c: Course| c@),
            lectures: self.lectures@.map_values(|l: Lecture| l@),
        }
    }
}

impl Database {
    /// The number of commits this store has taken, modulo 2^64.
    pub open(crate) spec fn stamp(&self) -> u64 {
        self.version
    }

    /// An empty store.
    pub fn new() -> (r: Database)
        ensures
            r@ == DbModel::empty(),
            r@.wf(),
    {
        let r = Database { users: Vec::new(), courses: Vec::new(), lectures: Vec::new(), version: 0 };
        assert(r@.users =~= Seq::<UserView>::empty());
        assert(r@.courses =~= Seq::<CourseView>::empty());
        assert(r@.lectures =~= Seq::<LectureView>::empty());
        r
    }

    /// A copy of the whole store.
    pub fn snapshot(&self) -> (r: Database)
        ensures
            r@ == self@,
            r.stamp() == self.stamp(),
    {
        let mut users: Vec<User> = Vec::new();
        let mut i: usize = 0;
        while i < self.users.len()
            invariant
                i <= self.users@.len(),
                users@.len() == i,
                forall|j: int| 0 <= j < i ==> users@[j]@ == self.users@[j]@,
            decreases self.users@.len() - i,
        {
            users.push(self.users[i].duplicate());
            i = i + 1;
        }
        let mut courses: Vec<Course> = Vec::new();
        let mut i: usize = 0;
        while i < self.courses.len()
            invariant
                i <= self.courses@.len(),
                courses@.len() == i,
                forall|j: int| 0 <= j < i ==> courses@[j]@ == self.courses@[j]@,
            decreases self.courses@.len() - i,
        {
            courses.push(self.courses[i].duplicate());
            i = i + 1;
        }
        let mut lectures: Vec<Lecture> = Vec::new();
        let mut i: usize = 0;
        while i < self.lectures.len()
            invariant
                i <= self.lectures@.len(),
                lectures@.len() == i,
                forall|j: int| 0 <= j < i ==> lectures@[j]@ == self.lectures@[j]@,
            decreases self.lectures@.len() - i,
        {
            lectures.push(self.lectures[i].duplicate());
            i = i + 1;
        }
        let r = Database { users, courses, lectures, version: self.version };
        assert(r@.users =~= self@.users);
        assert(r@.courses =~= self@.courses);
        assert(r@.lectures =~= self@.lectures);
        r
    }
}

/// A scope of writes against a `Database`.
///
/// Writes go to a private working copy. `commit` publishes them all at once;
/// dropping the transaction instead discards them, on every exit path.
pub struct Transaction {
    pub(crate) working: Database,
    pub(crate) base: u64,
}

impl View for Transaction {
    type V = DbModel;

    /// What the store will hold if this transaction commits.
    open(crate) spec fn view(&self) -> DbModel {
        self.working@
    }
}

impl Transaction {
    /// The stamp of the store when this transaction began.
    pub open(crate) spec fn base_stamp(&self) -> u64 {
        self.base
    }

    /// Opens a transaction on `db`.
    pub fn begin(db: &Database) -> (r: Transaction)
        ensures
            r@ == db@,
            r.base_stamp() == db.stamp(),
    {
        Transaction { working: db.snapshot(), base: db.version }
    }

    /// Publishes the writes of this transaction to `db`.
    ///
    /// Fails with `CommitConflict`, leaving `db` as it was, when another
    /// transaction has committed to `db` since this one began.
    pub fn commit(self, db: &mut Database) -> (r: Result<(), StoreError>)
        ensures
            r is Ok <==> old(db).stamp() == self.base_stamp(),
            r is Ok ==> final(db)@ == self@ && final(db).stamp() != old(db).stamp(),
            r matches Err(e) ==> e == StoreError::CommitConflict && *final(db) == *old(db),
    {
        if db.version != self.base {
            return Err(StoreError::CommitConflict);
        }
        let next: u64 = if self.base < u64::MAX {
            self.base + 1
        } else {
            0
        };
        let mut working = self.working;
        working.version = next;
        *db = working;
        Ok(())
    }
}

} // verus!
