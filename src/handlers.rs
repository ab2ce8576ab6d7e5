use vstd::prelude::*;

use crate::courses::{
    attended_by, course_views, insert_course, insert_student_in_enrolled_ids, remove_student_from_enrolled_ids,
    select_all_courses, select_courses_by_professor_id, select_courses_by_student_id, taught_by, MAX_COURSE_ID,
};
use crate::credentials::{bcrypt_check, hash_password, verify_password};
use crate::entities::{
    texts, AddCourseRequest, AddLectureRequest, Course, CourseView, EnrollRequest, GetAllEnrolledLecturesRequest,
    GetCoursesRequest, GetLecturesRequest, GetStudentCoursesRequest, Lecture, LectureView, RemoveStudentRequest,
    SignInUserRequest, SignUpUserRequest, User, UserView,
};
use crate::errors::StoreError;
use crate::lectures::{
    insert_lecture, lecture_views, posted_to, select_lectures_by_course_id,
    select_lectures_by_enrolled_courses, stamped, visible_to,
};
use crate::response::ApiResponse;
use crate::store::{Database, Transaction};
use crate::users::{insert_user, select_user_by_username};

verus! {

/// Stores `user` as a new account, in a transaction of its own, and replies
/// with its username; a taken username is refused and nothing is written.
pub fn register_user(db: &mut Database, user: User) -> (r: ApiResponse<String>)
    requires
        old(db)@.wf(),
    ensures
        final(db)@.wf(),
        r.error is None <==> r.payload is Some,
        if old(db)@.has_user(user.username@) {
            r.fails_with("Failed to sign up: "@ + StoreError::ConstraintViolation.describe_spec())
                && final(db)@ == old(db)@
        } else {
            r.payload matches Some(n) && n@ == user.username@ && final(db)@ == old(db)@.with_user(user@)
        },
{
    let mut tx = Transaction::begin(db);
    match insert_user(&mut tx, &user) {
        Ok(name) => match tx.commit(db) {
            Ok(()) => ApiResponse::new_success(name),
            Err(e) => ApiResponse::from_failure("Failed to sign up: ", e),
        },
        Err(e) => ApiResponse::from_failure("Failed to sign up: ", e),
    }
}

/// Creates an account whose stored digest is a bcrypt hash of the password
/// in clear, and replies with its username. A taken username, or a failure
/// of the hashing backend, is refused and nothing is written.
pub fn signup(db: &mut Database, input: SignUpUserRequest) -> (r: ApiResponse<String>)
    requires
        old(db)@.wf(),
    ensures
        final(db)@.wf(),
        r.error is None <==> r.payload is Some,
        r.payload is None ==> final(db)@ == old(db)@,
        old(db)@.has_user(input.user_name@) ==> r.fails_with("Failed to hash password"@) || r.fails_with(
            "Failed to sign up: "@ + StoreError::ConstraintViolation.describe_spec(),
        ),
        !old(db)@.has_user(input.user_name@) && r.payload is None ==> r.fails_with("Failed to hash password"@),
        r.payload matches Some(n) ==> n@ == input.user_name@ && exists|h: Seq<char>|
            #[trigger] bcrypt_check(input.password@, h) == Some(true)
                && (forall|q: Seq<char>| (#[trigger] bcrypt_check(q, h)) is Some)
                && (input.password@.len() != 60 ==> h != input.password@)
                && final(db)@ == old(db)@.with_user(
                UserView {
                    username: input.user_name@,
                    password_hash: h,
                    name: input.name@,
                    student_id: input.student_id@,
                    role: input.role,
                },
            ),
{
    let hashed = match hash_password(input.password.as_str()) {
        Ok(h) => h,
        Err(_) => {
            return ApiResponse::new_error("Failed to hash password".to_owned());
        },
    };
    let ghost h = hashed@;
    let user = User {
        username: input.user_name,
        password_hash: hashed,
        name: input.name,
        student_id: input.student_id,
        role: input.role,
    };
    let r = register_user(db, user);
    assert(bcrypt_check(input.password@, h) == Some(true));
    r
}

/// Decides a sign-in from the account found and the outcome of checking the
/// password against its digest: a match admits the account, a mismatch is an
/// authentication failure (`Ok(None)`), a malformed digest is an error.
pub fn accept_credentials(user: User, verdict: Result<bool, StoreError>) -> (r: Result<Option<User>, StoreError>)
    ensures
        match verdict {
            Ok(m) => if m {
                r == Ok::<Option<User>, StoreError>(Some(user))
            } else {
                r == Ok::<Option<User>, StoreError>(None)
            },
            Err(e) => r == Err::<Option<User>, StoreError>(e),
        },
{
    match verdict {
        Ok(m) => if m {
            Ok(Some(user))
        } else {
            Ok(None)
        },
        Err(e) => Err(e),
    }
}

/// Replies with the account when the password matches its digest. An unknown
/// username, a wrong password (an authentication failure) and a malformed
/// stored digest (an error) each give a failure reply with its own note.
pub fn signin(db: &Database, input: SignInUserRequest) -> (r: ApiResponse<User>)
    requires
        db@.wf(),
    ensures
        r.error is None <==> r.payload is Some,
        !db@.has_user(input.user_name@) ==> r.fails_with("User does not exist"@),
        forall|i: int|
            0 <= i < db@.users.len() && (#[trigger] db@.users[i]).username == input.user_name@ ==> match bcrypt_check(
                input.password@,
                db@.users[i].password_hash,
            ) {
                Some(m) => if m {
                    r.payload matches Some(u) && u@ == db@.users[i]
                } else {
                    r.fails_with("Invalid username or password"@)
                },
                None => r.fails_with("Failed to check credentials: "@ + StoreError::Hashing.describe_spec()),
            },
{
    match select_user_by_username(db, &input.user_name) {
        None => ApiResponse::new_error("User does not exist".to_owned()),
        Some(user) => {
            let verdict = verify_password(input.password.as_str(), user.password_hash.as_str());
            let ghost found = user@;
            assert forall|i: int|
                0 <= i < db@.users.len() && (#[trigger] db@.users[i]).username == input.user_name@ implies db@.users[i]
                    == found by {
                let k = choose|k: int| 0 <= k < db@.users.len() && db@.users[k] == found;
                if k != i {
                    if k < i {
                        assert(db@.users[k].username != db@.users[i].username);
                    } else {
                        assert(db@.users[i].username != db@.users[k].username);
                    }
                }
            }
            match accept_credentials(user, verdict) {
                Ok(Some(u)) => ApiResponse::new_success(u),
                Ok(None) => ApiResponse::new_error("Invalid username or password".to_owned()),
                Err(e) => ApiResponse::from_failure("Failed to check credentials: ", e),
            }
        },
    }
}

/// The course a request to add one describes.
pub open spec fn requested_course(input: AddCourseRequest) -> CourseView {
    CourseView {
        professor_id: input.professor_id@,
        course_id: input.course_id@,
        course_name: input.course_name@,
        enrolled_ids: texts(input.enrolled_ids@),
    }
}

/// Creates a course, in a transaction of its own, and replies with its
/// surrogate identifier; a taken `course_id` is refused and nothing is written.
pub fn add_course(db: &mut Database, input: AddCourseRequest) -> (r: ApiResponse<i64>)
    requires
        old(db)@.wf(),
    ensures
        final(db)@.wf(),
        r.error is None <==> r.payload is Some,
        if !old(db)@.has_course(input.course_id@) && old(db)@.courses.len() < MAX_COURSE_ID {
            r.payload == Some((old(db)@.courses.len() + 1) as i64) && final(db)@ == old(db)@.with_course(
                requested_course(input),
            )
        } else {
            final(db)@ == old(db)@ && if old(db)@.has_course(input.course_id@) {
                r.fails_with("Failed to add course: "@ + StoreError::ConstraintViolation.describe_spec())
            } else {
                r.fails_with("Failed to add course: "@ + StoreError::CapacityExceeded.describe_spec())
            }
        },
{
    let course = Course {
        professor_id: input.professor_id,
        course_id: input.course_id,
        course_name: input.course_name,
        enrolled_ids: input.enrolled_ids,
    };
    let mut tx = Transaction::begin(db);
    match insert_course(&mut tx, &course) {
        Ok(id) => match tx.commit(db) {
            Ok(()) => ApiResponse::new_success(id),
            Err(e) => ApiResponse::from_failure("Failed to add course: ", e),
        },
        Err(e) => ApiResponse::from_failure("Failed to add course: ", e),
    }
}

/// Replies with the courses owned by the given professor.
pub fn get_courses_by_professor(db: &Database, input: GetCoursesRequest) -> (r: ApiResponse<Vec<Course>>)
    ensures
        r.error is None,
        r.payload matches Some(v) && course_views(v@) == taught_by(db@.courses, input.professor_id@),
{
    ApiResponse::new_success(select_courses_by_professor_id(db, &input.professor_id))
}

/// Replies with every course.
pub fn get_all_courses(db: &Database) -> (r: ApiResponse<Vec<Course>>)
    ensures
        r.error is None,
        r.payload matches Some(v) && course_views(v@) == db@.courses,
{
    ApiResponse::new_success(select_all_courses(db))
}

/// Appends the student to the course's enrolled list, in a transaction of its own.
pub fn enroll_in_course(db: &mut Database, input: EnrollRequest) -> (r: ApiResponse<()>)
    requires
        old(db)@.wf(),
    ensures
        final(db)@.wf(),
        r.error is None && r.payload is Some,
        final(db)@ == old(db)@.enrolled(input.course_id@, input.student_id@),
{
    let mut tx = Transaction::begin(db);
    insert_student_in_enrolled_ids(&mut tx, &input.course_id, &input.student_id);
    match tx.commit(db) {
        Ok(()) => ApiResponse::new_success(()),
        Err(e) => ApiResponse::from_failure("Failed to enroll in course: ", e),
    }
}

/// Replies with the courses the student is enrolled in.
pub fn get_enrolled_courses(db: &Database, input: GetStudentCoursesRequest) -> (r: ApiResponse<Vec<Course>>)
    ensures
        r.error is None,
        r.payload matches Some(v) && course_views(v@) == attended_by(db@.courses, input.student_id@),
{
    ApiResponse::new_success(select_courses_by_student_id(db, &input.student_id))
}

/// Removes every entry of the student from the course's enrolled list, in a
/// transaction of its own.
pub fn remove_student(db: &mut Database, input: RemoveStudentRequest) -> (r: ApiResponse<()>)
    requires
        old(db)@.wf(),
    ensures
        final(db)@.wf(),
        r.error is None && r.payload is Some,
        final(db)@ == old(db)@.withdrawn(input.course_id@, input.student_id@),
{
    let mut tx = Transaction::begin(db);
    remove_student_from_enrolled_ids(&mut tx, &input.course_id, &input.student_id);
    match tx.commit(db) {
        Ok(()) => ApiResponse::new_success(()),
        Err(e) => ApiResponse::from_failure("Failed to remove student from course: ", e),
    }
}

/// The lecture a request to add one describes, stored at time `t`.
pub open spec fn requested_lecture(input: AddLectureRequest, t: int) -> LectureView {
    LectureView {
        lecture_id: input.lecture_id@,
        course_id: input.course_id@,
        professor_id: input.professor_id@,
        content: input.content@,
        created_at: t,
    }
}

/// Posts a lecture stamped `created_at`, in a transaction of its own, and
/// replies with its `lecture_id`; a taken `lecture_id` is refused and nothing is written.
pub fn add_lecture(db: &mut Database, input: AddLectureRequest, created_at: i64) -> (r: ApiResponse<String>)
    requires
        old(db)@.wf(),
    ensures
        final(db)@.wf(),
        r.error is None <==> r.payload is Some,
        if old(db)@.has_lecture(input.lecture_id@) {
            r.fails_with("Failed to add lecture post: "@ + StoreError::ConstraintViolation.describe_spec())
                && final(db)@ == old(db)@
        } else {
            r.payload matches Some(id) && id@ == input.lecture_id@ && final(db)@ == old(db)@.with_lecture(
                requested_lecture(input, created_at as int),
            )
        },
{
    let lecture = Lecture {
        lecture_id: input.lecture_id,
        course_id: input.course_id,
        professor_id: input.professor_id,
        content: input.content,
        created_at,
    };
    let mut tx = Transaction::begin(db);
    let r = match insert_lecture(&mut tx, &lecture, created_at) {
        Ok(id) => match tx.commit(db) {
            Ok(()) => ApiResponse::new_success(id),
            Err(e) => ApiResponse::from_failure("Failed to add lecture post: ", e),
        },
        Err(e) => ApiResponse::from_failure("Failed to add lecture post: ", e),
    };
    assert(stamped(lecture@, created_at as int) == requested_lecture(input, created_at as int));
    r
}

/// Replies with the lectures posted to the course.
pub fn get_lectures_by_course(db: &Database, input: GetLecturesRequest) -> (r: ApiResponse<Vec<Lecture>>)
    ensures
        r.error is None,
        r.payload matches Some(v) && lecture_views(v@) == posted_to(db@.lectures, input.course_id@),
{
    ApiResponse::new_success(select_lectures_by_course_id(db, &input.course_id))
}

/// Replies with every lecture of the student's courses, most recent first.
pub fn get_all_enrolled_lectures(db: &Database, input: GetAllEnrolledLecturesRequest) -> (r: ApiResponse<
    Vec<Lecture>,
>)
    ensures
        r.error is None,
        r.payload matches Some(v) && lecture_views(v@) == visible_to(db@.lectures, db@.courses, input.student_id@),
{
    ApiResponse::new_success(select_lectures_by_enrolled_courses(db, &input.student_id))
}

} // verus!
