use blackboard::entities::{
    AddCourseRequest, AddLectureRequest, EnrollRequest, GetAllEnrolledLecturesRequest, GetCoursesRequest,
    GetLecturesRequest, GetStudentCoursesRequest, RemoveStudentRequest, Role, SignInUserRequest, SignUpUserRequest,
    User,
};
use blackboard::errors::StoreError;
use blackboard::handlers::{
    accept_credentials, add_course, add_lecture, enroll_in_course, get_all_courses,
    get_all_enrolled_lectures, get_courses_by_professor, get_enrolled_courses, get_lectures_by_course,
    register_user, remove_student, signin, signup,
};
use blackboard::store::Database;

fn signin_req(user: &str, pw: &str) -> SignInUserRequest {
    SignInUserRequest { user_name: user.to_string(), password: pw.to_string() }
}

fn account(name: &str, digest: String) -> User {
    User {
        username: name.to_string(),
        password_hash: digest,
        name: "Alice".to_string(),
        student_id: "s-1".to_string(),
        role: Role::Student,
    }
}

#[test]
fn signup_then_signin_scenario() {
    let mut db = Database::new();
    let r = signup(
        &mut db,
        SignUpUserRequest {
            user_name: "alice".to_string(),
            password: "pw1".to_string(),
            name: "Alice".to_string(),
            student_id: "s-1".to_string(),
            role: Role::Student,
        },
    );
    assert!(r.error.is_none());
    assert_eq!(r.payload, Some("alice".to_string()));
    let ok = signin(&db, signin_req("alice", "pw1"));
    let u = ok.payload.unwrap();
    assert_eq!(u.username, "alice");
    assert_eq!(u.role, Role::Student);
    assert_ne!(u.password_hash, "pw1");
    let bad = signin(&db, signin_req("alice", "wrong"));
    assert_eq!(note(bad), "Invalid username or password");
}

fn note<P>(r: blackboard::response::ApiResponse<P>) -> String {
    assert!(r.payload.is_none());
    let e = r.error.unwrap();
    assert_eq!(e.code, "601");
    e.note.unwrap()
}

#[test]
fn wrong_password_is_authentication_failure_not_error() {
    let mut db = Database::new();
    let digest = bcrypt::hash("pw1", 4).unwrap();
    assert_eq!(register_user(&mut db, account("alice", digest)).payload, Some("alice".to_string()));
    let found = signin(&db, signin_req("alice", "pw1")).payload.unwrap();
    assert_eq!(found.username, "alice");
    assert_eq!(note(signin(&db, signin_req("alice", "wrong"))), "Invalid username or password");
    assert_eq!(note(signin(&db, signin_req("bob", "pw1"))), "User does not exist");
}

#[test]
fn corrupt_digest_is_an_error() {
    let mut db = Database::new();
    register_user(&mut db, account("alice", "garbage".to_string()));
    assert_eq!(
        note(signin(&db, signin_req("alice", "pw1"))),
        "Failed to check credentials: credential hashing failed"
    );
}

#[test]
fn duplicate_signup_is_refused() {
    let mut db = Database::new();
    let digest = bcrypt::hash("pw1", 4).unwrap();
    assert!(register_user(&mut db, account("alice", digest.clone())).error.is_none());
    let again = register_user(&mut db, account("alice", digest));
    assert_eq!(note(again), "Failed to sign up: duplicate key");
}

#[test]
fn accept_credentials_cases() {
    let u = || account("alice", "d".to_string());
    assert_eq!(accept_credentials(u(), Ok(true)).unwrap().unwrap().username, "alice");
    assert!(accept_credentials(u(), Ok(false)).unwrap().is_none());
    assert_eq!(accept_credentials(u(), Err(StoreError::Hashing)).err(), Some(StoreError::Hashing));
}

#[test]
fn course_and_lecture_handlers() {
    let mut db = Database::new();
    let add = |db: &mut Database, id: &str| {
        add_course(
            db,
            AddCourseRequest {
                professor_id: "prof".to_string(),
                course_id: id.to_string(),
                course_name: "Name".to_string(),
                enrolled_ids: vec![],
            },
        )
    };
    assert_eq!(add(&mut db, "cs101").payload, Some(1));
    assert_eq!(add(&mut db, "cs102").payload, Some(2));
    assert_eq!(note(add(&mut db, "cs101")), "Failed to add course: duplicate key");
    assert_eq!(get_all_courses(&db).payload.unwrap().len(), 2);
    assert_eq!(
        get_courses_by_professor(&db, GetCoursesRequest { professor_id: "prof".to_string() }).payload.unwrap().len(),
        2
    );
    let e = enroll_in_course(&mut db, EnrollRequest { course_id: "cs102".to_string(), student_id: "bob".to_string() });
    assert!(e.error.is_none());
    let mine = get_enrolled_courses(&db, GetStudentCoursesRequest { student_id: "bob".to_string() }).payload.unwrap();
    assert_eq!(mine.len(), 1);
    assert_eq!(mine[0].course_id, "cs102");
    let lecture = |id: &str| AddLectureRequest {
        lecture_id: id.to_string(),
        course_id: "cs102".to_string(),
        professor_id: "prof".to_string(),
        content: "text".to_string(),
    };
    assert_eq!(add_lecture(&mut db, lecture("L1"), 5).payload, Some("L1".to_string()));
    assert_eq!(add_lecture(&mut db, lecture("L2"), 9).payload, Some("L2".to_string()));
    assert_eq!(note(add_lecture(&mut db, lecture("L1"), 6)), "Failed to add lecture post: duplicate key");
    let posted = get_lectures_by_course(&db, GetLecturesRequest { course_id: "cs102".to_string() }).payload.unwrap();
    assert_eq!(posted.len(), 2);
    let seen =
        get_all_enrolled_lectures(&db, GetAllEnrolledLecturesRequest { student_id: "bob".to_string() }).payload.unwrap();
    assert_eq!(seen[0].lecture_id, "L2");
    assert_eq!(seen[1].lecture_id, "L1");
    let r = remove_student(&mut db, RemoveStudentRequest { course_id: "cs102".to_string(), student_id: "bob".to_string() });
    assert!(r.error.is_none());
    assert!(get_enrolled_courses(&db, GetStudentCoursesRequest { student_id: "bob".to_string() }).payload.unwrap().is_empty());
    assert!(get_all_enrolled_lectures(&db, GetAllEnrolledLecturesRequest { student_id: "bob".to_string() })
        .payload
        .unwrap()
        .is_empty());
}
