use blackboard::courses::{
    insert_course, insert_student_in_enrolled_ids, remove_student_from_enrolled_ids, select_all_courses,
    select_courses_by_professor_id, select_courses_by_student_id,
};
use blackboard::entities::{Course, Lecture, Role, User};
use blackboard::errors::StoreError;
use blackboard::lectures::{
    insert_lecture, select_lectures_by_course_id, select_lectures_by_enrolled_courses,
};
use blackboard::store::{Database, Transaction};
use blackboard::users::{insert_user, select_user_by_username};

fn user(name: &str) -> User {
    User {
        username: name.to_string(),
        password_hash: "digest".to_string(),
        name: format!("{} display", name),
        student_id: format!("{}-id", name),
        role: Role::Student,
    }
}

fn course(id: &str, professor: &str) -> Course {
    Course {
        professor_id: professor.to_string(),
        course_id: id.to_string(),
        course_name: format!("{} name", id),
        enrolled_ids: vec![],
    }
}

fn lecture(id: &str, course_id: &str) -> Lecture {
    Lecture {
        lecture_id: id.to_string(),
        course_id: course_id.to_string(),
        professor_id: "prof".to_string(),
        content: format!("content of {}", id),
        created_at: 0,
    }
}

fn with_course(db: &mut Database, id: &str) {
    let mut tx = Transaction::begin(db);
    insert_course(&mut tx, &course(id, "prof")).unwrap();
    tx.commit(db).unwrap();
}

fn enroll(db: &mut Database, c: &str, s: &str) {
    let mut tx = Transaction::begin(db);
    insert_student_in_enrolled_ids(&mut tx, &c.to_string(), &s.to_string());
    tx.commit(db).unwrap();
}

#[test]
fn insert_user_twice_is_refused_the_second_time() {
    let mut db = Database::new();
    let mut tx = Transaction::begin(&db);
    assert_eq!(insert_user(&mut tx, &user("alice")), Ok("alice".to_string()));
    let mut other = user("alice");
    other.name = "someone else".to_string();
    assert_eq!(insert_user(&mut tx, &other), Err(StoreError::ConstraintViolation));
    tx.commit(&mut db).unwrap();
    let stored = select_user_by_username(&db, &"alice".to_string()).unwrap();
    assert_eq!(stored.name, "alice display");
}

#[test]
fn select_missing_user_is_none() {
    let db = Database::new();
    assert!(select_user_by_username(&db, &"nobody".to_string()).is_none());
}

#[test]
fn insert_course_twice_is_refused_the_second_time() {
    let db = Database::new();
    let mut tx = Transaction::begin(&db);
    assert_eq!(insert_course(&mut tx, &course("cs101", "prof")), Ok(1));
    assert_eq!(insert_course(&mut tx, &course("cs101", "other")), Err(StoreError::ConstraintViolation));
    assert_eq!(insert_course(&mut tx, &course("cs102", "prof")), Ok(2));
}

#[test]
fn enroll_then_courses_of_student_include_it() {
    let mut db = Database::new();
    with_course(&mut db, "cs101");
    with_course(&mut db, "cs102");
    enroll(&mut db, "cs101", "bob");
    let courses = select_courses_by_student_id(&db, &"bob".to_string());
    assert_eq!(courses.len(), 1);
    assert_eq!(courses[0].course_id, "cs101");
    assert_eq!(courses[0].enrolled_ids, vec!["bob".to_string()]);
}

#[test]
fn enroll_then_withdraw_excludes_course() {
    let mut db = Database::new();
    with_course(&mut db, "cs101");
    enroll(&mut db, "cs101", "bob");
    enroll(&mut db, "cs101", "carol");
    let mut tx = Transaction::begin(&db);
    remove_student_from_enrolled_ids(&mut tx, &"cs101".to_string(), &"bob".to_string());
    tx.commit(&mut db).unwrap();
    assert!(select_courses_by_student_id(&db, &"bob".to_string()).is_empty());
    let all = select_all_courses(&db);
    assert_eq!(all[0].enrolled_ids, vec!["carol".to_string()]);
}

#[test]
fn enroll_twice_keeps_duplicate_and_withdraw_removes_all() {
    let mut db = Database::new();
    with_course(&mut db, "cs101");
    enroll(&mut db, "cs101", "bob");
    enroll(&mut db, "cs101", "bob");
    let all = select_all_courses(&db);
    assert_eq!(all[0].enrolled_ids, vec!["bob".to_string(), "bob".to_string()]);
    let mut tx = Transaction::begin(&db);
    remove_student_from_enrolled_ids(&mut tx, &"cs101".to_string(), &"bob".to_string());
    tx.commit(&mut db).unwrap();
    assert!(select_all_courses(&db)[0].enrolled_ids.is_empty());
}

#[test]
fn enroll_in_missing_course_changes_nothing() {
    let mut db = Database::new();
    with_course(&mut db, "cs101");
    enroll(&mut db, "cs999", "bob");
    assert!(select_courses_by_student_id(&db, &"bob".to_string()).is_empty());
    assert!(select_all_courses(&db)[0].enrolled_ids.is_empty());
}

#[test]
fn concurrent_enrollments_second_commit_conflicts() {
    let mut db = Database::new();
    with_course(&mut db, "cs101");
    let mut first = Transaction::begin(&db);
    let mut second = Transaction::begin(&db);
    insert_student_in_enrolled_ids(&mut first, &"cs101".to_string(), &"bob".to_string());
    insert_student_in_enrolled_ids(&mut second, &"cs101".to_string(), &"bob".to_string());
    assert_eq!(first.commit(&mut db), Ok(()));
    assert_eq!(second.commit(&mut db), Err(StoreError::CommitConflict));
    assert_eq!(select_all_courses(&db)[0].enrolled_ids, vec!["bob".to_string()]);
}

#[test]
fn dropped_transaction_writes_nothing() {
    let db = Database::new();
    {
        let mut tx = Transaction::begin(&db);
        insert_user(&mut tx, &user("alice")).unwrap();
    }
    assert!(select_user_by_username(&db, &"alice".to_string()).is_none());
}

#[test]
fn courses_by_professor_in_insertion_order() {
    let db = Database::new();
    let mut tx = Transaction::begin(&db);
    insert_course(&mut tx, &course("a", "p1")).unwrap();
    insert_course(&mut tx, &course("b", "p2")).unwrap();
    insert_course(&mut tx, &course("c", "p1")).unwrap();
    let mut db = Database::new();
    tx.commit(&mut db).unwrap();
    let ids: Vec<String> =
        select_courses_by_professor_id(&db, &"p1".to_string()).into_iter().map(|c| c.course_id).collect();
    assert_eq!(ids, vec!["a".to_string(), "c".to_string()]);
}

#[test]
fn enrolled_lectures_most_recent_first() {
    let mut db = Database::new();
    with_course(&mut db, "cs101");
    enroll(&mut db, "cs101", "bob");
    let mut tx = Transaction::begin(&db);
    insert_lecture(&mut tx, &lecture("L1", "cs101"), 1).unwrap();
    insert_lecture(&mut tx, &lecture("L2", "cs101"), 2).unwrap();
    insert_lecture(&mut tx, &lecture("L3", "cs101"), 3).unwrap();
    tx.commit(&mut db).unwrap();
    let ids: Vec<String> = select_lectures_by_enrolled_courses(&db, &"bob".to_string())
        .into_iter()
        .map(|l| l.lecture_id)
        .collect();
    assert_eq!(ids, vec!["L3".to_string(), "L2".to_string(), "L1".to_string()]);
}

#[test]
fn enrolled_lectures_sorted_regardless_of_insertion_order() {
    let mut db = Database::new();
    with_course(&mut db, "cs101");
    with_course(&mut db, "cs102");
    with_course(&mut db, "cs103");
    enroll(&mut db, "cs101", "bob");
    enroll(&mut db, "cs102", "bob");
    let mut tx = Transaction::begin(&db);
    insert_lecture(&mut tx, &lecture("a", "cs101"), 20).unwrap();
    insert_lecture(&mut tx, &lecture("b", "cs103"), 50).unwrap();
    insert_lecture(&mut tx, &lecture("c", "cs102"), 40).unwrap();
    insert_lecture(&mut tx, &lecture("d", "cs101"), 10).unwrap();
    insert_lecture(&mut tx, &lecture("e", "cs102"), 20).unwrap();
    tx.commit(&mut db).unwrap();
    let got: Vec<(String, i64)> = select_lectures_by_enrolled_courses(&db, &"bob".to_string())
        .into_iter()
        .map(|l| (l.lecture_id, l.created_at))
        .collect();
    assert_eq!(
        got,
        vec![("c".to_string(), 40), ("e".to_string(), 20), ("a".to_string(), 20), ("d".to_string(), 10)]
    );
}

#[test]
fn lecture_keys_are_unique_and_stamped_by_store() {
    let db = Database::new();
    let mut tx = Transaction::begin(&db);
    let mut l = lecture("L1", "cs101");
    l.created_at = 99;
    assert_eq!(insert_lecture(&mut tx, &l, 7), Ok("L1".to_string()));
    assert_eq!(insert_lecture(&mut tx, &lecture("L1", "cs101"), 8), Err(StoreError::ConstraintViolation));
    assert_eq!(insert_lecture(&mut tx, &lecture("L2", "cs101"), 8), Ok("L2".to_string()));
    let mut db = Database::new();
    tx.commit(&mut db).unwrap();
    let got = select_lectures_by_course_id(&db, &"cs101".to_string());
    assert_eq!(got.len(), 2);
    assert_eq!(got[0].created_at, 7);
    assert_eq!(got[1].lecture_id, "L2");
    assert!(select_lectures_by_course_id(&db, &"other".to_string()).is_empty());
}
