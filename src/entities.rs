use vstd::prelude::*;

use crate::errors::StoreError;

verus! {

/// The two kinds of account.
#[derive(Clone, Copy, Debug, PartialEq, Eq, Structural)]
pub enum Role {
    Professor,
    Student,
}

/// The tag under which a role is stored.
pub open spec fn role_tag(r: Role) -> Seq<char> {
    match r {
        Role::Professor => "professor"@,
        Role::Student => "student"@,
    }
}

impl Role {
    /// The stored tag of this role.
    pub fn to_string(&self) -> (r: &'static str)
        ensures
            r@ == role_tag(*self),
    {
        match self {
            Role::Professor => "professor",
            Role::Student => "student",
        }
    }

    /// Reads a stored tag back; any other text is an `UnknownRole` failure.
    pub fn from_str(s: &str) -> (r: Result<Role, StoreError>)
        ensures
            match r {
                Ok(role) => role_tag(role) == s@,
                Err(e) => e == StoreError::UnknownRole && s@ != role_tag(Role::Professor)
                    && s@ != role_tag(Role::Student),
            },
    {
        let text = s.to_owned();
        let professor = "professor".to_owned();
        let student = "student".to_owned();
        if text == professor {
            Ok(Role::Professor)
        } else if text == student {
            Ok(Role::Student)
        } else {
            Err(StoreError::UnknownRole)
        }
    }
}

/// The text of each string in a list.
pub open spec fn texts(v: Seq<String>) -> Seq<Seq<char>> {
    v.map_values(|x: String| x@)
}

/// A copy of a list of strings.
pub fn copy_strings(v: &Vec<String>) -> (r: Vec<String>)
    ensures
        texts(r@) == texts(v@),
{
    let mut r: Vec<String> = Vec::new();
    let mut i: usize = 0;
    while i < v.len()
        invariant
            i <= v@.len(),
            r@.len() == i,
            forall|j: int| 0 <= j < i ==> r@[j]@ == v@[j]@,
        decreases v@.len() - i,
    {
        r.push(v[i].clone());
        i = i + 1;
    }
    assert(texts(r@) =~= texts(v@));
    r
}

/// An account. Usernames are unique across the store.
#[derive(Clone, Debug)]
pub struct User {
    pub username: String,
    pub password_hash: String,
    pub name: String,
    pub student_id: String,
    pub role: Role,
}

/// The contents of a `User`.
pub struct UserView {
    pub username: Seq<char>,
    pub password_hash: Seq<char>,
    pub name: Seq<char>,
    pub student_id: Seq<char>,
    pub role: Role,
}

impl View for User {
    type V = UserView;

    open spec fn view(&self) -> UserView {
        UserView {
            username: self.username@,
            password_hash: self.password_hash@,
            name: self.name@,
            student_id: self.student_id@,
            role: self.role,
        }
    }
}

impl User {
    /// A copy of this account.
    pub fn duplicate(&self) -> (r: User)
        ensures
            r@ == self@,
    {
        User {
            username: self.username.clone(),
            password_hash: self.password_hash.clone(),
            name: self.name.clone(),
            student_id: self.student_id.clone(),
            role: self.role,
        }
    }
}

/// A course, with the usernames of its enrolled students in order of enrollment.
#[derive(Clone, Debug)]
pub struct Course {
    pub professor_id: String,
    pub course_id: String,
    pub course_name: String,
    pub enrolled_ids: Vec<String>,
}

/// The contents of a `Course`.
pub struct CourseView {
    pub professor_id: Seq<char>,
    pub course_id: Seq<char>,
    pub course_name: Seq<char>,
    pub enrolled_ids: Seq<Seq<char>>,
}

impl View for Course {
    type V = CourseView;

    open spec fn view(&self) -> CourseView {
        CourseView {
            professor_id: self.professor_id@,
            course_id: self.course_id@,
            course_name: self.course_name@,
            enrolled_ids: texts(self.enrolled_ids@),
        }
    }
}

impl Course {
    /// A copy of this course.
    pub fn duplicate(&self) -> (r: Course)
        ensures
            r@ == self@,
    {
        Course {
            professor_id: self.professor_id.clone(),
            course_id: self.course_id.clone(),
            course_name: self.course_name.clone(),
            enrolled_ids: copy_strings(&self.enrolled_ids),
        }
    }
}

/// A piece of lecture content posted to a course. `created_at` is the
/// store's clock at insertion, in milliseconds since the Unix epoch.
#[derive(Clone, Debug)]
pub struct Lecture {
    pub lecture_id: String,
    pub course_id: String,
    pub professor_id: String,
    pub content: String,
    pub created_at: i64,
}

/// The contents of a `Lecture`.
pub struct LectureView {
    pub lecture_id: Seq<char>,
    pub course_id: Seq<char>,
    pub professor_id: Seq<char>,
    pub content: Seq<char>,
    pub created_at: int,
}

impl View for Lecture {
    type V = LectureView;

    open spec fn view(&self) -> LectureView {
        LectureView {
            lecture_id: self.lecture_id@,
            course_id: self.course_id@,
            professor_id: self.professor_id@,
            content: self.content@,
            created_at: self.created_at as int,
        }
    }
}

impl Lecture {
    /// A copy of this lecture.
    pub fn duplicate(&self) -> (r: Lecture)
        ensures
            r@ == self@,
    {
        Lecture {
            lecture_id: self.lecture_id.clone(),
            course_id: self.course_id.clone(),
            professor_id: self.professor_id.clone(),
            content: self.content.clone(),
            created_at: self.created_at,
        }
    }
}

/// Asks to create an account with the given password in clear.
pub struct SignUpUserRequest {
    pub user_name: String,
    pub password: String,
    pub name: String,
    pub student_id: String,
    pub role: Role,
}

/// Asks to sign in with a username and a password in clear.
pub struct SignInUserRequest {
    pub user_name: String,
    pub password: String,
}

/// Asks to create a course.
pub struct AddCourseRequest {
    pub professor_id: String,
    pub course_id: String,
    pub course_name: String,
    pub enrolled_ids: Vec<String>,
}

/// Asks for the courses of a professor.
pub struct GetCoursesRequest {
    pub professor_id: String,
}

/// Asks to enroll a student in a course.
pub struct EnrollRequest {
    pub course_id: String,
    pub student_id: String,
}

/// Asks for the courses a student is enrolled in.
pub struct GetStudentCoursesRequest {
    pub student_id: String,
}

/// Asks to withdraw a student from a course.
pub struct RemoveStudentRequest {
    pub course_id: String,
    pub student_id: String,
}

/// Asks to post lecture content to a course.
pub struct AddLectureRequest {
    pub lecture_id: String,
    pub course_id: String,
    pub professor_id: String,
    pub content: String,
}

/// Asks for the lectures of a course.
pub struct GetLecturesRequest {
    pub course_id: String,
}

/// Asks for every lecture visible to a student.
pub struct GetAllEnrolledLecturesRequest {
    pub student_id: String,
}

} // verus!
