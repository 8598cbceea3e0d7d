//! What the service asks of the database, and what it makes of the answers.
//! The queries themselves run outside; every function here takes the outcome
//! of one, with the text of the failure where it failed.

pub mod functionality;
pub mod user;

use vstd::prelude::*;
use crate::errors::{failure, Auth, Error, ErrorTypes};

pub use functionality::{
    collect_student, db_get_student, db_insert_new_student, insert_courses, CoursesInsert,
};
pub use user::{db_add_user, db_find_user, user_login, NewUser};

verus! {

/// The queries of the service.
#[derive(Debug, Clone, Copy, PartialEq, Eq, Structural)]
pub enum Query {
    /// One student by its identifier.
    FindStudent,
    /// All students.
    AllStudents,
    /// The courses of one student.
    FindCourses,
    /// Remove the courses of a student that is removed.
    DeleteStudentCourses,
    /// Remove one student.
    DeleteStudent,
    /// Store a new student.
    InsertStudent,
    /// Store the changes to a student.
    UpdateStudent,
    /// Remove the courses of a student before they are replaced.
    DeleteCourses,
    /// Store the courses of a student.
    InsertCourses,
    /// Whether a user with this name or address is there.
    UserExists,
    /// Store a new user.
    InsertUser,
    /// One user by its identifier.
    FindUser,
    /// One user by its e-mail address, to log in.
    FindLogin,
}

/// What a client is told where a query fails.
pub open spec fn failure_message(query: Query) -> Seq<char> {
    match query {
        Query::FindStudent => "Can not find student with the provided id"@,
        Query::AllStudents => "Can not get all students from db"@,
        Query::FindCourses => "Can not find student's courses"@,
        Query::DeleteStudentCourses => "Can not find student with the provided id"@,
        Query::DeleteStudent => "Can not find student with the provided id"@,
        Query::InsertStudent => "Can not insert the student to db"@,
        Query::UpdateStudent => "Can not set new studet's data to db"@,
        Query::DeleteCourses => "Can not delete student's courses"@,
        Query::InsertCourses => "Can not insert new student's courses"@,
        Query::UserExists => "Query error"@,
        Query::InsertUser => "Can not insert new user"@,
        Query::FindUser => "User doesn't exist"@,
        Query::FindLogin => "Invalid password or email"@,
    }
}

/// The statement of a query, with `$1`, `$2` and so on where its values go.
/// The statement that stores courses is made for the number of courses at
/// hand, so here it has none.
pub open spec fn statement_text(query: Query) -> Option<Seq<char>> {
    match query {
        Query::FindStudent => Some("select * from students where id=$1"@),
        Query::AllStudents => Some("select * from students"@),
        Query::FindCourses => Some("select course_name from courses where student_id=$1"@),
        Query::DeleteStudentCourses => Some("delete from courses where student_id = $1;"@),
        Query::DeleteStudent => Some("delete from students where id=$1;"@),
        Query::InsertStudent => Some(
            "insert into students (id, full_name, age, registration_date, email, img) values ($1, $2, $3, $4, $5, $6);"@,
        ),
        Query::UpdateStudent => Some("update students set email=$1, age=$2 where id=$3;"@),
        Query::DeleteCourses => Some("delete from courses where student_id=$1;"@),
        Query::InsertCourses => None,
        Query::UserExists => Some(
            "select exists(select 1 from users where email = $1 or username=$2)"@,
        ),
        Query::InsertUser => Some(
            "INSERT INTO users (username,email,password_hash) VALUES ($1, $2, $3) RETURNING *"@,
        ),
        Query::FindUser => Some("select * from users where id=$1;"@),
        Query::FindLogin => Some("select * from users where email = $1"@),
    }
}

/// A statement, by its view.
pub open spec fn statement_view(statement: Option<&'static str>) -> Option<Seq<char>> {
    match statement {
        Some(text) => Some(text@),
        None => None,
    }
}

/// The kind of failure that a failed query counts as: a user that is not
/// found is missing, a login that finds nobody is not authenticated, and
/// every other failure is the database's.
pub open spec fn failure_kind(query: Query) -> ErrorTypes {
    match query {
        Query::FindUser => ErrorTypes::NotFoundError,
        Query::FindLogin => ErrorTypes::Auth(Auth::Authentication),
        _ => ErrorTypes::DbError,
    }
}

impl Query {
    /// What a client is told where this query fails.
    pub fn message(&self) -> (r: &'static str)
        ensures
            r@ == failure_message(*self),
    {
        match self {
            Query::FindStudent => "Can not find student with the provided id",
            Query::AllStudents => "Can not get all students from db",
            Query::FindCourses => "Can not find student's courses",
            Query::DeleteStudentCourses => "Can not find student with the provided id",
            Query::DeleteStudent => "Can not find student with the provided id",
            Query::InsertStudent => "Can not insert the student to db",
            Query::UpdateStudent => "Can not set new studet's data to db",
            Query::DeleteCourses => "Can not delete student's courses",
            Query::InsertCourses => "Can not insert new student's courses",
            Query::UserExists => "Query error",
            Query::InsertUser => "Can not insert new user",
            Query::FindUser => "User doesn't exist",
            Query::FindLogin => "Invalid password or email",
        }
    }

    /// The statement of this query, where it has a fixed one.
    pub fn statement(&self) -> (r: Option<&'static str>)
        ensures
            statement_view(r) == statement_text(*self),
    {
        match self {
            Query::FindStudent => Some("select * from students where id=$1"),
            Query::AllStudents => Some("select * from students"),
            Query::FindCourses => Some("select course_name from courses where student_id=$1"),
            Query::DeleteStudentCourses => Some("delete from courses where student_id = $1;"),
            Query::DeleteStudent => Some("delete from students where id=$1;"),
            Query::InsertStudent => Some(
                "insert into students (id, full_name, age, registration_date, email, img) values ($1, $2, $3, $4, $5, $6);",
            ),
            Query::UpdateStudent => Some("update students set email=$1, age=$2 where id=$3;"),
            Query::DeleteCourses => Some("delete from courses where student_id=$1;"),
            Query::InsertCourses => None,
            Query::UserExists => Some(
                "select exists(select 1 from users where email = $1 or username=$2)",
            ),
            Query::InsertUser => Some(
                "INSERT INTO users (username,email,password_hash) VALUES ($1, $2, $3) RETURNING *",
            ),
            Query::FindUser => Some("select * from users where id=$1;"),
            Query::FindLogin => Some("select * from users where email = $1"),
        }
    }

    /// The kind of failure that this query counts as where it fails.
    pub fn error_type(&self) -> (r: ErrorTypes)
        ensures
            r == failure_kind(*self),
    {
        match self {
            Query::FindUser => ErrorTypes::NotFoundError,
            Query::FindLogin => ErrorTypes::Auth(Auth::Authentication),
            _ => ErrorTypes::DbError,
        }
    }

    /// What the service makes of the outcome of this query: the answer as it
    /// is, or the failure under the message and the kind of the query, with
    /// the text of the database as its cause.
    pub fn outcome<T>(&self, outcome: Result<T, String>) -> (r: Result<T, Error>)
        ensures
            match outcome {
                Ok(answer) => r matches Ok(kept) && kept == answer,
                Err(cause) => r matches Err(e) && e@ == failure(
                    Some(cause@),
                    failure_message(*self),
                    failure_kind(*self),
                ),
            },
    {
        Error::describe(outcome, self.message(), self.error_type())
    }
}

} // verus!
