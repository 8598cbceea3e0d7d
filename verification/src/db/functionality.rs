//! Students in the database: the record that is stored for a new student,
//! the record that is answered, and the statement that stores the courses
//! with the values that are bound to it.

use vstd::prelude::*;
use vstd::string::StringExecFns;
use vstd::utf8::encode_utf8;
use crate::app::avatar::{avatar_url, AvatarClient};
use crate::clock::now_utc;
use crate::db::{failure_kind, failure_message, Query};
use crate::errors::{failure, Error};
use crate::ids::random_uuid;
use crate::schemas::student::{full_student, AddStudent, FullStudent, Student};
use crate::text::{decimal, join, joined, texts_view, to_decimal_wide};

verus! {

/// How the statement that stores courses begins.
pub const INSERT_COURSES: &'static str = "INSERT INTO courses (student_id,course_name) values ";

/// What is stored for the courses of a student: a statement with a
/// placeholder for every value, and the values that are bound to it, the
/// student first and the courses after it, in their order.
#[derive(Debug, Clone)]
pub struct CoursesInsert {
    pub statement: String,
    pub student_id: u128,
    pub course_names: Vec<String>,
}

/// One row of the statement that stores courses, for the course at `index`,
/// counted from zero: the student is the first value that is bound, and the
/// course is the value two places after its index.
pub open spec fn course_row(index: nat) -> Seq<char> {
    "($1,$"@ + decimal(index + 2) + ")"@
}

/// The statement that stores `count` courses of one student: the beginning
/// and one row per course, with commas between the rows. It holds no value,
/// so it depends on nothing but the number of courses.
pub open spec fn insert_courses_statement(count: nat) -> Seq<char> {
    INSERT_COURSES@ + joined(Seq::new(count, |i: int| course_row(i as nat)), ","@)
}

/// What is stored for the courses of a student: nothing where there is no
/// course, and otherwise the statement for their number, with the student
/// and the courses, as they are, as the values to bind.
pub fn insert_courses(student_id: u128, courses: &Vec<String>) -> (r: Option<CoursesInsert>)
    ensures
        match r {
            None => courses@.len() == 0,
            Some(insert) => courses@.len() > 0 && insert.statement@ == insert_courses_statement(
                courses@.len(),
            ) && insert.student_id == student_id && texts_view(insert.course_names@)
                == texts_view(courses@),
        },
{
    if courses.len() == 0 {
        return None;
    }
    let mut rows: Vec<String> = Vec::new();
    let mut course_names: Vec<String> = Vec::new();
    let mut i: usize = 0;
    while i < courses.len()
        invariant
            i <= courses.len(),
            rows@.len() == i,
            course_names@.len() == i,
            forall|j: int| 0 <= j < i ==> rows@[j]@ == course_row(j as nat),
            forall|j: int| 0 <= j < i ==> course_names@[j]@ == courses@[j]@,
        decreases courses.len() - i,
    {
        let mut row = String::from_str("($1,$");
        let number = to_decimal_wide(i as u128 + 2);
        row.append(number.as_str());
        row.append(")");
        rows.push(row);
        course_names.push(courses[i].clone());
        i += 1;
    }
    assert(texts_view(rows@) =~= Seq::new(courses@.len(), |i: int| course_row(i as nat)));
    assert(texts_view(course_names@) =~= texts_view(courses@));
    let mut statement = String::from_str(INSERT_COURSES);
    let body = join(&rows, ",");
    statement.append(body.as_str());
    Some(CoursesInsert { statement, student_id, course_names })
}

/// The record of a new student with the given identifier, avatar and date
/// of registration.
pub fn enrolled(id: u128, data: AddStudent, img: String, registration_date: time::OffsetDateTime)
    -> (r: FullStudent)
    ensures
        r == (FullStudent {
            id,
            full_name: data.full_name,
            email: data.email,
            age: data.age,
            img,
            registration_date,
            courses: data.courses,
        }),
{
    FullStudent {
        id,
        full_name: data.full_name,
        email: data.email,
        age: data.age,
        img,
        registration_date,
        courses: data.courses,
    }
}

/// The record of a new student: what the client sent, with a fresh
/// identifier, the avatar of the e-mail address, and the present moment as
/// the date of registration.
pub fn db_insert_new_student(data: AddStudent, avatar_client: &AvatarClient) -> (r: FullStudent)
    ensures
        r.full_name == data.full_name,
        r.email == data.email,
        r.age == data.age,
        r.courses == data.courses,
        r.img@ == avatar_url(
            avatar_client.base_url@,
            encode_utf8(data.email@),
            avatar_client.default_img@,
        ),
{
    let img = avatar_client.send_request(data.email.as_str()).unwrap();
    enrolled(random_uuid(), data, img, now_utc())
}

/// The student that is answered: the stored record and, where they could be
/// read, its courses.
pub fn db_get_student(student: Student, courses: Result<Vec<String>, String>) -> (r: Result<
    FullStudent,
    Error,
>)
    ensures
        match courses {
            Ok(list) => r matches Ok(full) && full == full_student(student, list),
            Err(cause) => r matches Err(e) && e@ == failure(
                Some(cause@),
                failure_message(Query::FindCourses),
                failure_kind(Query::FindCourses),
            ),
        },
{
    match Query::FindCourses.outcome(courses) {
        Ok(list) => Ok(FullStudent::from_student(student, list)),
        Err(e) => Err(e),
    }
}

/// One step of answering all students: the next stored student joins those
/// that are answered where its courses could be read, and where not, they
/// stay as they are and the failure ends the answer.
pub fn collect_student(
    full_students: &mut Vec<FullStudent>,
    student: Student,
    courses: Result<Vec<String>, String>,
) -> (r: Result<(), Error>)
    ensures
        match courses {
            Ok(list) => r is Ok && final(full_students)@ == old(full_students)@.push(
                full_student(student, list),
            ),
            Err(cause) => r matches Err(e) && e@ == failure(
                Some(cause@),
                failure_message(Query::FindCourses),
                failure_kind(Query::FindCourses),
            ) && final(full_students)@ == old(full_students)@,
        },
{
    match db_get_student(student, courses) {
        Ok(full) => {
            full_students.push(full);
            Ok(())
        },
        Err(e) => Err(e),
    }
}

} // verus!
