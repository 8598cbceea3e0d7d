use zero2prod::app::{checked_data, delete_student, invalid_data, AvatarClient};
use zero2prod::db::functionality::enrolled;
use zero2prod::db::{db_get_student, db_insert_new_student, insert_courses, Query};
use zero2prod::errors::{Auth, ErrorTypes};
use zero2prod::schemas::{AddStudent, LoginUser, Student};

const STUDENT: u128 = 0xa1a2a3a4b1b2c1c2d1d2d3d4d5d6d7d8;

fn list(names: &[&str]) -> Vec<String> {
    names.iter().map(|n| n.to_string()).collect()
}

fn sent() -> AddStudent {
    AddStudent {
        full_name: "Name Surname".to_string(),
        email: "student@example.com".to_string(),
        age: 21,
        courses: list(&["math", "art"]),
    }
}

#[test]
fn statement_for_one_course() {
    let insert = insert_courses(STUDENT, &list(&["math"])).unwrap();
    assert_eq!(
        insert.statement,
        "INSERT INTO courses (student_id,course_name) values ($1,$2)"
    );
    assert_eq!(insert.student_id, STUDENT);
    assert_eq!(insert.course_names, list(&["math"]));
}

#[test]
fn statement_for_several_courses() {
    let insert = insert_courses(1, &list(&["math", "art", "cs101"])).unwrap();
    assert_eq!(
        insert.statement,
        "INSERT INTO courses (student_id,course_name) values ($1,$2),($1,$3),($1,$4)"
    );
    assert_eq!(insert.student_id, 1);
    assert_eq!(insert.course_names, list(&["math", "art", "cs101"]));
}

#[test]
fn nothing_is_stored_for_no_course() {
    assert!(insert_courses(STUDENT, &Vec::new()).is_none());
}

#[test]
fn statement_holds_no_course_name() {
    let hostile = list(&["ab'); delete from students; --", ""]);
    let plain = list(&["math", "art"]);
    let a = insert_courses(STUDENT, &hostile).unwrap();
    let b = insert_courses(0, &plain).unwrap();
    assert_eq!(a.statement, b.statement);
    assert_eq!(a.statement, "INSERT INTO courses (student_id,course_name) values ($1,$2),($1,$3)");
    assert!(!a.statement.contains('\''));
    assert_eq!(a.course_names, hostile);
}

#[test]
fn statement_numbers_its_placeholders_in_order() {
    let many: Vec<String> = (0..12).map(|i| format!("course{}", i)).collect();
    let insert = insert_courses(STUDENT, &many).unwrap();
    let mut expected = "INSERT INTO courses (student_id,course_name) values ".to_string();
    for i in 0..12 {
        if i > 0 {
            expected.push(',');
        }
        expected.push_str(&format!("($1,${})", i + 2));
    }
    assert_eq!(insert.statement, expected);
    assert!(insert.statement.ends_with("($1,$12),($1,$13)"));
    assert_eq!(insert.course_names, many);
}

#[test]
fn record_of_a_new_student() {
    let full = enrolled(STUDENT, sent(), "http://img".to_string(), time::OffsetDateTime::UNIX_EPOCH);
    assert_eq!(full.id, STUDENT);
    assert_eq!(full.full_name, "Name Surname");
    assert_eq!(full.email, "student@example.com");
    assert_eq!(full.age, 21);
    assert_eq!(full.img, "http://img");
    assert_eq!(full.registration_date, time::OffsetDateTime::UNIX_EPOCH);
    assert_eq!(full.courses, list(&["math", "art"]));
}

#[test]
fn new_student_gets_an_avatar_an_identifier_and_a_date() {
    let client = AvatarClient::new("http://avatars".to_string(), "none.png".to_string());
    let before = time::OffsetDateTime::now_utc();
    let first = db_insert_new_student(sent(), &client);
    let second = db_insert_new_student(sent(), &client);
    let after = time::OffsetDateTime::now_utc();
    assert_eq!(first.full_name, "Name Surname");
    assert_eq!(first.email, "student@example.com");
    assert_eq!(first.age, 21);
    assert_eq!(first.courses, list(&["math", "art"]));
    assert_eq!(first.img, "http://avatars/96d4a357e7137eb31491bab13f2fd01f?d=none.png");
    assert_ne!(first.id, second.id);
    assert!(before <= first.registration_date && first.registration_date <= after);
}

#[test]
fn answered_student_has_its_courses() {
    let stored = Student {
        id: STUDENT,
        full_name: "Name Surname".to_string(),
        email: "student@example.com".to_string(),
        age: 21,
        img: "http://img".to_string(),
        registration_date: time::OffsetDateTime::UNIX_EPOCH,
    };
    let full = db_get_student(stored.clone(), Ok(list(&["math"]))).unwrap();
    assert_eq!(full.id, STUDENT);
    assert_eq!(full.full_name, "Name Surname");
    assert_eq!(full.courses, list(&["math"]));
    let e = db_get_student(stored, Err("broken pipe".to_string())).unwrap_err();
    assert_eq!(e.cause.as_deref(), Some("broken pipe"));
    assert_eq!(e.message.as_deref(), Some("Can not find student's courses"));
    assert_eq!(e.error_type, ErrorTypes::DbError);
}

#[test]
fn messages_of_failed_queries() {
    let table = [
        (Query::FindStudent, "Can not find student with the provided id"),
        (Query::AllStudents, "Can not get all students from db"),
        (Query::FindCourses, "Can not find student's courses"),
        (Query::DeleteStudentCourses, "Can not find student with the provided id"),
        (Query::DeleteStudent, "Can not find student with the provided id"),
        (Query::InsertStudent, "Can not insert the student to db"),
        (Query::UpdateStudent, "Can not set new studet's data to db"),
        (Query::DeleteCourses, "Can not delete student's courses"),
        (Query::InsertCourses, "Can not insert new student's courses"),
        (Query::UserExists, "Query error"),
        (Query::InsertUser, "Can not insert new user"),
        (Query::FindUser, "User doesn't exist"),
        (Query::FindLogin, "Invalid password or email"),
    ];
    for (query, message) in table {
        assert_eq!(query.message(), message);
    }
}

#[test]
fn kinds_of_failed_queries() {
    assert_eq!(Query::FindUser.error_type(), ErrorTypes::NotFoundError);
    assert_eq!(Query::FindLogin.error_type(), ErrorTypes::Auth(Auth::Authentication));
    for query in [
        Query::FindStudent,
        Query::AllStudents,
        Query::FindCourses,
        Query::DeleteStudentCourses,
        Query::DeleteStudent,
        Query::InsertStudent,
        Query::UpdateStudent,
        Query::DeleteCourses,
        Query::InsertCourses,
        Query::UserExists,
        Query::InsertUser,
    ] {
        assert_eq!(query.error_type(), ErrorTypes::DbError);
    }
}

#[test]
fn outcome_of_a_query() {
    assert_eq!(Query::DeleteStudent.outcome(Ok(3u64)).unwrap(), 3);
    let e = Query::InsertStudent.outcome::<()>(Err("duplicate key".to_string())).unwrap_err();
    assert_eq!(e.cause.as_deref(), Some("duplicate key"));
    assert_eq!(e.message.as_deref(), Some("Can not insert the student to db"));
    assert_eq!(e.error_type, ErrorTypes::DbError);
    assert_eq!(e.status_code(), 500);
}

#[test]
fn refused_data() {
    let errors = LoginUser { email: "nobody".to_string(), password: "12345678".to_string() }
        .validate()
        .unwrap_err();
    let e = invalid_data(&errors);
    assert_eq!(
        e.cause.as_deref(),
        Some("{\n  \"email\": [\n    {\n      \"code\": \"email\",\n      \"message\": null,\n      \"params\": {\n        \"value\": \"nobody\"\n      }\n    }\n  ]\n}")
    );
    assert_eq!(e.message.as_deref(), Some("Invalid data"));
    assert_eq!(e.error_type, ErrorTypes::ValidationError);
    assert_eq!(e.status_code(), 400);
}

#[test]
fn answer_to_a_removal() {
    assert_eq!(
        delete_student(STUDENT),
        "{'Deleted student':a1a2a3a4-b1b2-c1c2-d1d2-d3d4d5d6d7d8 }"
    );
    assert_eq!(
        delete_student(0x0123456789abcdef0123456789abcdef),
        "{'Deleted student':01234567-89ab-cdef-0123-456789abcdef }"
    );
}

#[test]
fn students_are_collected_one_by_one() {
    let stored = |id: u128| Student {
        id,
        full_name: "Name Surname".to_string(),
        email: "student@example.com".to_string(),
        age: 21,
        img: "http://img".to_string(),
        registration_date: time::OffsetDateTime::UNIX_EPOCH,
    };
    let mut all = Vec::new();
    assert!(zero2prod::db::collect_student(&mut all, stored(1), Ok(list(&["math"]))).is_ok());
    assert!(zero2prod::db::collect_student(&mut all, stored(2), Ok(list(&[]))).is_ok());
    assert_eq!(all.len(), 2);
    assert_eq!(all[0].id, 1);
    assert_eq!(all[0].courses, list(&["math"]));
    assert_eq!(all[1].id, 2);
    assert!(all[1].courses.is_empty());
    let e = zero2prod::db::collect_student(&mut all, stored(3), Err("gone".to_string()))
        .unwrap_err();
    assert_eq!(e.cause.as_deref(), Some("gone"));
    assert_eq!(e.message.as_deref(), Some("Can not find student's courses"));
    assert_eq!(all.len(), 2);
    assert_eq!(all[1].id, 2);
}

#[test]
fn statements_of_the_queries() {
    let table = [
        (Query::FindStudent, "select * from students where id=$1"),
        (Query::AllStudents, "select * from students"),
        (Query::FindCourses, "select course_name from courses where student_id=$1"),
        (Query::DeleteStudentCourses, "delete from courses where student_id = $1;"),
        (Query::DeleteStudent, "delete from students where id=$1;"),
        (
            Query::InsertStudent,
            "insert into students (id, full_name, age, registration_date, email, img) values ($1, $2, $3, $4, $5, $6);",
        ),
        (Query::UpdateStudent, "update students set email=$1, age=$2 where id=$3;"),
        (Query::DeleteCourses, "delete from courses where student_id=$1;"),
        (Query::UserExists, "select exists(select 1 from users where email = $1 or username=$2)"),
        (
            Query::InsertUser,
            "INSERT INTO users (username,email,password_hash) VALUES ($1, $2, $3) RETURNING *",
        ),
        (Query::FindUser, "select * from users where id=$1;"),
        (Query::FindLogin, "select * from users where email = $1"),
    ];
    for (query, statement) in table {
        assert_eq!(query.statement(), Some(statement));
    }
    assert_eq!(Query::InsertCourses.statement(), None);
}

#[test]
fn checked_data_passes_or_quotes_the_refusals() {
    assert!(checked_data(Ok(())).is_ok());
    let errors = LoginUser { email: "nobody".to_string(), password: "12345678".to_string() }
        .validate()
        .unwrap_err();
    let expected = invalid_data(&errors);
    let e = checked_data(Err(errors)).unwrap_err();
    assert_eq!(e.cause, expected.cause);
    assert_eq!(e.message.as_deref(), Some("Invalid data"));
    assert_eq!(e.error_type, ErrorTypes::ValidationError);
    assert_eq!(e.status_code(), 400);
}
