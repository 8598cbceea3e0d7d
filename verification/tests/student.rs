use zero2prod::schemas::student::courses_validation;
use zero2prod::schemas::{AddStudent, EditStudent, FullStudent, Student};
use zero2prod::validation::ParamValue;

fn courses(names: &[&str]) -> Vec<String> {
    names.iter().map(|n| n.to_string()).collect()
}

fn student(full_name: &str, email: &str, age: i32, list: &[&str]) -> AddStudent {
    AddStudent {
        full_name: full_name.to_string(),
        email: email.to_string(),
        age,
        courses: courses(list),
    }
}

#[test]
fn courses_of_letters_pass() {
    assert!(courses_validation(&courses(&["math", "physics", "cs101", "ai.2"])).is_ok());
}

#[test]
fn no_courses_pass() {
    assert!(courses_validation(&Vec::new()).is_ok());
}

#[test]
fn first_bad_course_is_named() {
    let e = courses_validation(&courses(&["math", "123course", "7"])).unwrap_err();
    assert_eq!(e.code, "Invalid courses data");
    assert_eq!(e.message, None);
    assert_eq!(e.params.len(), 1);
    assert_eq!(e.params[0].name, "incorrect course");
    assert!(matches!(&e.params[0].value, ParamValue::Text(c) if c == "123course"));
}

#[test]
fn course_needs_two_letters() {
    assert!(courses_validation(&courses(&["a"])).is_err());
    assert!(courses_validation(&courses(&["ab"])).is_ok());
    assert!(courses_validation(&courses(&[""])).is_err());
}

#[test]
fn valid_student_passes() {
    let s = student("Name Surname", "name@example.com", 20, &["math"]);
    assert!(s.validate().is_ok());
    assert!(matches!(s.try_validate(), Some(Ok(()))));
}

#[test]
fn ages_at_the_bounds() {
    assert!(student("Name Surname", "n@example.com", 16, &[]).validate().is_ok());
    assert!(student("Name Surname", "n@example.com", 120, &[]).validate().is_ok());
    assert!(student("Name Surname", "n@example.com", 15, &[]).validate().is_err());
    assert!(student("Name Surname", "n@example.com", 121, &[]).validate().is_err());
    assert!(student("Name Surname", "n@example.com", -1, &[]).validate().is_err());
}

#[test]
fn refused_student_lists_every_field_in_order() {
    let s = student("Name Surname", "invalidemail", 14, &["123course"]);
    let errors = s.validate().unwrap_err().errors;
    let fields: Vec<&str> = errors.iter().map(|e| e.field.as_str()).collect();
    assert_eq!(fields, vec!["email", "age", "courses"]);
    let codes: Vec<&str> = errors.iter().map(|e| e.error.code.as_str()).collect();
    assert_eq!(codes, vec!["email", "range", "Invalid courses data"]);
}

#[test]
fn refused_email_carries_the_value() {
    let s = student("Name Surname", "invalidemail", 30, &[]);
    let errors = s.validate().unwrap_err().errors;
    assert_eq!(errors.len(), 1);
    let e = &errors[0].error;
    assert_eq!(e.message, None);
    assert_eq!(e.params.len(), 1);
    assert_eq!(e.params[0].name, "value");
    assert!(matches!(&e.params[0].value, ParamValue::Text(v) if v == "invalidemail"));
}

#[test]
fn refused_age_carries_bounds_and_value() {
    let s = student("Name Surname", "n@example.com", 14, &[]);
    let errors = s.validate().unwrap_err().errors;
    assert_eq!(errors.len(), 1);
    assert_eq!(errors[0].field, "age");
    let p = &errors[0].error.params;
    assert_eq!(p.len(), 3);
    assert_eq!(p[0].name, "min");
    assert!(matches!(p[0].value, ParamValue::Bound(16)));
    assert_eq!(p[1].name, "max");
    assert!(matches!(p[1].value, ParamValue::Bound(120)));
    assert_eq!(p[2].name, "value");
    assert!(matches!(p[2].value, ParamValue::Integer(14)));
}

#[test]
fn refused_name_carries_the_message() {
    let s = student("Al", "n@example.com", 30, &[]);
    let errors = s.validate().unwrap_err().errors;
    assert_eq!(errors.len(), 1);
    assert_eq!(errors[0].field, "fullName");
    let e = &errors[0].error;
    assert_eq!(e.code, "regex");
    assert_eq!(e.message.as_deref(), Some("Must contais only letters and space!"));
    assert_eq!(e.params.len(), 1);
    assert!(matches!(&e.params[0].value, ParamValue::Text(v) if v == "Al"));
}

#[test]
fn refused_courses_carry_the_course_and_the_list() {
    let s = student("Name Surname", "n@example.com", 30, &["math", "1", "2"]);
    let errors = s.validate().unwrap_err().errors;
    assert_eq!(errors.len(), 1);
    assert_eq!(errors[0].field, "courses");
    let p = &errors[0].error.params;
    assert_eq!(p.len(), 2);
    assert_eq!(p[0].name, "incorrect course");
    assert!(matches!(&p[0].value, ParamValue::Text(c) if c == "1"));
    assert_eq!(p[1].name, "value");
    assert!(matches!(&p[1].value, ParamValue::Texts(l) if l == &courses(&["math", "1", "2"])));
}

#[test]
fn full_names_need_two_words() {
    assert!(student("Name Surname", "n@example.com", 30, &[]).validate().is_ok());
    assert!(student("Anna Maria", "n@example.com", 30, &[]).validate().is_ok());
    assert!(student("Name", "n@example.com", 30, &[]).validate().is_err());
    assert!(student("", "n@example.com", 30, &[]).validate().is_err());
    assert!(student("Name Surname1", "n@example.com", 30, &[]).validate().is_err());
}

#[test]
fn changes_are_checked_like_a_new_student() {
    let ok = EditStudent { email: "n@example.com".to_string(), age: 44, courses: courses(&["ml"]) };
    assert!(ok.validate().is_ok());
    assert!(matches!(ok.try_validate(), Some(Ok(()))));
    let bad = EditStudent { email: "nobody".to_string(), age: 200, courses: courses(&["!"]) };
    let errors = bad.validate().unwrap_err().errors;
    let fields: Vec<&str> = errors.iter().map(|e| e.field.as_str()).collect();
    assert_eq!(fields, vec!["email", "age", "courses"]);
    assert!(matches!(bad.try_validate(), Some(Err(_))));
}

#[test]
fn full_student_keeps_the_record_and_takes_the_courses() {
    let stored = Student {
        id: 7,
        full_name: "Name Surname".to_string(),
        email: "n@example.com".to_string(),
        age: 33,
        img: "http://img".to_string(),
        registration_date: time::OffsetDateTime::UNIX_EPOCH,
    };
    let full = FullStudent::from_student(stored.clone(), courses(&["math", "art"]));
    assert_eq!(full.id, 7);
    assert_eq!(full.full_name, stored.full_name);
    assert_eq!(full.email, stored.email);
    assert_eq!(full.age, 33);
    assert_eq!(full.img, stored.img);
    assert_eq!(full.registration_date, stored.registration_date);
    assert_eq!(full.courses, courses(&["math", "art"]));
}

#[test]
fn refusal_of_a_course() {
    let e = zero2prod::schemas::student::course_refusal("7up");
    assert_eq!(e.code, "Invalid courses data");
    assert_eq!(e.message, None);
    assert_eq!(e.params.len(), 1);
    assert_eq!(e.params[0].name, "incorrect course");
    assert!(matches!(&e.params[0].value, ParamValue::Text(c) if c == "7up"));
}

#[test]
fn refusal_of_a_full_name_by_the_match() {
    let name = "Somebody Else".to_string();
    assert!(zero2prod::schemas::student::full_name_refusal(&name, true).is_none());
    let e = zero2prod::schemas::student::full_name_refusal(&name, false).unwrap();
    assert_eq!(e.code, "regex");
    assert_eq!(e.message.as_deref(), Some("Must contais only letters and space!"));
    assert_eq!(e.params.len(), 1);
    assert_eq!(e.params[0].name, "value");
    assert!(matches!(&e.params[0].value, ParamValue::Text(v) if v == "Somebody Else"));
}

#[should_panic]
#[test]
fn post_student_check_panic_validation() {
    let new_student = student("Name Surname", "invalidemail", 14, &["123course"]);
    let status = match new_student.validate() {
        Ok(()) => 200,
        Err(errors) => zero2prod::app::invalid_data(&errors).status_code(),
    };
    assert!((200..300).contains(&status));
}
