//! Students: the record as stored, as sent by a client, and as answered, with
//! the rules a client's data has to meet.

use vstd::prelude::*;
use vstd::string::StringExecFns;
use crate::text::texts_view;
use crate::validation::{
    check_email, email_check, email_is_valid, field_check, range_error, refusal_view,
    regex_compiles, regex_error, regex_is_match, regex_matches, verdict, verdict_view,
    FieldErrorView, ParamValue, ParamValueView, ParamView, ValidationError, ValidationErrorView,
    ValidationErrors,
};

verus! {

/// A full name ends in two words with one white space between them, each of
/// at least three word characters and one more character that is no digit.
pub const FULLNAME_PATTERN: &'static str = r"\b\w{3,}\D\b\s{1}\b\w{3,}\D\b$";

/// A course holds a word that begins with at least two letters, which dots,
/// backslashes and digits may follow.
pub const COURSES_PATTERN: &'static str = r"\b[a-zA-Z]{2,}[.\\\d]{0,}\b";

/// What a client is told about a refused full name.
pub const FULLNAME_MESSAGE: &'static str = "Must contais only letters and space!";

/// The youngest age accepted.
pub const MIN_AGE: i32 = 16;

/// The oldest age accepted.
pub const MAX_AGE: i32 = 120;

/// A student as stored, without courses.
#[derive(Debug, Clone)]
pub struct Student {
    pub id: u128,
    pub full_name: String,
    pub email: String,
    pub age: i32,
    pub img: String,
    pub registration_date: time::OffsetDateTime,
}

/// A new student as a client sends it.
#[derive(Debug, Clone)]
pub struct AddStudent {
    pub full_name: String,
    pub email: String,
    pub age: i32,
    pub courses: Vec<String>,
}

/// A student as answered, with courses.
#[derive(Debug, Clone)]
pub struct FullStudent {
    pub id: u128,
    pub full_name: String,
    pub email: String,
    pub age: i32,
    pub img: String,
    pub registration_date: time::OffsetDateTime,
    pub courses: Vec<String>,
}

/// The changes to a student as a client sends them.
#[derive(Debug, Clone)]
pub struct EditStudent {
    pub email: String,
    pub age: i32,
    pub courses: Vec<String>,
}

/// The first course of the list that the course pattern does not match.
pub open spec fn first_unmatched(courses: Seq<Seq<char>>) -> Option<Seq<char>>
    decreases courses.len(),
{
    if courses.len() == 0 {
        None
    } else if !regex_matches(COURSES_PATTERN@, courses.first()) {
        Some(courses.first())
    } else {
        first_unmatched(courses.drop_first())
    }
}

/// The refusal of a list of courses: it names the course at fault.
pub open spec fn invalid_course(course: Seq<char>) -> ValidationErrorView {
    ValidationErrorView {
        code: "Invalid courses data"@,
        message: None,
        params: seq![
            ParamView { name: "incorrect course"@, value: ParamValueView::Text(course) },
        ],
    }
}

/// The refusal of a list of courses as a record reports it: with the whole
/// list as the refused value.
pub open spec fn invalid_courses(course: Seq<char>, courses: Seq<Seq<char>>)
    -> ValidationErrorView {
    ValidationErrorView {
        params: invalid_course(course).params.push(
            ParamView { name: "value"@, value: ParamValueView::Texts(courses) },
        ),
        ..invalid_course(course)
    }
}

/// The rule for a full name.
pub open spec fn full_name_check(full_name: Seq<char>) -> Option<ValidationErrorView> {
    if regex_matches(FULLNAME_PATTERN@, full_name) {
        None
    } else {
        Some(regex_error(FULLNAME_MESSAGE@, full_name))
    }
}

/// The rule for an age.
pub open spec fn age_check(age: int) -> Option<ValidationErrorView> {
    if MIN_AGE <= age <= MAX_AGE {
        None
    } else {
        Some(range_error(MIN_AGE as int, MAX_AGE as int, age))
    }
}

/// The rule for a list of courses.
pub open spec fn courses_check(courses: Seq<Seq<char>>) -> Option<ValidationErrorView> {
    match first_unmatched(courses) {
        Some(course) => Some(invalid_courses(course, courses)),
        None => None,
    }
}

/// The refusals of a new student, in the order of the fields.
pub open spec fn add_student_errors(
    full_name: Seq<char>,
    email: Seq<char>,
    age: int,
    courses: Seq<Seq<char>>,
) -> Seq<FieldErrorView> {
    field_check("fullName"@, full_name_check(full_name)) + field_check(
        "email"@,
        email_check(email),
    ) + field_check("age"@, age_check(age)) + field_check("courses"@, courses_check(courses))
}

/// The refusals of the changes to a student, in the order of the fields.
pub open spec fn edit_student_errors(email: Seq<char>, age: int, courses: Seq<Seq<char>>) -> Seq<
    FieldErrorView,
> {
    field_check("email"@, email_check(email)) + field_check("age"@, age_check(age)) + field_check(
        "courses"@,
        courses_check(courses),
    )
}

/// Whether the course pattern matches every course of the list.
pub open spec fn all_courses_match(courses: Seq<Seq<char>>) -> bool {
    forall|i: int| 0 <= i < courses.len() ==> regex_matches(COURSES_PATTERN@, #[trigger] courses[i])
}

/// A list of courses is refused exactly where the pattern misses one of its
/// courses, and then for the first such course.
pub proof fn lemma_first_unmatched(courses: Seq<Seq<char>>)
    ensures
        first_unmatched(courses) is None <==> all_courses_match(courses),
        first_unmatched(courses) matches Some(course) ==> exists|i: int|
            0 <= i < courses.len() && #[trigger] courses[i] == course && !regex_matches(
                COURSES_PATTERN@,
                course,
            ) && all_courses_match(courses.take(i)),
    decreases courses.len(),
{
    if courses.len() > 0 {
        let rest = courses.drop_first();
        lemma_first_unmatched(rest);
        if regex_matches(COURSES_PATTERN@, courses.first()) {
            if all_courses_match(rest) {
                assert forall|i: int| 0 <= i < courses.len() implies regex_matches(
                    COURSES_PATTERN@,
                    #[trigger] courses[i],
                ) by {
                    if i > 0 {
                        assert(courses[i] == rest[i - 1]);
                    }
                }
            }
            if first_unmatched(rest) is Some {
                let course = first_unmatched(rest)->0;
                let i = choose|i: int|
                    0 <= i < rest.len() && #[trigger] rest[i] == course && !regex_matches(
                        COURSES_PATTERN@,
                        course,
                    ) && all_courses_match(rest.take(i));
                assert forall|j: int| 0 <= j < i + 1 implies regex_matches(
                    COURSES_PATTERN@,
                    #[trigger] courses.take(i + 1)[j],
                ) by {
                    if j > 0 {
                        assert(courses.take(i + 1)[j] == rest.take(i)[j - 1]);
                    }
                }
            }
        } else {
        }
    }
}

/// A new student is accepted exactly where the name pattern matches the full
/// name, the e-mail address is one, the age is within its bounds, and the
/// course pattern matches every course.
pub proof fn lemma_add_student_accepted(
    full_name: Seq<char>,
    email: Seq<char>,
    age: int,
    courses: Seq<Seq<char>>,
)
    ensures
        verdict(add_student_errors(full_name, email, age, courses)) is Ok <==> regex_matches(
            FULLNAME_PATTERN@,
            full_name,
        ) && email_is_valid(email) && MIN_AGE <= age <= MAX_AGE && all_courses_match(courses),
{
    lemma_first_unmatched(courses);
}

/// The changes to a student are accepted exactly where the e-mail address is
/// one, the age is within its bounds, and the course pattern matches every
/// course.
pub proof fn lemma_edit_student_accepted(email: Seq<char>, age: int, courses: Seq<Seq<char>>)
    ensures
        verdict(edit_student_errors(email, age, courses)) is Ok <==> email_is_valid(email)
            && MIN_AGE <= age <= MAX_AGE && all_courses_match(courses),
{
    lemma_first_unmatched(courses);
}

/// The refusal of a list of courses for one of its courses.
pub fn course_refusal(course: &str) -> (r: ValidationError)
    ensures
        r@ == invalid_course(course@),
{
    let mut error = ValidationError::new("Invalid courses data");
    error.add_param("incorrect course", ParamValue::Text(String::from_str(course)));
    error
}

/// The refusal of a full name that the name pattern was found to match or
/// not.
pub fn full_name_refusal(full_name: &String, matched: bool) -> (r: Option<ValidationError>)
    ensures
        refusal_view(r) == if matched {
            None
        } else {
            Some(regex_error(FULLNAME_MESSAGE@, full_name@))
        },
{
    if matched {
        None
    } else {
        let mut error = ValidationError::new("regex");
        error.message = Some(String::from_str(FULLNAME_MESSAGE));
        error.add_param("value", ParamValue::Text(full_name.clone()));
        Some(error)
    }
}

/// Checks every course against the course pattern and reports the first that
/// does not match.
pub fn courses_validation(courses: &Vec<String>) -> (r: Result<(), ValidationError>)
    requires
        regex_compiles(COURSES_PATTERN@),
    ensures
        match first_unmatched(texts_view(courses@)) {
            Some(course) => r matches Err(e) && e@ == invalid_course(course),
            None => r is Ok,
        },
{
    let ghost all = texts_view(courses@);
    let mut i: usize = 0;
    assert(all.skip(0) =~= all);
    while i < courses.len()
        invariant
            i <= courses.len(),
            all == texts_view(courses@),
            regex_compiles(COURSES_PATTERN@),
            first_unmatched(all) == first_unmatched(all.skip(i as int)),
        decreases courses.len() - i,
    {
        let course = courses[i].as_str();
        let found = regex_is_match(COURSES_PATTERN, course).unwrap();
        proof {
            let rest = all.skip(i as int);
            assert(rest.drop_first() =~= all.skip(i + 1));
        }
        if !found {
            return Err(course_refusal(course));
        }
        i += 1;
    }
    Ok(())
}

/// Whether the engine accepts both patterns.
pub open spec fn patterns_compile() -> bool {
    regex_compiles(FULLNAME_PATTERN@) && regex_compiles(COURSES_PATTERN@)
}

/// Checks a full name.
fn check_full_name(full_name: &String) -> (r: Option<ValidationError>)
    requires
        regex_compiles(FULLNAME_PATTERN@),
    ensures
        refusal_view(r) == full_name_check(full_name@),
{
    let matched = regex_is_match(FULLNAME_PATTERN, full_name.as_str()).unwrap();
    full_name_refusal(full_name, matched)
}

/// Checks an age.
fn check_age(age: i32) -> (r: Option<ValidationError>)
    ensures
        refusal_view(r) == age_check(age as int),
{
    if MIN_AGE <= age && age <= MAX_AGE {
        None
    } else {
        let mut error = ValidationError::new("range");
        error.add_param("min", ParamValue::Bound(MIN_AGE as i64));
        error.add_param("max", ParamValue::Bound(MAX_AGE as i64));
        error.add_param("value", ParamValue::Integer(age as i64));
        Some(error)
    }
}

/// A copy of a list of strings.
fn copy_texts(texts: &Vec<String>) -> (r: Vec<String>)
    ensures
        texts_view(r@) == texts_view(texts@),
{
    let mut copy: Vec<String> = Vec::new();
    let mut i: usize = 0;
    while i < texts.len()
        invariant
            i <= texts.len(),
            copy@.len() == i,
            forall|j: int| 0 <= j < i ==> copy@[j]@ == texts@[j]@,
        decreases texts.len() - i,
    {
        copy.push(texts[i].clone());
        i += 1;
    }
    copy
}

/// Checks a list of courses.
fn check_courses(courses: &Vec<String>) -> (r: Option<ValidationError>)
    requires
        regex_compiles(COURSES_PATTERN@),
    ensures
        refusal_view(r) == courses_check(texts_view(courses@)),
{
    match courses_validation(courses) {
        Ok(()) => None,
        Err(error) => {
            let mut error = error;
            error.add_param("value", ParamValue::Texts(copy_texts(courses)));
            Some(error)
        },
    }
}

/// Whether the engine accepts a pattern.
fn pattern_compiles(pattern: &str) -> (r: bool)
    ensures
        r == regex_compiles(pattern@),
{
    regex_is_match(pattern, "").is_some()
}

impl AddStudent {
    /// The refusals of this record.
    pub open spec fn errors(&self) -> Seq<FieldErrorView> {
        add_student_errors(
            self.full_name@,
            self.email@,
            self.age as int,
            texts_view(self.courses@),
        )
    }

    /// Checks the record field by field.
    pub fn validate(&self) -> (r: Result<(), ValidationErrors>)
        requires
            patterns_compile(),
        ensures
            verdict_view(r) == verdict(self.errors()),
    {
        let mut errors = ValidationErrors::new();
        errors.report("fullName", check_full_name(&self.full_name));
        errors.report("email", check_email(&self.email));
        errors.report("age", check_age(self.age));
        errors.report("courses", check_courses(&self.courses));
        errors.into_result()
    }

    /// Checks the record where the engine accepts the two patterns, and says
    /// so where it does not.
    pub fn try_validate(&self) -> (r: Option<Result<(), ValidationErrors>>)
        ensures
            match r {
                Some(v) => patterns_compile() && verdict_view(v) == verdict(self.errors()),
                None => !patterns_compile(),
            },
    {
        if pattern_compiles(FULLNAME_PATTERN) && pattern_compiles(COURSES_PATTERN) {
            Some(self.validate())
        } else {
            None
        }
    }
}

impl EditStudent {
    /// The refusals of these changes.
    pub open spec fn errors(&self) -> Seq<FieldErrorView> {
        edit_student_errors(self.email@, self.age as int, texts_view(self.courses@))
    }

    /// Checks the changes field by field.
    pub fn validate(&self) -> (r: Result<(), ValidationErrors>)
        requires
            regex_compiles(COURSES_PATTERN@),
        ensures
            verdict_view(r) == verdict(self.errors()),
    {
        let mut errors = ValidationErrors::new();
        errors.report("email", check_email(&self.email));
        errors.report("age", check_age(self.age));
        errors.report("courses", check_courses(&self.courses));
        errors.into_result()
    }

    /// Checks the changes where the engine accepts the course pattern, and
    /// says so where it does not.
    pub fn try_validate(&self) -> (r: Option<Result<(), ValidationErrors>>)
        ensures
            match r {
                Some(v) => regex_compiles(COURSES_PATTERN@) && verdict_view(v) == verdict(
                    self.errors(),
                ),
                None => !regex_compiles(COURSES_PATTERN@),
            },
    {
        if pattern_compiles(COURSES_PATTERN) {
            Some(self.validate())
        } else {
            None
        }
    }
}

/// The student that is answered for a stored student and its courses.
pub open spec fn full_student(student: Student, courses: Vec<String>) -> FullStudent {
    FullStudent {
        id: student.id,
        full_name: student.full_name,
        email: student.email,
        age: student.age,
        img: student.img,
        registration_date: student.registration_date,
        courses,
    }
}

impl FullStudent {
    /// A stored student together with its courses.
    pub fn from_student(student: Student, courses: Vec<String>) -> (r: FullStudent)
        ensures
            r == full_student(student, courses),
    {
        FullStudent {
            id: student.id,
            full_name: student.full_name,
            email: student.email,
            age: student.age,
            img: student.img,
            registration_date: student.registration_date,
            courses,
        }
    }
}

} // verus!
