//! What a failed check of client data reports, and the two checks that are
//! left to other crates: regular expressions and e-mail addresses.

use vstd::prelude::*;
use vstd::string::StringExecFns;
use vstd::string::StrSliceExecFns;
use crate::text::{
    join, joined, json_optional, json_quote, json_quote_str, optional_view, signed_decimal,
    texts_view, to_signed_decimal,
};

verus! {

/// The value of a parameter of a validation error.
#[derive(Debug, Clone)]
pub enum ParamValue {
    /// A string.
    Text(String),
    /// A whole number.
    Integer(i64),
    /// A bound of a range, which is written with a fraction part.
    Bound(i64),
    /// A list of strings.
    Texts(Vec<String>),
}

/// A named parameter of a validation error.
#[derive(Debug, Clone)]
pub struct Param {
    pub name: String,
    pub value: ParamValue,
}

/// Why one value was refused.
#[derive(Debug, Clone)]
pub struct ValidationError {
    pub code: String,
    pub message: Option<String>,
    pub params: Vec<Param>,
}

/// The refusal of one field.
#[derive(Debug, Clone)]
pub struct FieldError {
    pub field: String,
    pub error: ValidationError,
}

/// The refusals of a record in the order in which they were found. The
/// checks of this crate go through the fields in their order and find at
/// most one refusal per field.
#[derive(Debug, Clone)]
pub struct ValidationErrors {
    pub errors: Vec<FieldError>,
}

/// What a [`ParamValue`] holds, as plain values.
pub enum ParamValueView {
    Text(Seq<char>),
    Integer(int),
    Bound(int),
    Texts(Seq<Seq<char>>),
}

/// What a [`Param`] holds, as plain values.
#[verifier::ext_equal]
pub struct ParamView {
    pub name: Seq<char>,
    pub value: ParamValueView,
}

/// What a [`ValidationError`] holds, as plain values.
#[verifier::ext_equal]
pub struct ValidationErrorView {
    pub code: Seq<char>,
    pub message: Option<Seq<char>>,
    pub params: Seq<ParamView>,
}

/// What a [`FieldError`] holds, as plain values.
#[verifier::ext_equal]
pub struct FieldErrorView {
    pub field: Seq<char>,
    pub error: ValidationErrorView,
}

impl View for ParamValue {
    type V = ParamValueView;

    open spec fn view(&self) -> ParamValueView {
        match self {
            ParamValue::Text(text) => ParamValueView::Text(text@),
            ParamValue::Integer(n) => ParamValueView::Integer(*n as int),
            ParamValue::Bound(n) => ParamValueView::Bound(*n as int),
            ParamValue::Texts(texts) => ParamValueView::Texts(texts_view(texts@)),
        }
    }
}

impl View for Param {
    type V = ParamView;

    open spec fn view(&self) -> ParamView {
        ParamView { name: self.name@, value: self.value@ }
    }
}

impl View for ValidationError {
    type V = ValidationErrorView;

    open spec fn view(&self) -> ValidationErrorView {
        ValidationErrorView {
            code: self.code@,
            message: optional_view(self.message),
            params: Seq::new(self.params@.len(), |i: int| self.params@[i]@),
        }
    }
}

impl View for FieldError {
    type V = FieldErrorView;

    open spec fn view(&self) -> FieldErrorView {
        FieldErrorView { field: self.field@, error: self.error@ }
    }
}

impl View for ValidationErrors {
    type V = Seq<FieldErrorView>;

    open spec fn view(&self) -> Seq<FieldErrorView> {
        Seq::new(self.errors@.len(), |i: int| self.errors@[i]@)
    }
}

/// The parameter `value` that holds the refused text.
pub open spec fn value_param(value: Seq<char>) -> ParamView {
    ParamView { name: "value"@, value: ParamValueView::Text(value) }
}

/// An address that is no e-mail address.
pub open spec fn email_error(value: Seq<char>) -> ValidationErrorView {
    ValidationErrorView { code: "email"@, message: None, params: seq![value_param(value)] }
}

/// A text with fewer than `min` characters.
pub open spec fn length_error(min: int, value: Seq<char>) -> ValidationErrorView {
    ValidationErrorView {
        code: "length"@,
        message: None,
        params: seq![
            ParamView { name: "min"@, value: ParamValueView::Integer(min) },
            value_param(value),
        ],
    }
}

/// A number outside `min ..= max`.
pub open spec fn range_error(min: int, max: int, value: int) -> ValidationErrorView {
    ValidationErrorView {
        code: "range"@,
        message: None,
        params: seq![
            ParamView { name: "min"@, value: ParamValueView::Bound(min) },
            ParamView { name: "max"@, value: ParamValueView::Bound(max) },
            ParamView { name: "value"@, value: ParamValueView::Integer(value) },
        ],
    }
}

/// A text that a pattern does not match, with the message for the client.
pub open spec fn regex_error(message: Seq<char>, value: Seq<char>) -> ValidationErrorView {
    ValidationErrorView {
        code: "regex"@,
        message: Some(message),
        params: seq![value_param(value)],
    }
}

/// A parameter value as indented JSON, at the depth of a parameter: a string,
/// a whole number, a number with the fraction part `.0`, or a list with one
/// string per line.
pub open spec fn param_value_json(value: ParamValueView) -> Seq<char> {
    match value {
        ParamValueView::Text(text) => json_quote(text),
        ParamValueView::Integer(n) => signed_decimal(n),
        ParamValueView::Bound(n) => signed_decimal(n) + ".0"@,
        ParamValueView::Texts(texts) => if texts.len() == 0 {
            "[]"@
        } else {
            "[\n"@ + joined(
                Seq::new(texts.len(), |i: int| "          "@ + json_quote(texts[i])),
                ",\n"@,
            ) + "\n        ]"@
        },
    }
}

/// One parameter as a line of indented JSON: its name, a colon, its value.
pub open spec fn param_json(param: ParamView) -> Seq<char> {
    "        "@ + json_quote(param.name) + ": "@ + param_value_json(param.value)
}

/// The parameters of an error as an indented JSON object, one per line.
pub open spec fn params_json(params: Seq<ParamView>) -> Seq<char> {
    if params.len() == 0 {
        "{}"@
    } else {
        "{\n"@ + joined(Seq::new(params.len(), |i: int| param_json(params[i])), ",\n"@)
            + "\n      }"@
    }
}

/// One refusal as an indented JSON object: code, message and parameters.
pub open spec fn error_object_json(error: ValidationErrorView) -> Seq<char> {
    "    {\n      \"code\": "@ + json_quote(error.code) + ",\n      \"message\": "@
        + json_optional(error.message) + ",\n      \"params\": "@ + params_json(error.params)
        + "\n    }"@
}

/// The refusal of one field as indented JSON: the field, and a list that
/// holds the refusal.
pub open spec fn field_json(field: FieldErrorView) -> Seq<char> {
    "  "@ + json_quote(field.field) + ": [\n"@ + error_object_json(field.error) + "\n  ]"@
}

/// The refusals of a record as an indented JSON object, one entry per
/// refusal in their order.
pub open spec fn errors_json(errors: Seq<FieldErrorView>) -> Seq<char> {
    if errors.len() == 0 {
        "{}"@
    } else {
        "{\n"@ + joined(Seq::new(errors.len(), |i: int| field_json(errors[i])), ",\n"@) + "\n}"@
    }
}

/// Whether the regular-expression engine accepts the pattern.
pub uninterp spec fn regex_compiles(pattern: Seq<char>) -> bool;

/// Whether the pattern, once accepted, matches somewhere in the text.
pub uninterp spec fn regex_matches(pattern: Seq<char>, text: Seq<char>) -> bool;

/// Whether the text is an e-mail address by the rules of
/// `validator::validate_email`.
pub uninterp spec fn email_is_valid(text: Seq<char>) -> bool;

/// Trusted: compiles the pattern with `regex::Regex::new` and, where that
/// succeeds, searches the text with `Regex::is_match`. There is a result
/// exactly where the pattern compiles, and it says whether there is a match.
#[verifier::external_body]
pub(crate) fn regex_is_match(pattern: &str, text: &str) -> (r: Option<bool>)
    ensures
        r is Some <==> regex_compiles(pattern@),
        r matches Some(found) ==> found == regex_matches(pattern@, text@),
{
    regex::Regex::new(pattern).ok().map(|re| re.is_match(text))
}

/// Trusted: calls `validator::validate_email`, whose verdict is named
/// `email_is_valid` of the text.
#[verifier::external_body]
pub(crate) fn validate_email(text: &str) -> (r: bool)
    ensures
        r == email_is_valid(text@),
{
    validator::validate_email(text)
}

/// No refusal, or the refusal of one field.
pub open spec fn field_check(field: Seq<char>, error: Option<ValidationErrorView>) -> Seq<
    FieldErrorView,
> {
    match error {
        Some(e) => seq![FieldErrorView { field, error: e }],
        None => Seq::empty(),
    }
}

/// The rule for an e-mail address.
pub open spec fn email_check(email: Seq<char>) -> Option<ValidationErrorView> {
    if email_is_valid(email) {
        None
    } else {
        Some(email_error(email))
    }
}

/// The rule for a text of at least `min` characters.
pub open spec fn length_check(min: int, text: Seq<char>) -> Option<ValidationErrorView> {
    if text.len() >= min {
        None
    } else {
        Some(length_error(min, text))
    }
}

/// The verdict on a record with the given refusals.
pub open spec fn verdict(errors: Seq<FieldErrorView>) -> Result<(), Seq<FieldErrorView>> {
    if errors.len() == 0 {
        Ok(())
    } else {
        Err(errors)
    }
}

/// A verdict with its refusals taken by their view.
pub open spec fn verdict_view(r: Result<(), ValidationErrors>) -> Result<(), Seq<FieldErrorView>> {
    match r {
        Ok(()) => Ok(()),
        Err(errors) => Err(errors@),
    }
}

/// The view of an optional refusal.
pub open spec fn refusal_view(error: Option<ValidationError>) -> Option<ValidationErrorView> {
    match error {
        Some(e) => Some(e@),
        None => None,
    }
}

/// The refusal of a text that was found to be an e-mail address or not.
pub fn email_refusal(email: &String, valid: bool) -> (r: Option<ValidationError>)
    ensures
        refusal_view(r) == if valid {
            None
        } else {
            Some(email_error(email@))
        },
{
    if valid {
        None
    } else {
        let mut error = ValidationError::new("email");
        error.add_param("value", ParamValue::Text(email.clone()));
        Some(error)
    }
}

/// Checks an e-mail address.
pub fn check_email(email: &String) -> (r: Option<ValidationError>)
    ensures
        refusal_view(r) == email_check(email@),
{
    email_refusal(email, validate_email(email.as_str()))
}

/// Checks that a text has at least `min` characters.
pub fn check_length(min: u32, text: &String) -> (r: Option<ValidationError>)
    ensures
        refusal_view(r) == length_check(min as int, text@),
{
    if text.as_str().unicode_len() >= min as usize {
        None
    } else {
        let mut error = ValidationError::new("length");
        error.add_param("min", ParamValue::Integer(min as i64));
        error.add_param("value", ParamValue::Text(text.clone()));
        Some(error)
    }
}

impl ParamValue {
    /// The value as indented JSON, at the depth of a parameter.
    pub fn to_json(&self) -> (r: String)
        ensures
            r@ == param_value_json(self@),
    {
        match self {
            ParamValue::Text(text) => json_quote_str(text.as_str()),
            ParamValue::Integer(n) => to_signed_decimal(*n),
            ParamValue::Bound(n) => {
                let mut number = to_signed_decimal(*n);
                number.append(".0");
                number
            },
            ParamValue::Texts(texts) => {
                if texts.len() == 0 {
                    return String::from_str("[]");
                }
                let ghost all = texts_view(texts@);
                let mut lines: Vec<String> = Vec::new();
                let mut i: usize = 0;
                while i < texts.len()
                    invariant
                        i <= texts.len(),
                        all == texts_view(texts@),
                        lines@.len() == i,
                        forall|j: int|
                            0 <= j < i ==> lines@[j]@ == "          "@ + json_quote(all[j]),
                    decreases texts.len() - i,
                {
                    let mut line = String::from_str("          ");
                    let quoted = json_quote_str(texts[i].as_str());
                    line.append(quoted.as_str());
                    lines.push(line);
                    i += 1;
                }
                assert(texts_view(lines@) =~= Seq::new(
                    all.len(),
                    |i: int| "          "@ + json_quote(all[i]),
                ));
                let mut text = String::from_str("[\n");
                let body = join(&lines, ",\n");
                text.append(body.as_str());
                text.append("\n        ]");
                text
            },
        }
    }
}

impl Param {
    /// The parameter as a line of indented JSON.
    pub fn to_json(&self) -> (r: String)
        ensures
            r@ == param_json(self@),
    {
        let mut line = String::from_str("        ");
        let name = json_quote_str(self.name.as_str());
        line.append(name.as_str());
        line.append(": ");
        let value = self.value.to_json();
        line.append(value.as_str());
        line
    }
}

impl ValidationError {
    /// The parameters as an indented JSON object.
    fn params_to_json(&self) -> (r: String)
        ensures
            r@ == params_json(self@.params),
    {
        if self.params.len() == 0 {
            return String::from_str("{}");
        }
        let mut lines: Vec<String> = Vec::new();
        let mut i: usize = 0;
        while i < self.params.len()
            invariant
                i <= self.params.len(),
                lines@.len() == i,
                forall|j: int| 0 <= j < i ==> lines@[j]@ == param_json(self@.params[j]),
            decreases self.params.len() - i,
        {
            lines.push(self.params[i].to_json());
            i += 1;
        }
        assert(texts_view(lines@) =~= Seq::new(
            self@.params.len(),
            |i: int| param_json(self@.params[i]),
        ));
        let mut text = String::from_str("{\n");
        let body = join(&lines, ",\n");
        text.append(body.as_str());
        text.append("\n      }");
        text
    }

    /// The refusal as an indented JSON object.
    pub fn to_json(&self) -> (r: String)
        ensures
            r@ == error_object_json(self@),
    {
        let mut text = String::from_str("    {\n      \"code\": ");
        let code = json_quote_str(self.code.as_str());
        text.append(code.as_str());
        text.append(",\n      \"message\": ");
        let message = match &self.message {
            Some(m) => json_quote_str(m.as_str()),
            None => String::from_str("null"),
        };
        text.append(message.as_str());
        text.append(",\n      \"params\": ");
        let params = self.params_to_json();
        text.append(params.as_str());
        text.append("\n    }");
        text
    }

    /// An error with a code and nothing else, to which parameters are added.
    pub fn new(code: &str) -> (r: Self)
        ensures
            r@ == (ValidationErrorView { code: code@, message: None, params: Seq::empty() }),
    {
        ValidationError { code: String::from_str(code), message: None, params: Vec::new() }
    }

    /// Adds a parameter after those that are there.
    pub fn add_param(&mut self, name: &str, value: ParamValue)
        ensures
            final(self)@ == (ValidationErrorView {
                params: old(self)@.params.push(ParamView { name: name@, value: value@ }),
                ..old(self)@
            }),
    {
        self.params.push(Param { name: String::from_str(name), value });
    }
}

impl FieldError {
    /// The refusal of the field as indented JSON.
    pub fn to_json(&self) -> (r: String)
        ensures
            r@ == field_json(self@),
    {
        let mut text = String::from_str("  ");
        let field = json_quote_str(self.field.as_str());
        text.append(field.as_str());
        text.append(": [\n");
        let error = self.error.to_json();
        text.append(error.as_str());
        text.append("\n  ]");
        text
    }
}

impl ValidationErrors {
    /// The refusals as indented JSON, the form in which they are quoted as
    /// the cause of the error that answers refused data.
    pub fn to_string(&self) -> (r: String)
        ensures
            r@ == errors_json(self@),
    {
        if self.errors.len() == 0 {
            return String::from_str("{}");
        }
        let mut entries: Vec<String> = Vec::new();
        let mut i: usize = 0;
        while i < self.errors.len()
            invariant
                i <= self.errors.len(),
                entries@.len() == i,
                forall|j: int| 0 <= j < i ==> entries@[j]@ == field_json(self@[j]),
            decreases self.errors.len() - i,
        {
            entries.push(self.errors[i].to_json());
            i += 1;
        }
        assert(texts_view(entries@) =~= Seq::new(self@.len(), |i: int| field_json(self@[i])));
        let mut text = String::from_str("{\n");
        let body = join(&entries, ",\n");
        text.append(body.as_str());
        text.append("\n}");
        text
    }

    /// No refusal yet.
    pub fn new() -> (r: Self)
        ensures
            r@ == Seq::<FieldErrorView>::empty(),
    {
        ValidationErrors { errors: Vec::new() }
    }

    /// Whether nothing was refused.
    pub fn is_empty(&self) -> (r: bool)
        ensures
            r == (self@.len() == 0),
    {
        self.errors.len() == 0
    }

    /// Records the refusal of a field after those that are there.
    pub fn add(&mut self, field: &str, error: ValidationError)
        ensures
            final(self)@ == old(self)@.push(FieldErrorView { field: field@, error: error@ }),
    {
        self.errors.push(FieldError { field: String::from_str(field), error });
    }

    /// Records the outcome of the check of one field.
    pub fn report(&mut self, field: &str, error: Option<ValidationError>)
        ensures
            final(self)@ == old(self)@ + field_check(field@, refusal_view(error)),
    {
        match error {
            Some(e) => {
                self.add(field, e);
            },
            None => {},
        }
    }

    /// Success where nothing was refused, else the refusals.
    pub fn into_result(self) -> (r: Result<(), ValidationErrors>)
        ensures
            verdict_view(r) == verdict(self@),
    {
        if self.is_empty() {
            Ok(())
        } else {
            Err(self)
        }
    }
}

} // verus!
