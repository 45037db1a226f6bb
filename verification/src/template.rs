//! Script templates: a text in which each field of a context has a
//! placeholder, and the rendering that puts the fields in their place.

use crate::text::{replace_all, replaced};
use vstd::prelude::*;

verus! {

/// The fault that `serde_json` finds in a value or a text, carried as it is.
#[verifier::external_type_specification]
#[verifier::external_body]
pub struct ExJsonError(serde_json::Error);

/// Opens the placeholder of a field that is put in as it is.
pub const RAW_PREFIX: &'static str = "__RAW_";

/// Opens the placeholder of a field that is put in as a JavaScript value.
pub const VALUE_PREFIX: &'static str = "__TEMPLATE_";

/// Closes a placeholder.
pub const PLACEHOLDER_SUFFIX: &'static str = "__";

/// Opens the JavaScript expression that stands for a JSON value.
pub const LITERAL_PREFIX: &'static str = "JSON.parse('";

/// Closes the JavaScript expression that stands for a JSON value.
pub const LITERAL_SUFFIX: &'static str = "')";

/// What takes the place of a placeholder.
pub enum TemplateValue {
    /// A text that is put in as it is, with no serialization at all.
    Raw(String),
    /// A text that is put in as a JavaScript string value.
    Text(String),
    /// The text of a JSON value, which is put in as that JavaScript value.
    Json(String),
}

/// A field of a template context: its name and its value.
pub struct TemplateField {
    /// The name of the field, as the placeholder spells it.
    pub name: String,
    /// The value of the field.
    pub value: TemplateValue,
}

/// A value that could not be serialized.
#[derive(Debug)]
pub struct RenderError {
    /// The name of the field.
    pub field: String,
    /// The serializer's description of the fault.
    pub reason: String,
}

/// What a template value holds.
pub enum ValueView {
    Raw(Seq<char>),
    Text(Seq<char>),
    Json(Seq<char>),
}

/// What a template field holds.
pub struct FieldView {
    pub name: Seq<char>,
    pub value: ValueView,
}

impl View for TemplateValue {
    type V = ValueView;

    open spec fn view(&self) -> ValueView {
        match *self {
            TemplateValue::Raw(text) => ValueView::Raw(text@),
            TemplateValue::Text(text) => ValueView::Text(text@),
            TemplateValue::Json(json) => ValueView::Json(json@),
        }
    }
}

impl View for TemplateField {
    type V = FieldView;

    open spec fn view(&self) -> FieldView {
        FieldView { name: self.name@, value: self.value@ }
    }
}

/// The fields of a context, each by what it holds.
pub open spec fn field_views(fields: Seq<TemplateField>) -> Seq<FieldView> {
    fields.map_values(|field: TemplateField| field@)
}

/// The JSON text that `serde_json` writes for a string.
pub uninterp spec fn json_string(text: Seq<char>) -> Seq<char>;

/// Whether `serde_json` takes `json` as the text of one raw JSON value.
pub uninterp spec fn raw_json_text(json: Seq<char>) -> bool;

/// A character that may stand around a JSON value: a space, a line feed, a
/// tab or a carriage return.
pub open spec fn is_json_space(c: char) -> bool {
    c == ' ' || c == '\n' || c == '\t' || c == '\r'
}

/// `text` without the JSON space it starts with.
pub open spec fn without_leading_space(text: Seq<char>) -> Seq<char>
    decreases text.len(),
{
    if text.len() > 0 && is_json_space(text[0]) {
        without_leading_space(text.skip(1))
    } else {
        text
    }
}

/// `text` without the JSON space it ends with.
pub open spec fn without_trailing_space(text: Seq<char>) -> Seq<char>
    decreases text.len(),
{
    if text.len() > 0 && is_json_space(text.last()) {
        without_trailing_space(text.drop_last())
    } else {
        text
    }
}

/// The JSON value of a text, without the space around it: what a raw value
/// of `serde_json` keeps of the text it was made from.
pub open spec fn trimmed(json: Seq<char>) -> Seq<char> {
    without_trailing_space(without_leading_space(json))
}

/// `json` with a backslash before each backslash and each single quote.
pub open spec fn escaped(json: Seq<char>) -> Seq<char>
    decreases json.len(),
{
    if json.len() == 0 {
        json
    } else if json[0] == '\\' || json[0] == '\'' {
        seq!['\\', json[0]] + escaped(json.skip(1))
    } else {
        seq![json[0]] + escaped(json.skip(1))
    }
}

/// The JavaScript expression that parses `json` where the script runs.
pub open spec fn javascript_literal(json: Seq<char>) -> Seq<char> {
    LITERAL_PREFIX@ + escaped(json) + LITERAL_SUFFIX@
}

/// The placeholder that stands for a field in a template.
pub open spec fn placeholder(field: FieldView) -> Seq<char> {
    match field.value {
        ValueView::Raw(_) => RAW_PREFIX@ + field.name + PLACEHOLDER_SUFFIX@,
        _ => VALUE_PREFIX@ + field.name + PLACEHOLDER_SUFFIX@,
    }
}

/// The text that takes the place of a field's placeholder.
pub open spec fn replacement(value: ValueView) -> Seq<char> {
    match value {
        ValueView::Raw(text) => text,
        ValueView::Text(text) => javascript_literal(trimmed(json_string(text))),
        ValueView::Json(json) => javascript_literal(trimmed(json)),
    }
}

/// The value can be serialized: a raw text always, a text where its JSON
/// string is taken as a raw JSON value, a JSON text where it is taken as one.
pub open spec fn serializes(value: ValueView) -> bool {
    match value {
        ValueView::Raw(_) => true,
        ValueView::Text(text) => raw_json_text(json_string(text)),
        ValueView::Json(json) => raw_json_text(json),
    }
}

/// The name of the first field whose value cannot be serialized, if there is
/// one.
pub open spec fn first_fault(fields: Seq<FieldView>) -> Option<Seq<char>>
    decreases fields.len(),
{
    if fields.len() == 0 {
        None
    } else if !serializes(fields[0].value) {
        Some(fields[0].name)
    } else {
        first_fault(fields.skip(1))
    }
}

/// `template` with the substitutions made one after another, each on the
/// result of the one before: every occurrence of the first text of a pair is
/// replaced by the second.
pub open spec fn substituted(template: Seq<char>, pairs: Seq<(Seq<char>, Seq<char>)>) -> Seq<char>
    decreases pairs.len(),
{
    if pairs.len() == 0 {
        template
    } else {
        substituted(replaced(template, pairs[0].0, pairs[0].1), pairs.skip(1))
    }
}

/// The substitutions that the fields of a context stand for.
pub open spec fn substitutions(fields: Seq<FieldView>) -> Seq<(Seq<char>, Seq<char>)> {
    fields.map_values(|field: FieldView| (placeholder(field), replacement(field.value)))
}

/// `template` rendered with `fields`: each field in turn takes the place of
/// every occurrence of its placeholder in what the fields before it left.
pub open spec fn rendered(template: Seq<char>, fields: Seq<FieldView>) -> Seq<char> {
    substituted(template, substitutions(fields))
}

/// The JSON text of a string.
///
/// Calls `serde_json::to_string` on a `str`. By its documentation the call
/// fails only where a value refuses to be serialized or a map has a key that
/// is no string, and a `str` is neither; what it returns is a function of the
/// string alone, which the contract names [`json_string`] without saying what
/// the text is.
#[verifier::external_body]
fn json_of_text(text: &str) -> (r: Result<String, serde_json::Error>)
    ensures
        r is Ok,
        r matches Ok(json) ==> json@ == json_string(text@),
{
    serde_json::to_string(text)
}

/// The JavaScript expression for a JSON text.
///
/// Calls `serde_json::value::RawValue::from_string`, which takes the text only
/// if it is one JSON value with nothing but space around it and keeps the
/// value without that space, and `serialize_to_javascript::Serialized::new`
/// with the default options, which writes `JSON.parse('`, the kept text with
/// a backslash before each backslash and single quote, and `')`. The contract
/// states that form; whether the text is taken is a function of the text
/// alone, which the contract names [`raw_json_text`].
#[verifier::external_body]
fn javascript_of_json(json: String) -> (r: Result<String, serde_json::Error>)
    ensures
        r is Ok <==> raw_json_text(json@),
        r matches Ok(script) ==> script@ == javascript_literal(trimmed(json@)),
{
    let raw = serde_json::value::RawValue::from_string(json)?;
    let options = serialize_to_javascript::Options::default();
    Ok(serialize_to_javascript::Serialized::new(&raw, &options).into_string())
}

/// The placeholder that stands for a field in a template.
pub fn placeholder_of(field: &TemplateField) -> (text: String)
    ensures
        text@ == placeholder(field@),
{
    let mut text = match field.value {
        TemplateValue::Raw(_) => String::from_str(RAW_PREFIX),
        _ => String::from_str(VALUE_PREFIX),
    };
    text.append(field.name.as_str());
    text.append(PLACEHOLDER_SUFFIX);
    text
}

/// The text that takes the place of a field's placeholder, or the field's name
/// and the serializer's words where its value cannot be serialized.
pub fn replacement_of(field: &TemplateField) -> (r: Result<String, RenderError>)
    ensures
        match r {
            Ok(text) => serializes(field@.value) && text@ == replacement(field@.value),
            Err(e) => !serializes(field@.value) && e.field@ == field.name@,
        },
{
    let json = match &field.value {
        TemplateValue::Raw(text) => {
            return Ok(text.clone());
        },
        TemplateValue::Text(text) => match json_of_text(text.as_str()) {
            Ok(json) => json,
            Err(e) => {
                return Err(RenderError { field: field.name.clone(), reason: e.to_string() });
            },
        },
        TemplateValue::Json(json) => json.clone(),
    };
    match javascript_of_json(json) {
        Ok(script) => Ok(script),
        Err(e) => Err(RenderError { field: field.name.clone(), reason: e.to_string() }),
    }
}

/// `template` with the substitutions made one after another.
pub fn substitute(template: &str, pairs: &Vec<(String, String)>) -> (text: String)
    ensures
        text@ == substituted(template@, pairs.deep_view()),
{
    let mut text = String::from_str(template);
    let mut at: usize = 0;
    assert(pairs.deep_view().skip(0) =~= pairs.deep_view());
    while at < pairs.len()
        invariant
            at <= pairs.len(),
            substituted(template@, pairs.deep_view()) == substituted(
                text@,
                pairs.deep_view().skip(at as int),
            ),
        decreases pairs.len() - at,
    {
        let ghost rest = pairs.deep_view().skip(at as int);
        assert(rest.skip(1) =~= pairs.deep_view().skip(at + 1));
        text = replace_all(text.as_str(), pairs[at].0.as_str(), pairs[at].1.as_str());
        at += 1;
    }
    text
}

/// Where the fields before `at` can be serialized, the first fault is that of
/// the field at `at` or of one after it.
proof fn first_fault_after(fields: Seq<FieldView>, at: int)
    requires
        0 <= at <= fields.len(),
        forall|k: int| 0 <= k < at ==> serializes(#[trigger] fields[k].value),
    ensures
        first_fault(fields) == first_fault(fields.skip(at)),
    decreases at,
{
    if at > 0 {
        first_fault_after(fields.skip(1), at - 1);
        assert(fields.skip(1).skip(at - 1) =~= fields.skip(at));
    } else {
        assert(fields.skip(0) =~= fields);
    }
}

/// Renders `template` with `fields` where each value can be serialized, and
/// else tells the first field whose value cannot.
pub fn render(template: &str, fields: &Vec<TemplateField>) -> (r: Result<String, RenderError>)
    ensures
        match r {
            Ok(text) => first_fault(field_views(fields@)) is None && text@ == rendered(
                template@,
                field_views(fields@),
            ),
            Err(e) => first_fault(field_views(fields@)) == Some(e.field@),
        },
{
    let mut pairs: Vec<(String, String)> = Vec::new();
    let mut at: usize = 0;
    while at < fields.len()
        invariant
            at <= fields.len(),
            pairs.deep_view() == substitutions(field_views(fields@)).take(at as int),
            forall|k: int| 0 <= k < at ==> serializes(#[trigger] field_views(fields@)[k].value),
        decreases fields.len() - at,
    {
        let field = &fields[at];
        let name = placeholder_of(field);
        proof {
            first_fault_after(field_views(fields@), at as int);
            assert(field_views(fields@).skip(at as int)[0] == field@);
        }
        match replacement_of(field) {
            Ok(text) => {
                pairs.push((name, text));
                assert(substitutions(field_views(fields@)).take(at + 1) =~= substitutions(
                    field_views(fields@),
                ).take(at as int).push((placeholder(field@), replacement(field@.value))));
            },
            Err(e) => {
                return Err(e);
            },
        }
        at += 1;
    }
    assert(substitutions(field_views(fields@)).take(at as int) =~= substitutions(
        field_views(fields@),
    ));
    proof {
        first_fault_after(field_views(fields@), at as int);
    }
    Ok(substitute(template, &pairs))
}

} // verus!
