//! Trusted boundary to `serde_json`, and the task-line grammar.
//!
//! A task line is either a JSON object — whose first string-valued field
//! other than `nature` supplies the identity and the command, with the
//! optional `nature` field supplying the nature — or a raw shell command.
//! Parsing a given line is a pure function of its text, so what serde
//! reports is named by uninterpreted spec functions and the grammar's
//! decisions are verified above them.

use vstd::prelude::*;

verus! {

#[verifier::external_type_specification]
#[verifier::external_body]
pub struct ExJsonValue(serde_json::Value);

/// Whether `s` parses as JSON.
pub uninterp spec fn json_parses(s: Seq<char>) -> bool;

/// The fields of the JSON object that `line` parses to, in the object's
/// order: each field's key, paired with its text when the field's value
/// is a JSON string. Nothing when `line` is not a JSON object.
pub uninterp spec fn json_object_string_fields(line: Seq<char>) -> Option<
    Seq<(Seq<char>, Option<Seq<char>>)>,
>;

/// Relies on `serde_json::from_str::<Value>`: whether `s` parses as
/// JSON; parsing is a pure function of the text. The parsed value is
/// carried through opaquely.
#[verifier::external_body]
pub fn parse_json_text(s: &str) -> (r: Option<serde_json::Value>)
    ensures
        r is Some <==> json_parses(s@),
{
    serde_json::from_str::<serde_json::Value>(s).ok()
}

/// Relies on `serde_json::from_str::<Value>` and `Value::as_object`: the
/// object's fields in the order the parsed map yields them, each key
/// paired with its value's text when that value is a JSON string;
/// nothing when the line is not a JSON object. A pure function of the
/// line's text.
#[verifier::external_body]
pub fn parse_task_line_fields(line: &str) -> (r: Option<Vec<(String, Option<String>)>>)
    ensures
        r matches Some(v) ==> json_object_string_fields(line@) == Some(v.deep_view()),
        r is None ==> json_object_string_fields(line@) is None,
{
    let value: serde_json::Value = serde_json::from_str(line).ok()?;
    let obj = value.as_object()?;
    Some(obj.iter().map(|(k, v)| (k.clone(), v.as_str().map(|s| s.to_string()))).collect())
}

/// The first field whose key is not `nature` and whose value is a JSON
/// string: its key (the identity) and its text (the command).
pub open spec fn first_task_field(fields: Seq<(Seq<char>, Option<Seq<char>>)>) -> Option<
    (Seq<char>, Seq<char>),
>
    decreases fields.len(),
{
    if fields.len() == 0 {
        None
    } else if fields[0].0 != "nature"@ && fields[0].1 is Some {
        Some((fields[0].0, fields[0].1.unwrap()))
    } else {
        first_task_field(fields.drop_first())
    }
}

/// The text of the first field named `nature` whose value is a JSON
/// string.
pub open spec fn nature_field(fields: Seq<(Seq<char>, Option<Seq<char>>)>) -> Option<Seq<char>>
    decreases fields.len(),
{
    if fields.len() == 0 {
        None
    } else if fields[0].0 == "nature"@ && fields[0].1 is Some {
        Some(fields[0].1.unwrap())
    } else {
        nature_field(fields.drop_first())
    }
}

/// What a task line denotes: `(command, identity, nature)`. A line that
/// is not a JSON object is the command itself, with no identity and the
/// default nature `json`. A JSON object's first string-valued field
/// other than `nature` supplies identity and command (with the
/// placeholder command `no task found` when there is none), and its
/// `nature` field supplies the nature, defaulting to `json`.
pub open spec fn spec_task_line(line: Seq<char>) -> (Seq<char>, Option<Seq<char>>, Seq<char>) {
    match json_object_string_fields(line) {
        Some(fields) => {
            let nature = match nature_field(fields) {
                Some(n) => n,
                None => "json"@,
            };
            match first_task_field(fields) {
                Some(f) => (f.1, Some(f.0), nature),
                None => ("no task found"@, None, nature),
            }
        },
        None => (line, None, "json"@),
    }
}

pub proof fn lemma_first_task_field_skip(fields: Seq<(Seq<char>, Option<Seq<char>>)>, i: int)
    requires
        0 <= i <= fields.len(),
        forall|j: int|
            0 <= j < i ==> (#[trigger] fields[j]).0 == "nature"@ || fields[j].1 is None,
    ensures
        first_task_field(fields) == first_task_field(fields.skip(i)),
    decreases i,
{
    if i > 0 {
        assert(fields.skip(i - 1).drop_first() =~= fields.skip(i));
        lemma_first_task_field_skip(fields, i - 1);
    } else {
        assert(fields.skip(0) =~= fields);
    }
}

pub proof fn lemma_nature_field_skip(fields: Seq<(Seq<char>, Option<Seq<char>>)>, i: int)
    requires
        0 <= i <= fields.len(),
        forall|j: int|
            0 <= j < i ==> (#[trigger] fields[j]).0 != "nature"@ || fields[j].1 is None,
    ensures
        nature_field(fields) == nature_field(fields.skip(i)),
    decreases i,
{
    if i > 0 {
        assert(fields.skip(i - 1).drop_first() =~= fields.skip(i));
        lemma_nature_field_skip(fields, i - 1);
    } else {
        assert(fields.skip(0) =~= fields);
    }
}

/// Finds the first field named `nature` with a string value.
pub fn find_nature_field(fields: &Vec<(String, Option<String>)>) -> (r: Option<String>)
    ensures
        r.deep_view() == nature_field(fields.deep_view()),
{
    let ghost fv = fields.deep_view();
    let mut i: usize = 0;
    while i < fields.len()
        invariant
            0 <= i <= fields.len(),
            fv == fields.deep_view(),
            fv.len() == fields.len(),
            forall|j: int| 0 <= j < fields.len() ==> fv[j] == #[trigger] fields[j].deep_view(),
            forall|j: int|
                0 <= j < i ==> (#[trigger] fv[j]).0 != "nature"@ || fv[j].1 is None,
        decreases fields.len() - i,
    {
        let key_is_nature = crate::textutil::str_eq(fields[i].0.as_str(), "nature");
        if key_is_nature {
            match &fields[i].1 {
                Some(text) => {
                    proof {
                        lemma_nature_field_skip(fv, i as int);
                        assert(fv.skip(i as int)[0] == fv[i as int]);
                    }
                    return Some(text.clone());
                },
                None => {},
            }
        }
        i = i + 1;
    }
    proof {
        lemma_nature_field_skip(fv, fv.len() as int);
        assert(fv.skip(fv.len() as int) =~= Seq::<(Seq<char>, Option<Seq<char>>)>::empty());
    }
    None
}

/// Finds the first field other than `nature` with a string value: the
/// task's identity and command.
pub fn find_task_field(fields: &Vec<(String, Option<String>)>) -> (r: Option<(String, String)>)
    ensures
        r matches Some(f) ==> first_task_field(fields.deep_view()) == Some((f.0@, f.1@)),
        r is None ==> first_task_field(fields.deep_view()) is None,
{
    let ghost fv = fields.deep_view();
    let mut i: usize = 0;
    while i < fields.len()
        invariant
            0 <= i <= fields.len(),
            fv == fields.deep_view(),
            fv.len() == fields.len(),
            forall|j: int| 0 <= j < fields.len() ==> fv[j] == #[trigger] fields[j].deep_view(),
            forall|j: int|
                0 <= j < i ==> (#[trigger] fv[j]).0 == "nature"@ || fv[j].1 is None,
        decreases fields.len() - i,
    {
        let key_is_nature = crate::textutil::str_eq(fields[i].0.as_str(), "nature");
        if !key_is_nature {
            match &fields[i].1 {
                Some(text) => {
                    proof {
                        lemma_first_task_field_skip(fv, i as int);
                        assert(fv.skip(i as int)[0] == fv[i as int]);
                    }
                    return Some((fields[i].0.clone(), text.clone()));
                },
                None => {},
            }
        }
        i = i + 1;
    }
    proof {
        lemma_first_task_field_skip(fv, fv.len() as int);
        assert(fv.skip(fv.len() as int) =~= Seq::<(Seq<char>, Option<Seq<char>>)>::empty());
    }
    None
}

/// Law: a task line that is not a JSON object denotes the command
/// verbatim, with no identity and the default nature `json`.
pub proof fn lemma_raw_task_line(line: Seq<char>)
    requires
        json_object_string_fields(line) is None,
    ensures
        spec_task_line(line) == (line, None::<Seq<char>>, "json"@),
{
}

/// Parses a task line into `(command, identity, nature)`, exactly as
/// `spec_task_line` says.
pub fn parse_task_line(line: &str) -> (r: (String, Option<String>, String))
    ensures
        (r.0@, r.1.deep_view(), r.2@) == spec_task_line(line@),
{
    match parse_task_line_fields(line) {
        Some(fields) => {
            let nature = match find_nature_field(&fields) {
                Some(n) => n,
                None => "json".to_owned(),
            };
            match find_task_field(&fields) {
                Some(f) => (f.1, Some(f.0), nature),
                None => ("no task found".to_owned(), None, nature),
            }
        },
        None => (line.to_owned(), None, "json".to_owned()),
    }
}

} // verus!
