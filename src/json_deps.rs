use vstd::prelude::*;

verus! {

/// The `json` crate's document value, opaque here: what the logic reads of
/// it goes through the names and trusted items below.
#[verifier::external_type_specification]
#[verifier::external_body]
pub struct ExJsonValue(json::JsonValue);

/// The document that `json::parse` reads from a text, or `None` where it reports an error.
pub uninterp spec fn parsed_json(text: Seq<char>) -> Option<json::JsonValue>;

/// The fields of a JSON object by key; empty for any other value.
pub uninterp spec fn json_fields(v: json::JsonValue) -> Map<Seq<char>, json::JsonValue>;

/// The members of a JSON array, in order; empty for any other value.
pub uninterp spec fn json_members(v: json::JsonValue) -> Seq<json::JsonValue>;

/// The text of a JSON string; `None` for any other value.
pub uninterp spec fn json_text(v: json::JsonValue) -> Option<Seq<char>>;

/// Relies on `json::parse`: the parsed document, its error mapped to `None`.
#[verifier::external_body]
fn parse_json(text: &str) -> (r: Option<json::JsonValue>)
    ensures
        r == parsed_json(text@),
{
    json::parse(text).ok()
}

/// Relies on `JsonValue::has_key`: true exactly when the value is an object
/// with a field of that key.
pub assume_specification[ json::JsonValue::has_key ](v: &json::JsonValue, key: &str) -> (r: bool)
    ensures
        r == json_fields(*v).contains_key(key@),
;

/// Relies on `JsonValue: Index<&str>`: the field of that key of an object.
#[verifier::external_body]
fn field<'a>(v: &'a json::JsonValue, key: &str) -> (r: &'a json::JsonValue)
    ensures
        json_fields(*v).contains_key(key@) ==> *r == json_fields(*v)[key@],
{
    &v[key]
}

/// Relies on `JsonValue::members`: the number of members it walks.
#[verifier::external_body]
fn member_count(v: &json::JsonValue) -> (r: usize)
    ensures
        r == json_members(*v).len(),
{
    v.members().len()
}

/// Relies on `JsonValue: Index<usize>`: the member at that position of an array.
#[verifier::external_body]
fn member(v: &json::JsonValue, i: usize) -> (r: &json::JsonValue)
    requires
        i < json_members(*v).len(),
    ensures
        *r == json_members(*v)[i as int],
{
    &v[i]
}

/// Relies on `JsonValue::as_str`: the text of a string value.
pub assume_specification<'a>[ json::JsonValue::as_str ](v: &'a json::JsonValue) -> (r: Option<&'a str>)
    ensures
        match r {
            Some(s) => json_text(*v) == Some(s@),
            None => json_text(*v) is None,
        },
;

/// The view of an optional string slice.
pub open spec fn opt_str_view(s: Option<&str>) -> Option<Seq<char>> {
    match s {
        Some(t) => Some(t@),
        None => None,
    }
}

/// The view of an optional list of strings.
pub open spec fn opt_list_view(l: Option<Vec<String>>) -> Option<Seq<Seq<char>>> {
    match l {
        Some(v) => Some(v.deep_view()),
        None => None,
    }
}

/// The texts of those of `items` that are strings, in order; other values are skipped.
pub open spec fn string_members(items: Seq<json::JsonValue>) -> Seq<Seq<char>>
    decreases items.len(),
{
    if items.len() == 0 {
        seq![]
    } else {
        match json_text(items.last()) {
            Some(t) => string_members(items.drop_last()).push(t),
            None => string_members(items.drop_last()),
        }
    }
}

/// The include list of a structured record: the strings under the field
/// `Includes` of the field `Data` of the top-level object, or `None` where
/// either field is missing.
pub open spec fn listed_includes(doc: json::JsonValue) -> Option<Seq<Seq<char>>> {
    let top = json_fields(doc);
    if !top.contains_key("Data"@) {
        None
    } else {
        let data = json_fields(top["Data"@]);
        if !data.contains_key("Includes"@) {
            None
        } else {
            Some(string_members(json_members(data["Includes"@])))
        }
    }
}

/// The dependencies that a structured record lists: its include list with
/// the unit's own source path appended. `None` where the include list is
/// missing or the source path has no text form.
pub open spec fn structured_dependency_list(doc: json::JsonValue, src: Option<Seq<char>>) -> Option<
    Seq<Seq<char>>,
> {
    match (listed_includes(doc), src) {
        (Some(l), Some(s)) => Some(l.push(s)),
        _ => None,
    }
}

/// The dependencies that a structured record lists, for the unit whose
/// source path is `src` (`None` where that path has no text form).
pub fn dependencies_from_document(doc: &json::JsonValue, src: Option<&str>) -> (r: Option<
    Vec<String>,
>)
    ensures
        opt_list_view(r) == structured_dependency_list(*doc, opt_str_view(src)),
{
    if !doc.has_key("Data") {
        return None;
    }
    let data = field(doc, "Data");
    if !data.has_key("Includes") {
        return None;
    }
    let includes = field(data, "Includes");
    let src_file = match src {
        Some(s) => s,
        None => return None,
    };
    let n = member_count(includes);
    let ghost items = json_members(*includes);
    let mut out: Vec<String> = Vec::new();
    let mut i: usize = 0;
    while i < n
        invariant
            i <= n,
            n == items.len(),
            items == json_members(*includes),
            out.deep_view() == string_members(items.subrange(0, i as int)),
        decreases n - i,
    {
        let m = member(includes, i);
        assert(items.subrange(0, i + 1).drop_last() =~= items.subrange(0, i as int));
        match m.as_str() {
            Some(t) => {
                let ghost before = out.deep_view();
                out.push(t.to_owned());
                assert(out.deep_view() =~= before.push(t@));
            },
            None => {},
        }
        i = i + 1;
    }
    assert(items.subrange(0, n as int) =~= items);
    let ghost before = out.deep_view();
    out.push(src_file.to_owned());
    assert(out.deep_view() =~= before.push(src_file@));
    Some(out)
}

/// Reads a structured dependency record: parses it as JSON and takes the
/// dependencies it lists; `None` where it does not parse or lacks the
/// include list.
pub fn structured_dependencies(text: &str, src: Option<&str>) -> (r: Option<Vec<String>>)
    ensures
        opt_list_view(r) == match parsed_json(text@) {
            Some(doc) => structured_dependency_list(doc, opt_str_view(src)),
            None => None,
        },
{
    match parse_json(text) {
        Some(doc) => dependencies_from_document(&doc, src),
        None => None,
    }
}

} // verus!
