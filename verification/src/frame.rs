//! Event frames: the JSON updates that a graph-store subscription delivers.

use json::JsonValue;
use vstd::prelude::*;

verus! {

/// A JSON document of the `json` crate. Its inside is not visible to the
/// verifier; the functions below read it.
#[verifier::external_type_specification]
#[verifier::external_body]
pub struct ExJsonValue(JsonValue);

/// The most ASCII digits in a row that a frame may hold.
pub const LONGEST_DIGIT_RUN: usize = 32_768;

/// Whether `c` is one of the ASCII digits `0` to `9`.
pub open spec fn is_digit(c: char) -> bool {
    '0' <= c && c <= '9'
}

/// The length of the run of ASCII digits that ends just before the place
/// `end` of `text`.
pub open spec fn digit_run(text: Seq<char>, end: int) -> nat
    decreases end,
{
    if 0 < end <= text.len() && is_digit(text[end - 1]) {
        1 + digit_run(text, end - 1)
    } else {
        0
    }
}

/// Whether a text can be handed to the JSON parser: no run of ASCII digits
/// in it is longer than [`LONGEST_DIGIT_RUN`].
pub open spec fn readable(text: Seq<char>) -> bool {
    forall|end: int| 0 <= end <= text.len() ==> #[trigger] digit_run(text, end) <= LONGEST_DIGIT_RUN
}

/// The document that a frame holds: what the JSON parser reads from it,
/// `None` where the frame is not [`readable`] or the parser reports an
/// error.
pub open spec fn frame_json(text: Seq<char>) -> Option<JsonValue> {
    if readable(text) {
        parsed_json(text)
    } else {
        None
    }
}

/// The document that `json::parse` reads from `text`, `None` where it reports
/// an error.
pub uninterp spec fn parsed_json(text: Seq<char>) -> Option<JsonValue>;

/// The value that indexing `value` with the string `key` refers to: the
/// entry under `key` where `value` is an object that has one, a null value
/// otherwise.
pub uninterp spec fn json_member(value: JsonValue, key: Seq<char>) -> JsonValue;

/// The text that `JsonValue::as_str` finds in `value`, `None` where `value`
/// is not a string.
pub uninterp spec fn json_text(value: JsonValue) -> Option<Seq<char>>;

/// The text that `JsonValue::dump` writes for `value`.
pub uninterp spec fn json_dump(value: JsonValue) -> Seq<char>;

/// Calls `json::parse`. Trusted: the outcome depends on the text alone, and
/// an error of the parser is handed back as `None`. The parser counts the
/// digits of a fraction in a 16-bit exponent without a guard, and panics on
/// a fraction of more digits than that can hold, so a text with a longer
/// run of digits is not admitted.
#[verifier::external_body]
pub(crate) fn parse_json(text: &str) -> (parsed: Option<JsonValue>)
    requires
        readable(text@),
    ensures
        parsed == parsed_json(text@),
{
    json::parse(text).ok()
}

/// Calls `JsonValue`'s `Index<&str>`. Trusted: the value referred to depends
/// on the document and the key alone. That a missing entry reads as a null
/// value is not part of the contract.
#[verifier::external_body]
pub(crate) fn member<'a>(value: &'a JsonValue, key: &str) -> (found: &'a JsonValue)
    ensures
        *found == json_member(*value, key@),
{
    &value[key]
}

/// Calls `JsonValue::as_str`. Trusted: the text handed back depends on the
/// value alone.
#[verifier::external_body]
pub(crate) fn text_of<'a>(value: &'a JsonValue) -> (text: Option<&'a str>)
    ensures
        text_view(text) == json_text(*value),
{
    value.as_str()
}

/// Calls `JsonValue::dump`. Trusted: the text written depends on the value
/// alone.
#[verifier::external_body]
pub(crate) fn dump_json(value: &JsonValue) -> (text: String)
    ensures
        text@ == json_dump(*value),
{
    value.dump()
}

/// Decides whether a text can be handed to the JSON parser.
pub fn is_readable(text: &str) -> (fits: bool)
    ensures
        fits == readable(text@),
{
    let mut run: usize = 0;
    for c in it: text.chars()
        invariant
            it.seq() == text@,
            run == digit_run(text@, it.index() as int),
            forall|end: int|
                0 <= end <= it.index() ==> #[trigger] digit_run(text@, end) <= LONGEST_DIGIT_RUN,
    {
        if '0' <= c && c <= '9' {
            if run == LONGEST_DIGIT_RUN {
                assert(digit_run(text@, it.index() + 1) > LONGEST_DIGIT_RUN);
                return false;
            }
            run += 1;
        } else {
            run = 0;
        }
    }
    true
}

/// Reads the document that a frame holds.
pub fn read_frame(text: &str) -> (document: Option<JsonValue>)
    ensures
        document == frame_json(text@),
{
    if is_readable(text) {
        parse_json(text)
    } else {
        None
    }
}

/// The characters of an optional string slice.
pub open spec fn text_view(text: Option<&str>) -> Option<Seq<char>> {
    match text {
        Some(s) => Some(s@),
        None => None,
    }
}

/// The resource descriptor of a graph-store update: the member `resource` of
/// the member `add-nodes` of the member `graph-update`.
pub open spec fn resource_of(update: JsonValue) -> JsonValue {
    json_member(
        json_member(json_member(update, "graph-update"@), "add-nodes"@),
        "resource"@,
    )
}

/// The nodes of a graph-store update: the member `nodes` of the member
/// `add-nodes` of the member `graph-update`.
pub open spec fn nodes_of(update: JsonValue) -> JsonValue {
    json_member(json_member(json_member(update, "graph-update"@), "add-nodes"@), "nodes"@)
}

/// The ship that an update's resource descriptor names, where it names one
/// as a string.
pub open spec fn resource_ship(update: JsonValue) -> Option<Seq<char>> {
    json_text(json_member(resource_of(update), "ship"@))
}

/// The chat that an update's resource descriptor names, where it names one
/// as a string.
pub open spec fn resource_name(update: JsonValue) -> Option<Seq<char>> {
    json_text(json_member(resource_of(update), "name"@))
}

/// Reads the ship and the name of the resource descriptor of `update`.
pub fn read_resource<'a>(update: &'a JsonValue) -> (found: (Option<&'a str>, Option<&'a str>))
    ensures
        text_view(found.0) == resource_ship(*update),
        text_view(found.1) == resource_name(*update),
{
    let resource = member(member(member(update, "graph-update"), "add-nodes"), "resource");
    (text_of(member(resource, "ship")), text_of(member(resource, "name")))
}

/// Writes out the nodes of `update`.
pub fn write_nodes(update: &JsonValue) -> (text: String)
    ensures
        text@ == json_dump(nodes_of(*update)),
{
    dump_json(member(member(member(update, "graph-update"), "add-nodes"), "nodes"))
}

} // verus!
