//! The calls this library makes into code it does not verify: lossy UTF-8
//! decoding and `{:?}` quoting from std, and JSON parsing from `serde_json`.
//! Each is a small wrapper whose contract names the result; what the
//! library does with that result is verified elsewhere.

use vstd::prelude::*;
use vstd::utf8::{decode_utf8, valid_utf8};

use crate::text::strs_view;

verus! {

/// What `String::from_utf8_lossy` makes of `bytes`: the decoded text, with
/// each invalid sequence replaced by U+FFFD.
pub uninterp spec fn utf8_lossy_text(bytes: Seq<u8>) -> Seq<char>;

/// Decodes `bytes` as UTF-8, replacing invalid sequences with U+FFFD
/// (`String::from_utf8_lossy`). Claimed: the result is a function of the
/// bytes alone, and valid UTF-8 comes back as exactly the text it encodes
/// (std documents that valid input is returned unchanged).
#[verifier::external_body]
pub(crate) fn utf8_lossy(bytes: &[u8]) -> (r: String)
    ensures
        r@ == utf8_lossy_text(bytes@),
        valid_utf8(bytes@) ==> r@ == decode_utf8(bytes@),
{
    String::from_utf8_lossy(bytes).into_owned()
}

/// The text lossy decoding gives for `bytes`: for valid UTF-8 exactly the
/// text it encodes, otherwise what `String::from_utf8_lossy` makes of it.
pub open spec fn lossy_text(bytes: Seq<u8>) -> Seq<char> {
    if valid_utf8(bytes) {
        decode_utf8(bytes)
    } else {
        utf8_lossy_text(bytes)
    }
}

/// What `format!("{:?}", s)` prints for a string slice: `s` in double
/// quotes, with quotes, backslashes and unprintable characters escaped.
pub uninterp spec fn debug_quoted(s: Seq<char>) -> Seq<char>;

/// The `Debug` rendering of `s` (`format!("{:?}", s)`). Claimed: the
/// result is a function of the characters of `s` alone; nothing is said of
/// the escaping rules.
#[verifier::external_body]
pub(crate) fn debug_str(s: &str) -> (r: String)
    ensures
        r@ == debug_quoted(s@),
{
    format!("{:?}", s)
}

/// What `serde_json` finds in the JSON document `text` under the top-level
/// key `key`: the parser's message when `text` is not JSON; `None` when the
/// document has no array under `key`; otherwise, for each element of that
/// array and each path in `paths`, the string reached by following the path
/// through nested objects (`None` where a step is missing or the value
/// reached is not a string).
pub uninterp spec fn json_string_fields(
    text: Seq<char>,
    key: Seq<char>,
    paths: Seq<Seq<Seq<char>>>,
) -> Result<Option<Seq<Seq<Option<Seq<char>>>>>, Seq<char>>;

/// The views of the paths handed to `read_json_string_fields`.
pub open spec fn paths_view(paths: Seq<Vec<&str>>) -> Seq<Seq<Seq<char>>> {
    paths.map_values(|p: Vec<&str>| strs_view(p@))
}

/// The views of the string fields read from one array element.
pub open spec fn fields_view(fields: Vec<Option<String>>) -> Seq<Option<Seq<char>>> {
    fields@.map_values(
        |f: Option<String>|
            match f {
                Some(s) => Some(s@),
                None => None,
            },
    )
}

/// The view of a `read_json_string_fields` result.
pub open spec fn json_fields_view(r: Result<Option<Vec<Vec<Option<String>>>>, String>) -> Result<
    Option<Seq<Seq<Option<Seq<char>>>>>,
    Seq<char>,
> {
    match r {
        Err(e) => Err(e@),
        Ok(None) => Ok(None),
        Ok(Some(items)) => Ok(Some(items@.map_values(|f: Vec<Option<String>>| fields_view(f)))),
    }
}

/// Parses `text` with `serde_json::from_str` into a `serde_json::Value`
/// and reads, from each element of the array under `key`, the string at
/// each of `paths` (`Value::get` per step, then `Value::as_str`). A parse
/// failure comes back as the error's `Display` text. Claimed: the result is
/// the named function `json_string_fields` of the three arguments; nothing
/// more is said of JSON syntax.
#[verifier::external_body]
pub(crate) fn read_json_string_fields(text: &str, key: &str, paths: &[Vec<&str>]) -> (r: Result<
    Option<Vec<Vec<Option<String>>>>,
    String,
>)
    ensures
        json_fields_view(r) == json_string_fields(text@, key@, paths_view(paths@)),
{
    let value: serde_json::Value = serde_json::from_str(text).map_err(|e| e.to_string())?;
    Ok(value.get(key).and_then(serde_json::Value::as_array).map(|items| {
        items.iter().map(|item| {
            paths.iter().map(|path| {
                path.iter().try_fold(item, |node, step| node.get(*step))
                    .and_then(serde_json::Value::as_str).map(str::to_string)
            }).collect()
        }).collect()
    }))
}

} // verus!
