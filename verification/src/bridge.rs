//! The calls that leave this crate.
//!
//! Nothing here is proved: each item states what the code behind it is taken
//! to do. Results that are too intricate to write down are given a name, and
//! the rest of the crate reasons about them through that name alone.

use crate::text::{has_infix, some_text};
use chrono::DateTime;
use regex::Regex;
use vstd::prelude::*;

verus! {

/// What the first capture group of the regular expression `pattern` matched at
/// the leftmost match in `text`, as the `regex` crate finds it. There is none
/// where `pattern` is not a valid expression, where nothing in `text` matches,
/// or where the group took no part in the match.
pub uninterp spec fn first_group(pattern: Seq<char>, text: Seq<char>) -> Option<Seq<char>>;

/// The lower-case form of `s` as `str::to_lowercase` gives it.
pub uninterp spec fn lowercase(s: Seq<char>) -> Seq<char>;

/// The text that `chrono` writes for the moment `seconds` and `nanoseconds`
/// after the Unix epoch, in UTC, under the strftime layout `layout`. There is
/// none where chrono cannot write it, as for a moment out of its range or a
/// layout that it does not accept.
pub uninterp spec fn timestamp_text(seconds: int, nanoseconds: int, layout: Seq<char>) -> Option<
    Seq<char>,
>;

/// `str::to_lowercase`: claimed to return `lowercase` of its argument.
pub assume_specification[ str::to_lowercase ](s: &str) -> (out: String)
    ensures
        out@ == lowercase(s@),
;

/// `Regex::new` followed by `Regex::captures` and `Captures::get(1)`: claimed
/// to return `first_group` of its arguments, and a group that was found to be
/// a piece of `text`, since a match is a slice of the text searched.
#[verifier::external_body]
pub(crate) fn capture_first_group(pattern: &str, text: &str) -> (out: Option<String>)
    ensures
        some_text(out) == first_group(pattern@, text@),
        out matches Some(group) ==> has_infix(text@, group@),
{
    let expression = Regex::new(pattern).ok()?;
    let captures = expression.captures(text)?;
    captures.get(1).map(|group| group.as_str().to_string())
}

/// `DateTime::from_timestamp` followed by `DateTime::format` and
/// `DelayedFormat::write_to`: claimed to return `timestamp_text` of its
/// arguments.
#[verifier::external_body]
pub(crate) fn render_timestamp(seconds: i64, nanoseconds: u32, layout: &str) -> (out: Option<
    String,
>)
    ensures
        some_text(out) == timestamp_text(seconds as int, nanoseconds as int, layout@),
{
    let moment = DateTime::from_timestamp(seconds, nanoseconds)?;
    let mut out = String::new();
    match moment.format(layout).write_to(&mut out) {
        Ok(()) => Some(out),
        Err(_) => None,
    }
}

} // verus!
