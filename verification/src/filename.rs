//! File names for downloads: the name that the server announces in its
//! `Content-Disposition` header, or else a default made from the identifier.

use crate::error::DownloadError;
use crate::text::{chars_of, decimal, find_from, first_occurrence, u32_to_decimal};
use std::string::FromUtf8Error;
use vstd::prelude::*;
use vstd::string::*;

verus! {

#[verifier::external_type_specification]
#[verifier::external_body]
pub struct ExFromUtf8Error(FromUtf8Error);

/// What `urlencoding::decode` makes of `text`: the decoded text, or nothing
/// where the decoded bytes are no UTF-8.
pub uninterp spec fn percent_decoded(text: Seq<char>) -> Option<Seq<char>>;

/// The text that introduces the file name in a header.
pub open spec fn marker() -> Seq<char> {
    seq!['f', 'i', 'l', 'e', 'n', 'a', 'm', 'e', '=']
}

/// The least index `j >= from` that is `to` or holds no double quote.
pub open spec fn skip_quotes(s: Seq<char>, from: int, to: int) -> int
    decreases to - from,
{
    if 0 <= from < to <= s.len() && s[from] == '"' {
        skip_quotes(s, from + 1, to)
    } else {
        from
    }
}

/// The greatest index `j <= to` that is `from` or follows something other
/// than a double quote.
pub open spec fn skip_quotes_back(s: Seq<char>, from: int, to: int) -> int
    decreases to - from,
{
    if 0 <= from < to <= s.len() && s[to - 1] == '"' {
        skip_quotes_back(s, from, to - 1)
    } else {
        to
    }
}

/// `s` without the double quotes at its start and at its end.
pub open spec fn trim_quotes(s: Seq<char>) -> Seq<char> {
    let start = skip_quotes(s, 0, s.len() as int);
    s.subrange(start, skip_quotes_back(s, start, s.len() as int))
}

/// The part of a header between its first `filename=` and the next one, or
/// the end of the header where there is no next one.
pub open spec fn value_after_marker(header: Seq<char>) -> Option<Seq<char>> {
    match first_occurrence(header, marker(), 0) {
        Some(at) => {
            let start = at + marker().len();
            match first_occurrence(header, marker(), start) {
                Some(end) => Some(header.subrange(start, end)),
                None => Some(header.subrange(start, header.len() as int)),
            }
        },
        None => None,
    }
}

/// The file name that a header announces, still percent-encoded.
pub open spec fn announced_name(header: Seq<char>) -> Option<Seq<char>> {
    match value_after_marker(header) {
        Some(value) => Some(trim_quotes(value)),
        None => None,
    }
}

/// The default file name of an item: its identifier and the extension `.osz`.
pub open spec fn default_name_of(id: u32) -> Seq<char> {
    decimal(id as nat) + ".osz"@
}

/// The file name for a download, from the default and the encoded name that
/// the header announces, given what decoding makes of that name.
pub open spec fn chosen_name(
    default_name: Seq<char>,
    announced: Option<Seq<char>>,
    decoded: Option<Seq<char>>,
) -> Result<Seq<char>, DownloadError> {
    match announced {
        None => Ok(default_name),
        Some(_) => match decoded {
            Some(name) => Ok(name),
            None => Err(DownloadError::FileName),
        },
    }
}

/// Calls `urlencoding::decode`.
///
/// Claimed of it, from its source: its result depends on the text alone, and
/// text without a percent sign comes back as it is.
#[verifier::external_body]
fn percent_decode(text: &str) -> (decoded: Result<String, FromUtf8Error>)
    ensures
        match decoded {
            Ok(name) => percent_decoded(text@) == Some(name@),
            Err(_) => percent_decoded(text@).is_none(),
        },
        !text@.contains('%') ==> decoded is Ok && decoded->Ok_0@ == text@,
{
    urlencoding::decode(text).map(|name| name.into_owned())
}

/// The default file name of an item.
pub fn default_file_name(id: u32) -> (name: String)
    ensures
        name@ == default_name_of(id),
{
    let mut name = u32_to_decimal(id);
    name.append(".osz");
    name
}

/// The file name that a `Content-Disposition` header announces, as written
/// there: what follows the first `filename=` up to the next one, without the
/// double quotes around it.
pub fn announced_file_name(header: &str) -> (name: Option<String>)
    ensures
        match name {
            Some(text) => announced_name(header@) == Some(text@),
            None => announced_name(header@).is_none(),
        },
{
    let chars = chars_of(header);
    let mut mark: Vec<char> = Vec::new();
    mark.push('f');
    mark.push('i');
    mark.push('l');
    mark.push('e');
    mark.push('n');
    mark.push('a');
    mark.push('m');
    mark.push('e');
    mark.push('=');
    assert(mark@ =~= marker());
    let at = match find_from(&chars, &mark, 0) {
        Some(at) => at,
        None => {
            return None;
        },
    };
    proof {
        crate::text::lemma_first_occurrence(chars@, mark@, 0);
    }
    let n = chars.len();
    let start = at + mark.len();
    let end = match find_from(&chars, &mark, start) {
        Some(end) => end,
        None => n,
    };
    proof {
        crate::text::lemma_first_occurrence(chars@, mark@, start as int);
    }
    let ghost value = chars@.subrange(start as int, end as int);
    assert(value_after_marker(header@) == Some(value));
    let mut from: usize = start;
    while from < end && chars[from] == '"'
        invariant
            start <= from <= end <= chars@.len(),
            value == chars@.subrange(start as int, end as int),
            skip_quotes(value, 0, value.len() as int) == skip_quotes(
                value,
                from - start,
                value.len() as int,
            ),
        decreases end - from,
    {
        assert(value[from - start] == chars@[from as int]);
        from = from + 1;
    }
    assert(from < end ==> value[from - start] == chars@[from as int]);
    let mut to: usize = end;
    while from < to && chars[to - 1] == '"'
        invariant
            start <= from <= to <= end <= chars@.len(),
            value == chars@.subrange(start as int, end as int),
            skip_quotes_back(value, from - start, value.len() as int) == skip_quotes_back(
                value,
                from - start,
                to - start,
            ),
        decreases to - from,
    {
        assert(value[to - 1 - start] == chars@[to - 1]);
        to = to - 1;
    }
    assert(from < to ==> value[to - 1 - start] == chars@[to - 1]);
    let name = header.substring_char(from, to);
    assert(name@ =~= trim_quotes(value));
    Some(String::from_str(name))
}

/// Turns the outcome of decoding an announced name into a file name or a
/// download failure.
pub fn file_name_from_decoded(decoded: Result<String, FromUtf8Error>) -> (name: Result<
    String,
    DownloadError,
>)
    ensures
        match decoded {
            Ok(text) => name == Ok::<String, DownloadError>(text),
            Err(_) => name == Err::<String, DownloadError>(DownloadError::FileName),
        },
{
    match decoded {
        Ok(text) => Ok(text),
        Err(_) => Err(DownloadError::FileName),
    }
}

/// The name to store a download under.
///
/// Without a header, or with one that announces no name, that is
/// `default_name`. An announced name is percent-decoded; one that does not
/// decode to text fails the download.
pub fn choose_file_name(default_name: String, content_disposition: Option<&str>) -> (name: Result<
    String,
    DownloadError,
>)
    ensures
        match content_disposition {
            None => name == Ok::<String, DownloadError>(default_name),
            Some(header) => match announced_name(header@) {
                None => name == Ok::<String, DownloadError>(default_name),
                Some(encoded) => match percent_decoded(encoded) {
                    Some(text) => name is Ok && name->Ok_0@ == text,
                    None => name == Err::<String, DownloadError>(DownloadError::FileName),
                },
            },
        },
        content_disposition matches Some(header) ==> (announced_name(header@) matches Some(encoded)
            ==> (!encoded.contains('%') ==> name is Ok && name->Ok_0@ == encoded)),
{
    match content_disposition {
        None => Ok(default_name),
        Some(header) => match announced_file_name(header) {
            None => Ok(default_name),
            Some(encoded) => file_name_from_decoded(percent_decode(encoded.as_str())),
        },
    }
}

} // verus!
