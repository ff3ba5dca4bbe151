//! Download addresses: a server's URL template with the item's identifier
//! filled in.
//!
//! A template is text with the placeholder `{beatmap_id}`. Filling in is left
//! to the `strfmt` crate, so whatever else its format strings allow (doubled
//! braces, widths, alignments) works here as it does there.

use crate::error::DownloadError;
use crate::text::{chars_of, decimal, is_digit};
use std::collections::HashMap;
use vstd::prelude::*;
use vstd::string::*;

verus! {

#[verifier::external_type_specification]
#[verifier::external_body]
pub struct ExFmtError(strfmt::FmtError);

/// What `strfmt::strfmt` makes of `template` when the one variable `key` has
/// the value `id`: the formatted text, or nothing where it reports an error.
pub uninterp spec fn strfmt_output(template: Seq<char>, key: Seq<char>, id: u32) -> Option<
    Seq<char>,
>;

/// The name of the variable that a template refers to.
pub open spec fn key_chars() -> Seq<char> {
    seq!['b', 'e', 'a', 't', 'm', 'a', 'p', '_', 'i', 'd']
}

/// The placeholder: the variable's name in braces.
pub open spec fn placeholder() -> Seq<char> {
    seq!['{', 'b', 'e', 'a', 't', 'm', 'a', 'p', '_', 'i', 'd', '}']
}

/// Longest run of digits that a template may hold between braces.
pub const MAX_FIELD_DIGITS: usize = 4;

/// From index `from` on, no run of digits inside a field is longer than
/// `MAX_FIELD_DIGITS`. A field begins at an opening brace and ends at the
/// next closing brace; an opening brace right after the one that began a
/// field makes the two a literal brace and no field. `in_field` tells
/// whether `from` lies in a field, `fresh` whether the field began just
/// before `from`, and `run` how many digits end just before `from`.
pub open spec fn field_digits_bounded(
    t: Seq<char>,
    from: int,
    in_field: bool,
    fresh: bool,
    run: nat,
) -> bool
    decreases t.len() - from,
{
    if from < 0 || from >= t.len() {
        true
    } else if t[from] == '{' {
        if in_field && fresh {
            field_digits_bounded(t, from + 1, false, false, 0)
        } else {
            field_digits_bounded(t, from + 1, true, true, 0)
        }
    } else if t[from] == '}' {
        field_digits_bounded(t, from + 1, false, false, 0)
    } else if in_field && is_digit(t[from]) {
        run + 1 <= MAX_FIELD_DIGITS && field_digits_bounded(t, from + 1, true, false, run + 1)
    } else {
        field_digits_bounded(t, from + 1, in_field, false, 0)
    }
}

/// The template asks for no field wider than 9999 characters.
///
/// A width is written as a run of digits inside a field, so a template
/// without a long run there cannot ask for a wide field.
pub open spec fn is_safe_template(t: Seq<char>) -> bool {
    field_digits_bounded(t, 0, false, false, 0)
}

/// The template is plain: its only braces are those of placeholders.
pub open spec fn is_plain_template(t: Seq<char>) -> bool
    decreases t.len(),
{
    if t.len() == 0 {
        true
    } else if t[0] == '{' {
        t.len() >= 12 && t.subrange(0, 12) == placeholder() && is_plain_template(t.skip(12))
    } else if t[0] == '}' {
        false
    } else {
        is_plain_template(t.skip(1))
    }
}

/// A plain template with `value` in place of every placeholder.
pub open spec fn substitute(t: Seq<char>, value: Seq<char>) -> Seq<char>
    decreases t.len(),
{
    if t.len() == 0 {
        Seq::<char>::empty()
    } else if t[0] == '{' && t.len() >= 12 && t.subrange(0, 12) == placeholder() {
        value + substitute(t.skip(12), value)
    } else {
        seq![t[0]] + substitute(t.skip(1), value)
    }
}

/// The address that a formatting outcome stands for.
pub open spec fn url_of(formatted: Option<Seq<char>>) -> Result<Seq<char>, DownloadError> {
    match formatted {
        Some(text) => Ok(text),
        None => Err(DownloadError::Template),
    }
}

/// Calls `strfmt::strfmt` on `template` with a map that holds `id` under
/// `key` and nothing else.
///
/// Claimed of it, from its source: the call returns, given that no field
/// asks for a huge width; its result depends on the three arguments alone;
/// and on a plain template with the key `beatmap_id` it succeeds and writes
/// the identifier in decimal in place of each placeholder, copying the rest.
#[verifier::external_body]
fn format_template(template: &str, key: &str, id: u32) -> (formatted: Result<
    String,
    strfmt::FmtError,
>)
    requires
        is_safe_template(template@),
    ensures
        match formatted {
            Ok(text) => strfmt_output(template@, key@, id) == Some(text@),
            Err(_) => strfmt_output(template@, key@, id).is_none(),
        },
        key@ == key_chars() && is_plain_template(template@) ==> formatted is Ok
            && formatted->Ok_0@ == substitute(template@, decimal(id as nat)),
{
    let mut vars: HashMap<String, u32> = HashMap::new();
    vars.insert(key.to_string(), id);
    strfmt::strfmt(template, &vars)
}

proof fn lemma_plain_is_bounded(t: Seq<char>, from: int)
    requires
        0 <= from <= t.len(),
        is_plain_template(t.skip(from)),
    ensures
        field_digits_bounded(t, from, false, false, 0),
    decreases t.len() - from,
{
    let rest = t.skip(from);
    if from < t.len() {
        assert(rest[0] == t[from]);
        if t[from] == '{' {
            let p = placeholder();
            assert(rest.subrange(0, 12) == p);
            assert forall|k: int| 0 <= k < 12 implies t[from + k] == #[trigger] p[k] by {
                assert(rest.subrange(0, 12)[k] == rest[k]);
            }
            assert(rest.skip(12) =~= t.skip(from + 12));
            lemma_plain_is_bounded(t, from + 12);
            assert(t[from + 11] == p[11]);
            assert(field_digits_bounded(t, from + 11, true, false, 0));
            assert(t[from + 10] == p[10]);
            assert(field_digits_bounded(t, from + 10, true, false, 0));
            assert(t[from + 9] == p[9]);
            assert(field_digits_bounded(t, from + 9, true, false, 0));
            assert(t[from + 8] == p[8]);
            assert(field_digits_bounded(t, from + 8, true, false, 0));
            assert(t[from + 7] == p[7]);
            assert(field_digits_bounded(t, from + 7, true, false, 0));
            assert(t[from + 6] == p[6]);
            assert(field_digits_bounded(t, from + 6, true, false, 0));
            assert(t[from + 5] == p[5]);
            assert(field_digits_bounded(t, from + 5, true, false, 0));
            assert(t[from + 4] == p[4]);
            assert(field_digits_bounded(t, from + 4, true, false, 0));
            assert(t[from + 3] == p[3]);
            assert(field_digits_bounded(t, from + 3, true, false, 0));
            assert(t[from + 2] == p[2]);
            assert(field_digits_bounded(t, from + 2, true, false, 0));
            assert(t[from + 1] == p[1]);
            assert(field_digits_bounded(t, from + 1, true, true, 0));
        } else {
            assert(rest.skip(1) =~= t.skip(from + 1));
            lemma_plain_is_bounded(t, from + 1);
        }
    }
}

/// A plain template is a safe one.
pub proof fn lemma_plain_is_safe(t: Seq<char>)
    requires
        is_plain_template(t),
    ensures
        is_safe_template(t),
{
    assert(t.skip(0) =~= t);
    lemma_plain_is_bounded(t, 0);
}

/// Tells whether a template is safe to fill in.
pub fn template_is_safe(template: &str) -> (safe: bool)
    ensures
        safe == is_safe_template(template@),
{
    let chars = chars_of(template);
    let n = chars.len();
    let mut i: usize = 0;
    let mut in_field = false;
    let mut fresh = false;
    let mut run: usize = 0;
    while i < n
        invariant
            n == chars@.len(),
            chars@ == template@,
            i <= n,
            run <= MAX_FIELD_DIGITS,
            is_safe_template(template@) == field_digits_bounded(
                template@,
                i as int,
                in_field,
                fresh,
                run as nat,
            ),
        decreases n - i,
    {
        let c = chars[i];
        let u = c as u32;
        if c == '{' {
            if in_field && fresh {
                in_field = false;
                fresh = false;
            } else {
                in_field = true;
                fresh = true;
            }
            run = 0;
        } else if c == '}' {
            in_field = false;
            fresh = false;
            run = 0;
        } else if in_field && 0x30 <= u && u <= 0x39 {
            if run >= MAX_FIELD_DIGITS {
                return false;
            }
            fresh = false;
            run = run + 1;
        } else {
            fresh = false;
            run = 0;
        }
        i = i + 1;
    }
    true
}

/// Turns the outcome of formatting into an address or a download failure.
pub fn url_from_formatted(formatted: Result<String, strfmt::FmtError>) -> (url: Result<
    String,
    DownloadError,
>)
    ensures
        match formatted {
            Ok(text) => url == Ok::<String, DownloadError>(text),
            Err(_) => url == Err::<String, DownloadError>(DownloadError::Template),
        },
{
    match formatted {
        Ok(text) => Ok(text),
        Err(_) => Err(DownloadError::Template),
    }
}

/// The address to download item `id` from, by a server's URL template.
///
/// A template that is not safe to fill in, or that `strfmt` rejects (a brace
/// without its partner, a variable other than `beatmap_id`, a format that
/// does not suit a number), gives `DownloadError::Template`. On a plain
/// template the address is the template with the identifier, in decimal, in
/// place of each `{beatmap_id}`.
pub fn render_url(template: &str, id: u32) -> (url: Result<String, DownloadError>)
    ensures
        url is Ok <==> is_safe_template(template@) && strfmt_output(template@, key_chars(), id)
            is Some,
        url matches Ok(text) ==> Some(text@) == strfmt_output(template@, key_chars(), id),
        url matches Err(e) ==> e == DownloadError::Template,
        is_plain_template(template@) ==> url is Ok && url->Ok_0@ == substitute(
            template@,
            decimal(id as nat),
        ),
{
    proof {
        if is_plain_template(template@) {
            lemma_plain_is_safe(template@);
        }
    }
    if !template_is_safe(template) {
        return Err(DownloadError::Template);
    }
    proof {
        reveal_strlit("beatmap_id");
        assert("beatmap_id"@ =~= key_chars());
    }
    url_from_formatted(format_template(template, "beatmap_id", id))
}

} // verus!
