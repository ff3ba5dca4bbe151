//! The catalog scanner: which item identifiers a local directory already holds.
//!
//! Every stored item is an entry whose name begins with its identifier,
//! followed by whitespace and free text. The identifier of an entry is its
//! first whitespace-delimited token read as an unsigned 32-bit decimal number.

use crate::text::{chars_of, decimal, digit_char, digit_value, is_digit, lemma_decimal_digits};
use std::collections::HashSet;
use vstd::prelude::*;
use vstd::std_specs::hash::*;

verus! {

broadcast use vstd::std_specs::hash::group_hash_axioms;

/// `c` has the Unicode property `White_Space`.
pub open spec fn is_whitespace(c: char) -> bool {
    let u = c as u32;
    ||| 0x09 <= u <= 0x0D
    ||| u == 0x20
    ||| u == 0x85
    ||| u == 0xA0
    ||| u == 0x1680
    ||| 0x2000 <= u <= 0x200A
    ||| u == 0x2028
    ||| u == 0x2029
    ||| u == 0x202F
    ||| u == 0x205F
    ||| u == 0x3000
}

/// The least index `j >= i` that is the end of `s` or holds no whitespace.
pub open spec fn skip_whitespace(s: Seq<char>, i: int) -> int
    decreases s.len() - i,
{
    if 0 <= i < s.len() && is_whitespace(s[i]) {
        skip_whitespace(s, i + 1)
    } else {
        i
    }
}

/// The least index `j >= i` that is the end of `s` or holds whitespace.
pub open spec fn skip_token(s: Seq<char>, i: int) -> int
    decreases s.len() - i,
{
    if 0 <= i < s.len() && !is_whitespace(s[i]) {
        skip_token(s, i + 1)
    } else {
        i
    }
}

/// The first maximal run of non-whitespace characters of `s`, if there is one.
pub open spec fn first_token(s: Seq<char>) -> Option<Seq<char>> {
    let start = skip_whitespace(s, 0);
    if start >= s.len() {
        None
    } else {
        Some(s.subrange(start, skip_token(s, start)))
    }
}

/// Every character of `s` is an ASCII digit.
pub open spec fn all_digits(s: Seq<char>) -> bool {
    forall|i: int| 0 <= i < s.len() ==> is_digit(#[trigger] s[i])
}

/// The number that the digit string `s` writes in base ten.
pub open spec fn numeral_value(s: Seq<char>) -> nat
    decreases s.len(),
{
    if s.len() == 0 {
        0
    } else {
        (numeral_value(s.drop_last()) * 10 + digit_value(s.last())) as nat
    }
}

/// The digits of a token: the token itself, without one leading `+`.
pub open spec fn unsigned_digits(token: Seq<char>) -> Seq<char> {
    if token.len() > 0 && token[0] == '+' {
        token.skip(1)
    } else {
        token
    }
}

/// The identifier that a token writes: one optional `+`, then at least one
/// ASCII digit and nothing else, with a value that fits 32 bits.
pub open spec fn parse_id(token: Seq<char>) -> Option<u32> {
    let digits = unsigned_digits(token);
    if digits.len() > 0 && all_digits(digits) && numeral_value(digits) <= u32::MAX {
        Some(numeral_value(digits) as u32)
    } else {
        None
    }
}

/// The identifier that an entry name begins with, if it begins with one.
pub open spec fn song_id_of(name: Seq<char>) -> Option<u32> {
    match first_token(name) {
        Some(token) => parse_id(token),
        None => None,
    }
}

/// The identifiers that a listing yields: those of the names that begin with one.
pub open spec fn catalog_ids(names: Seq<String>) -> Set<u32> {
    Set::new(
        |id: u32| exists|i: int| 0 <= i < names.len() && song_id_of(#[trigger] names[i]@) == Some(id),
    )
}

proof fn lemma_skip_whitespace(s: Seq<char>, i: int)
    requires
        0 <= i <= s.len(),
    ensures
        i <= skip_whitespace(s, i) <= s.len(),
        forall|k: int| i <= k < skip_whitespace(s, i) ==> is_whitespace(#[trigger] s[k]),
        skip_whitespace(s, i) < s.len() ==> !is_whitespace(s[skip_whitespace(s, i)]),
    decreases s.len() - i,
{
    if i < s.len() && is_whitespace(s[i]) {
        lemma_skip_whitespace(s, i + 1);
    }
}

proof fn lemma_skip_token(s: Seq<char>, i: int)
    requires
        0 <= i <= s.len(),
    ensures
        i <= skip_token(s, i) <= s.len(),
        forall|k: int| i <= k < skip_token(s, i) ==> !is_whitespace(#[trigger] s[k]),
        skip_token(s, i) < s.len() ==> is_whitespace(s[skip_token(s, i)]),
    decreases s.len() - i,
{
    if i < s.len() && !is_whitespace(s[i]) {
        lemma_skip_token(s, i + 1);
    }
}

/// The token of a name is not empty, holds no whitespace, and is preceded by
/// whitespace only.
pub proof fn lemma_first_token(s: Seq<char>)
    ensures
        match first_token(s) {
            Some(token) => {
                let start = skip_whitespace(s, 0);
                &&& 0 <= start < s.len()
                &&& token.len() >= 1
                &&& start + token.len() <= s.len()
                &&& token == s.subrange(start, start + token.len())
                &&& forall|k: int| 0 <= k < start ==> is_whitespace(#[trigger] s[k])
                &&& forall|k: int| 0 <= k < token.len() ==> !is_whitespace(#[trigger] token[k])
                &&& (start + token.len() < s.len() ==> is_whitespace(s[start + token.len()]))
            },
            None => forall|k: int| 0 <= k < s.len() ==> is_whitespace(#[trigger] s[k]),
        },
{
    lemma_skip_whitespace(s, 0);
    let start = skip_whitespace(s, 0);
    if start < s.len() {
        lemma_skip_token(s, start);
        let end = skip_token(s, start);
        let token = s.subrange(start, end);
        assert(!is_whitespace(s[start]));
        assert(end > start);
        assert forall|k: int| 0 <= k < token.len() implies !is_whitespace(#[trigger] token[k]) by {
            assert(token[k] == s[start + k]);
        }
    }
}

/// A digit string is worth at least as much as any of its prefixes.
proof fn lemma_numeral_prefix(s: Seq<char>, k: int)
    requires
        all_digits(s),
        0 <= k <= s.len(),
    ensures
        numeral_value(s.subrange(0, k)) <= numeral_value(s),
    decreases s.len() - k,
{
    if k == s.len() {
        assert(s.subrange(0, k) =~= s);
    } else {
        lemma_numeral_prefix(s, k + 1);
        let longer = s.subrange(0, k + 1);
        assert(longer.drop_last() =~= s.subrange(0, k));
        assert(longer.last() == s[k]);
        assert(is_digit(s[k]));
    }
}

/// The decimal numeral of a number writes that number.
proof fn lemma_decimal_value(n: nat)
    ensures
        numeral_value(decimal(n)) == n,
    decreases n,
{
    assert(forall|d: int| 0 <= d < 10 ==> digit_value(#[trigger] digit_char(d)) == d);
    if n < 10 {
        let s = decimal(n);
        assert(s.drop_last() =~= Seq::<char>::empty());
        assert(numeral_value(s.drop_last()) == 0);
        assert(s.last() == digit_char(n as int));
    } else {
        lemma_decimal_value(n / 10);
        let s = decimal(n);
        assert(s.drop_last() =~= decimal(n / 10));
        assert(s.last() == digit_char((n % 10) as int));
    }
}

/// An identifier written in decimal is read back as itself.
pub proof fn law_decimal_reads_back(id: u32)
    ensures
        parse_id(decimal(id as nat)) == Some(id),
{
    let s = decimal(id as nat);
    lemma_decimal_digits(id as nat);
    lemma_decimal_value(id as nat);
    crate::text::lemma_decimal_nonempty(id as nat);
    assert(is_digit(s[0]));
    assert(s[0] != '+');
    assert(unsigned_digits(s) == s);
}

/// An entry named by an identifier in decimal, a space and any text is an
/// entry of that identifier.
pub proof fn law_entry_name_reads_back(id: u32, rest: Seq<char>)
    ensures
        song_id_of(decimal(id as nat) + seq![' '] + rest) == Some(id),
{
    let digits = decimal(id as nat);
    let name = digits + seq![' '] + rest;
    lemma_decimal_digits(id as nat);
    crate::text::lemma_decimal_nonempty(id as nat);
    law_decimal_reads_back(id);
    assert forall|k: int| 0 <= k < digits.len() implies !is_whitespace(#[trigger] name[k]) by {
        assert(name[k] == digits[k]);
        assert(is_digit(digits[k]));
    }
    assert(name[digits.len() as int] == ' ');
    assert(is_whitespace(' '));
    assert(skip_whitespace(name, 0) == 0);
    lemma_token_end(name, 0, digits.len() as int);
    assert(name.subrange(0, digits.len() as int) =~= digits);
}

/// A run of characters that are no whitespace, followed by whitespace or the
/// end, is skipped as one token.
proof fn lemma_token_end(s: Seq<char>, from: int, to: int)
    requires
        0 <= from <= to <= s.len(),
        forall|k: int| from <= k < to ==> !is_whitespace(#[trigger] s[k]),
        to < s.len() ==> is_whitespace(s[to]),
    ensures
        skip_token(s, from) == to,
    decreases to - from,
{
    if from < to {
        lemma_token_end(s, from + 1, to);
    }
}

/// Tells whether `c` is whitespace.
pub fn char_is_whitespace(c: char) -> (r: bool)
    ensures
        r == is_whitespace(c),
{
    let u = c as u32;
    (0x09 <= u && u <= 0x0D) || u == 0x20 || u == 0x85 || u == 0xA0 || u == 0x1680 || (0x2000 <= u
        && u <= 0x200A) || u == 0x2028 || u == 0x2029 || u == 0x202F || u == 0x205F || u == 0x3000
}

/// Reads the digits `chars[from..to]` as a number that fits 32 bits.
fn parse_digits(chars: &Vec<char>, from: usize, to: usize) -> (r: Option<u32>)
    requires
        from <= to <= chars@.len(),
    ensures
        r == (if all_digits(chars@.subrange(from as int, to as int)) && numeral_value(
            chars@.subrange(from as int, to as int),
        ) <= u32::MAX {
            Some(numeral_value(chars@.subrange(from as int, to as int)) as u32)
        } else {
            None
        }),
{
    let ghost digits = chars@.subrange(from as int, to as int);
    let mut value: u64 = 0;
    let mut i: usize = from;
    while i < to
        invariant
            from <= i <= to <= chars@.len(),
            digits == chars@.subrange(from as int, to as int),
            all_digits(digits.subrange(0, i - from)),
            value == numeral_value(digits.subrange(0, i - from)),
            value <= u32::MAX,
        decreases to - i,
    {
        let c = chars[i];
        let u = c as u32;
        assert(digits[i - from] == c);
        if u < 0x30 || u > 0x39 {
            assert(!is_digit(digits[i - from]));
            return None;
        }
        let ghost longer = digits.subrange(0, i - from + 1);
        proof {
            assert(longer.drop_last() =~= digits.subrange(0, i - from));
            assert(longer.last() == c);
            assert forall|k: int| 0 <= k < longer.len() implies is_digit(#[trigger] longer[k]) by {
                if k < i - from {
                    assert(longer[k] == digits.subrange(0, i - from)[k]);
                }
            }
        }
        let next: u64 = value * 10 + (u - 0x30) as u64;
        assert(next == numeral_value(longer));
        if next > 0xFFFF_FFFF {
            proof {
                if all_digits(digits) {
                    lemma_numeral_prefix(digits, i - from + 1);
                }
            }
            return None;
        }
        value = next;
        i = i + 1;
    }
    assert(digits.subrange(0, i - from) =~= digits);
    Some(value as u32)
}

/// Reads the identifier that an entry name begins with.
///
/// Leading whitespace is skipped, the first run of other characters is taken
/// as the token, and the token is read as a decimal number: `"123 Song A"`
/// gives 123, `"notanid"` gives nothing.
pub fn extract_song_id(name: &str) -> (id: Option<u32>)
    ensures
        id == song_id_of(name@),
{
    let chars = chars_of(name);
    let n = chars.len();
    let mut start: usize = 0;
    while start < n && char_is_whitespace(chars[start])
        invariant
            n == chars@.len(),
            start <= n,
            skip_whitespace(chars@, 0) == skip_whitespace(chars@, start as int),
        decreases n - start,
    {
        start = start + 1;
    }
    if start >= n {
        return None;
    }
    let mut end: usize = start;
    while end < n && !char_is_whitespace(chars[end])
        invariant
            n == chars@.len(),
            start <= end <= n,
            skip_token(chars@, start as int) == skip_token(chars@, end as int),
        decreases n - end,
    {
        end = end + 1;
    }
    let ghost token = chars@.subrange(start as int, end as int);
    assert(first_token(name@) == Some(token));
    let from = if chars[start] == '+' {
        start + 1
    } else {
        start
    };
    assert(unsigned_digits(token) =~= chars@.subrange(from as int, end as int));
    if from == end {
        return None;
    }
    parse_digits(&chars, from, end)
}

/// The identifiers found in a directory listing.
///
/// Names that do not begin with an identifier are passed over; they are no
/// error. An identifier that several names begin with is held once.
pub fn scan(names: &Vec<String>) -> (ids: HashSet<u32>)
    ensures
        ids@ == catalog_ids(names@),
{
    let mut ids: HashSet<u32> = HashSet::new();
    let mut i: usize = 0;
    while i < names.len()
        invariant
            i <= names@.len(),
            ids@ == catalog_ids(names@.subrange(0, i as int)),
        decreases names@.len() - i,
    {
        let ghost before = names@.subrange(0, i as int);
        let ghost after = names@.subrange(0, i + 1);
        let found = extract_song_id(names[i].as_str());
        proof {
            assert forall|id: u32| catalog_ids(after).contains(id) <==> (catalog_ids(
                before,
            ).contains(id) || found == Some(id)) by {
                if catalog_ids(after).contains(id) {
                    let k = choose|k: int|
                        0 <= k < after.len() && song_id_of(#[trigger] after[k]@) == Some(id);
                    if k < i {
                        assert(before[k] == after[k]);
                    }
                }
                if catalog_ids(before).contains(id) {
                    let k = choose|k: int|
                        0 <= k < before.len() && song_id_of(#[trigger] before[k]@) == Some(id);
                    assert(after[k] == before[k]);
                }
                if found == Some(id) {
                    assert(after[i as int] == names@[i as int]);
                }
            }
        }
        match found {
            Some(id) => {
                ids.insert(id);
                assert(ids@ =~= catalog_ids(after));
            },
            None => {
                assert(ids@ =~= catalog_ids(after));
            },
        }
        i = i + 1;
    }
    assert(names@.subrange(0, i as int) =~= names@);
    ids
}

} // verus!
