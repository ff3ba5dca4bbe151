//! Search providers: remote sources of catalog items, read page by page.
//!
//! A provider answers one question, "which items are the newest `num`?", by a
//! series of page requests. Sending a request and decoding its answer is the
//! caller's business; which request comes next, when the series ends and what
//! it has gathered is decided here, by one small state machine per provider.

pub mod nerinyan;
pub mod osu;
pub mod osu_api;

use crate::text::{decimal, u64_to_decimal};
use vstd::prelude::*;
use vstd::string::*;

verus! {

/// One remote catalog item as a search page lists it.
#[derive(Debug, Clone, PartialEq, Eq)]
pub struct Beatmapset {
    pub id: u32,
    pub title: String,
}

/// Why a fetch of search results was given up.
#[derive(Debug, Clone, PartialEq, Eq)]
pub enum FetchError {
    /// The request could not be sent or its answer could not be read.
    Transport(String),
    /// The server answered with a status outside 200..=299: the status and
    /// the phrase that goes with it.
    Status(u16, String),
    /// The answer did not have the expected shape.
    Shape(String),
    /// The provider announced a further page and then had none.
    MissingPage,
}

/// What a provider wants after it was handed the answer to a page request.
#[derive(Debug, Clone, PartialEq, Eq)]
pub enum Paging {
    /// Another page is wanted.
    More,
    /// The series is over; the gathered items can be taken.
    Done,
    /// The series was given up for this reason.
    Failed(FetchError),
}

/// A source of remote catalog items.
///
/// `fetch_new_songs` returns the items of the pages that cover the newest
/// `num` entries, or the first failure met on the way. What comes back rests
/// on the remote side, so nothing is promised of it here.
pub trait SearchClient {
    fn fetch_new_songs(&self, num: u32) -> Result<Vec<Beatmapset>, FetchError>;
}

/// Items per page, for every provider.
pub const PAGE_SIZE: u32 = 50;

/// Pages that lie wholly within the first `num` items.
pub open spec fn full_pages(num: u32) -> u32 {
    num / PAGE_SIZE
}

/// Pages needed to cover the first `num` items.
pub open spec fn covering_pages(num: u32) -> u32 {
    if num % PAGE_SIZE == 0 {
        num / PAGE_SIZE
    } else {
        (num / PAGE_SIZE + 1) as u32
    }
}

/// The identifiers that occur in a list of items.
pub open spec fn ids_of(songs: Seq<Beatmapset>) -> Set<u32> {
    Set::new(|id: u32| exists|i: int| 0 <= i < songs.len() && (#[trigger] songs[i]).id == id)
}

/// The items of the first `count` of `pages`, in order.
pub open spec fn gathered(pages: Seq<Vec<Beatmapset>>, count: int) -> Seq<Beatmapset>
    decreases count,
{
    if count <= 0 || count > pages.len() {
        Seq::<Beatmapset>::empty()
    } else {
        gathered(pages, count - 1) + pages[count - 1]@
    }
}

/// A status in 200..=299 stands for success.
pub open spec fn is_success(status: u16) -> bool {
    200 <= status <= 299
}

/// The text of an error.
pub open spec fn message_of(e: FetchError) -> Seq<char> {
    match e {
        FetchError::Transport(cause) => cause@,
        FetchError::Status(code, reason) => "Request failed with status: "@ + decimal(code as nat)
            + " "@ + reason@,
        FetchError::Shape(cause) => "can't map to beatmapset search result struct: "@ + cause@,
        FetchError::MissingPage => "failed to get next page"@,
    }
}

impl FetchError {
    /// The error as one line of text.
    pub fn message(&self) -> (text: String)
        ensures
            text@ == message_of(*self),
    {
        match self {
            FetchError::Transport(cause) => cause.clone(),
            FetchError::Status(code, reason) => {
                let mut text = String::from_str("Request failed with status: ");
                let digits = u64_to_decimal(*code as u64);
                text.append(digits.as_str());
                text.append(" ");
                text.append(reason.as_str());
                text
            },
            FetchError::Shape(cause) => {
                let mut text = String::from_str("can't map to beatmapset search result struct: ");
                text.append(cause.as_str());
                text
            },
            FetchError::MissingPage => String::from_str("failed to get next page"),
        }
    }
}

/// Pages that lie wholly within the first `num` items.
pub fn full_page_count(num: u32) -> (n: u32)
    ensures
        n == full_pages(num),
{
    num / PAGE_SIZE
}

/// Pages needed to cover the first `num` items.
pub fn covering_page_count(num: u32) -> (n: u32)
    ensures
        n == covering_pages(num),
{
    if num % PAGE_SIZE == 0 {
        num / PAGE_SIZE
    } else {
        num / PAGE_SIZE + 1
    }
}

/// Accepts a response by its status: anything outside 200..=299 is a failure
/// that carries the status and `reason`, the phrase that goes with it.
pub fn check_status(status: u16, reason: String) -> (r: Result<(), FetchError>)
    ensures
        is_success(status) ==> r == Ok::<(), FetchError>(()),
        !is_success(status) ==> r == Err::<(), FetchError>(FetchError::Status(status, reason)),
{
    if 200 <= status && status <= 299 {
        Ok(())
    } else {
        Err(FetchError::Status(status, reason))
    }
}

/// A cursor that came as the empty string stands for no cursor.
pub fn empty_string_as_none(raw: Option<String>) -> (cursor: Option<String>)
    ensures
        cursor == (match raw {
            Some(s) => if s@.len() == 0 {
                None
            } else {
                Some(s)
            },
            None => None,
        }),
{
    match raw {
        Some(s) => {
            if s.as_str().unicode_len() == 0 {
                None
            } else {
                Some(s)
            }
        },
        None => None,
    }
}

} // verus!
