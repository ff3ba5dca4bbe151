//! The cursor provider: every page names the one that follows it.

use crate::client::{
    covering_page_count, covering_pages, gathered, Beatmapset, FetchError, Paging,
};
use vstd::prelude::*;
use vstd::string::*;

verus! {

/// One page of the cursor provider: its items and, unless it is the last
/// page there is, the cursor that leads to the next.
#[derive(Debug, Clone, PartialEq, Eq)]
pub struct BeatmapsetSearchResult {
    pub beatmapsets: Vec<Beatmapset>,
    pub cursor_string: Option<String>,
}

/// The text that a request sends as its cursor: nothing for the first page.
pub open spec fn cursor_text(cursor: Option<String>) -> Seq<char> {
    match cursor {
        Some(c) => c@,
        None => Seq::<char>::empty(),
    }
}

/// The address of the page that `cursor` leads to.
pub open spec fn search_url_of(cursor: Option<String>) -> Seq<char> {
    "https://osu.ppy.sh/beatmapsets/search?m=0&s=ranked&nsfw=true&cursor_string="@ + cursor_text(
        cursor,
    ) + "&sort=ranked_desc"@
}

/// One fetch from the cursor provider.
///
/// The fetch asks for at most as many pages as cover `num` items. The first
/// request carries no cursor, each later one the cursor of the page before.
/// A page without a cursor is the last, and so is the first failed one.
pub struct OsuClient {
    rounds: u32,
    round: u32,
    cursor: Option<String>,
    exhausted: bool,
    songs: Vec<Beatmapset>,
}

impl OsuClient {
    /// Pages that this fetch asks for at most.
    pub closed spec fn rounds(&self) -> u32 {
        self.rounds
    }

    /// Pages answered so far.
    pub closed spec fn round(&self) -> u32 {
        self.round
    }

    /// The cursor that the next request carries.
    pub closed spec fn cursor(&self) -> Option<String> {
        self.cursor
    }

    /// The provider has no further page, or the fetch was given up.
    pub closed spec fn exhausted(&self) -> bool {
        self.exhausted
    }

    /// Items gathered so far.
    pub closed spec fn songs(&self) -> Seq<Beatmapset> {
        self.songs@
    }

    /// No more pages were answered than are asked for.
    pub open spec fn wf(&self) -> bool {
        self.round() <= self.rounds()
    }

    /// A page request is outstanding.
    pub open spec fn pending(&self) -> bool {
        self.round() < self.rounds() && !self.exhausted()
    }

    /// A client with no fetch under way.
    pub fn new() -> (client: OsuClient)
        ensures
            client.wf(),
            client.rounds() == 0,
            client.round() == 0,
            client.cursor().is_none(),
            !client.exhausted(),
            client.songs() == Seq::<Beatmapset>::empty(),
    {
        OsuClient { rounds: 0, round: 0, cursor: None, exhausted: false, songs: Vec::new() }
    }

    /// Starts a fetch of the newest `num` items, dropping what an earlier
    /// fetch gathered.
    pub fn begin(&mut self, num: u32)
        ensures
            final(self).wf(),
            final(self).rounds() == covering_pages(num),
            final(self).round() == 0,
            final(self).cursor().is_none(),
            !final(self).exhausted(),
            final(self).songs() == Seq::<Beatmapset>::empty(),
    {
        self.rounds = covering_page_count(num);
        self.round = 0;
        self.cursor = None;
        self.exhausted = false;
        self.songs = Vec::new();
    }

    /// Tells whether another page is to be asked for.
    pub fn wants_page(&self) -> (wanted: bool)
        ensures
            wanted == self.pending(),
    {
        self.round < self.rounds && !self.exhausted
    }

    /// The address to ask for the next page.
    pub fn next_url(&self) -> (url: String)
        ensures
            url@ == search_url_of(self.cursor()),
    {
        Self::search_url(&self.cursor)
    }

    /// The address of the page that `cursor` leads to.
    pub fn search_url(cursor: &Option<String>) -> (url: String)
        ensures
            url@ == search_url_of(*cursor),
    {
        let mut url = String::from_str(
            "https://osu.ppy.sh/beatmapsets/search?m=0&s=ranked&nsfw=true&cursor_string=",
        );
        match cursor {
            Some(c) => {
                url.append(c.as_str());
            },
            None => {
                assert(url@ + Seq::<char>::empty() =~= url@);
            },
        }
        url.append("&sort=ranked_desc");
        url
    }

    /// `next` and `step` are what this client and its next step are after it
    /// was handed `response`.
    pub open spec fn accepts(
        &self,
        response: Result<BeatmapsetSearchResult, FetchError>,
        next: &OsuClient,
        step: Paging,
    ) -> bool {
        &&& next.rounds() == self.rounds()
        &&& !self.pending() ==> step == Paging::Done && next.round() == self.round()
            && next.songs() == self.songs() && next.exhausted() == self.exhausted()
            && next.cursor() == self.cursor()
        &&& self.pending() ==> match response {
            Ok(page) => {
                &&& next.round() == self.round() + 1
                &&& next.songs() == self.songs() + page.beatmapsets@
                &&& next.exhausted() == page.cursor_string.is_none()
                &&& next.cursor() == (if page.cursor_string.is_none() {
                    self.cursor()
                } else {
                    page.cursor_string
                })
                &&& step == (if next.pending() {
                    Paging::More
                } else {
                    Paging::Done
                })
            },
            Err(e) => {
                &&& next.round() == self.round()
                &&& next.songs() == self.songs()
                &&& next.exhausted()
                &&& next.cursor() == self.cursor()
                &&& step == Paging::Failed(e)
            },
        }
    }

    /// Takes the answer to the outstanding page request.
    ///
    /// The items of a page are appended to what was gathered. Its cursor is
    /// kept for the next request; without one the fetch is over. A failure
    /// ends the fetch too. An answer that nothing asked for is dropped.
    pub fn accept(&mut self, response: Result<BeatmapsetSearchResult, FetchError>) -> (step: Paging)
        requires
            old(self).wf(),
        ensures
            final(self).wf(),
            old(self).accepts(response, final(self), step),
    {
        if !(self.round < self.rounds && !self.exhausted) {
            return Paging::Done;
        }
        match response {
            Ok(page) => {
                let BeatmapsetSearchResult { beatmapsets, cursor_string } = page;
                let mut found = beatmapsets;
                self.songs.append(&mut found);
                self.round = self.round + 1;
                match cursor_string {
                    Some(c) => {
                        self.cursor = Some(c);
                    },
                    None => {
                        self.exhausted = true;
                    },
                }
                if self.round < self.rounds && !self.exhausted {
                    Paging::More
                } else {
                    Paging::Done
                }
            },
            Err(e) => {
                self.exhausted = true;
                Paging::Failed(e)
            },
        }
    }

    /// Hands out what the fetch gathered.
    pub fn finish(self) -> (songs: Vec<Beatmapset>)
        ensures
            songs@ == self.songs(),
    {
        self.songs
    }
}

/// The item lists of pages.
pub open spec fn item_lists(pages: Seq<BeatmapsetSearchResult>) -> Seq<Vec<Beatmapset>> {
    pages.map_values(|page: BeatmapsetSearchResult| page.beatmapsets)
}

proof fn lemma_cursor_chain(
    states: Seq<OsuClient>,
    pages: Seq<BeatmapsetSearchResult>,
    steps: Seq<Paging>,
    upto: int,
)
    requires
        states.len() == pages.len() + 1,
        steps.len() == pages.len(),
        states[0].round() == 0,
        states[0].songs() == Seq::<Beatmapset>::empty(),
        states[0].cursor().is_none(),
        !states[0].exhausted(),
        pages.len() <= states[0].rounds(),
        forall|i: int| 0 <= i < pages.len() - 1 ==> (#[trigger] pages[i]).cursor_string.is_some(),
        forall|i: int|
            0 <= i < pages.len() ==> states[i].accepts(Ok(pages[i]), &states[i + 1], #[trigger] steps[i]),
        0 <= upto <= pages.len(),
    ensures
        states[upto].rounds() == states[0].rounds(),
        states[upto].round() == upto,
        states[upto].songs() == gathered(item_lists(pages), upto),
        upto > 0 ==> states[upto].exhausted() == pages[upto - 1].cursor_string.is_none(),
        upto > 0 && pages[upto - 1].cursor_string.is_some() ==> states[upto].cursor()
            == pages[upto - 1].cursor_string,
        upto > 0 ==> steps[upto - 1] == (if upto < states[0].rounds() && pages[upto
            - 1].cursor_string.is_some() {
            Paging::More
        } else {
            Paging::Done
        }),
    decreases upto,
{
    if upto > 0 {
        lemma_cursor_chain(states, pages, steps, upto - 1);
        assert(states[upto - 1].accepts(Ok(pages[upto - 1]), &states[upto - 1 + 1], steps[upto - 1]));
        if upto - 1 > 0 {
            assert(pages[upto - 2].cursor_string.is_some());
        }
        assert(item_lists(pages)[upto - 1] == pages[upto - 1].beatmapsets);
    }
}

/// A fetch without failures in which every page but the last names a next
/// one: the first request carries no cursor and each later one the cursor of
/// the page before; the items gathered after `i` answers are those of the
/// first `i` pages in order; and another page is wanted after an answer
/// exactly if rounds are left and the page names a next one.
pub proof fn law_cursor_chain(
    states: Seq<OsuClient>,
    pages: Seq<BeatmapsetSearchResult>,
    steps: Seq<Paging>,
)
    requires
        states.len() == pages.len() + 1,
        steps.len() == pages.len(),
        states[0].round() == 0,
        states[0].songs() == Seq::<Beatmapset>::empty(),
        states[0].cursor().is_none(),
        !states[0].exhausted(),
        pages.len() <= states[0].rounds(),
        forall|i: int| 0 <= i < pages.len() - 1 ==> (#[trigger] pages[i]).cursor_string.is_some(),
        forall|i: int|
            0 <= i < pages.len() ==> states[i].accepts(Ok(pages[i]), &states[i + 1], #[trigger] steps[i]),
    ensures
        forall|i: int|
            0 <= i <= pages.len() ==> (#[trigger] states[i]).round() == i && states[i].songs()
                == gathered(item_lists(pages), i),
        forall|i: int|
            1 <= i < pages.len() ==> (#[trigger] states[i]).cursor() == pages[i - 1].cursor_string,
        forall|i: int|
            0 <= i < pages.len() ==> #[trigger] steps[i] == (if i + 1 < states[0].rounds()
                && pages[i].cursor_string.is_some() {
                Paging::More
            } else {
                Paging::Done
            }),
{
    assert forall|i: int| 0 <= i <= pages.len() implies (#[trigger] states[i]).round() == i
        && states[i].songs() == gathered(item_lists(pages), i) by {
        lemma_cursor_chain(states, pages, steps, i);
    }
    assert forall|i: int| 1 <= i < pages.len() implies (#[trigger] states[i]).cursor() == pages[i
        - 1].cursor_string by {
        lemma_cursor_chain(states, pages, steps, i);
        assert(pages[i - 1].cursor_string.is_some());
    }
    assert forall|i: int| 0 <= i < pages.len() implies #[trigger] steps[i] == (if i + 1
        < states[0].rounds() && pages[i].cursor_string.is_some() {
        Paging::More
    } else {
        Paging::Done
    }) by {
        lemma_cursor_chain(states, pages, steps, i + 1);
    }
}

} // verus!
