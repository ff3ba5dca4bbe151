//! The page-numbered provider: pages 0, 1, 2, … of fifty items each.

use crate::client::{full_page_count, full_pages, gathered, Beatmapset, FetchError, Paging};
use crate::text::{decimal, u32_to_decimal};
use vstd::prelude::*;
use vstd::string::*;

verus! {

/// The address of page `page` of the search.
pub open spec fn search_url_of(page: u32) -> Seq<char> {
    "https://api.nerinyan.moe/search?m=0&s=ranked&nsfw=true&sort=ranked_desc&p="@ + decimal(
        page as nat,
    ) + "&ps=50"@
}

/// One fetch from the page-numbered provider.
///
/// The fetch asks for `num / 50` pages, numbered from zero, and gathers their
/// items in order. The first failed page ends it. An empty page ends it only
/// where the client was made to stop on one; by default the remaining pages
/// are still asked for.
pub struct NerinyanClient {
    rounds: u32,
    page: u32,
    songs: Vec<Beatmapset>,
    stop_on_empty: bool,
}

impl NerinyanClient {
    /// Pages that this fetch asks for in all.
    pub closed spec fn rounds(&self) -> u32 {
        self.rounds
    }

    /// Pages answered so far; also the number of the next page.
    pub closed spec fn page(&self) -> u32 {
        self.page
    }

    /// Items gathered so far.
    pub closed spec fn songs(&self) -> Seq<Beatmapset> {
        self.songs@
    }

    /// An empty page ends the fetch.
    pub closed spec fn stops_on_empty(&self) -> bool {
        self.stop_on_empty
    }

    /// No more pages were answered than are asked for.
    pub open spec fn wf(&self) -> bool {
        self.page() <= self.rounds()
    }

    /// A page request is outstanding.
    pub open spec fn pending(&self) -> bool {
        self.page() < self.rounds()
    }

    /// A client with no fetch under way, which asks for every page of a
    /// fetch even after an empty one.
    pub fn new() -> (client: NerinyanClient)
        ensures
            client.wf(),
            client.rounds() == 0,
            client.page() == 0,
            client.songs() == Seq::<Beatmapset>::empty(),
            !client.stops_on_empty(),
    {
        NerinyanClient { rounds: 0, page: 0, songs: Vec::new(), stop_on_empty: false }
    }

    /// Chooses whether an empty page ends a fetch.
    pub fn set_stop_on_empty(&mut self, stop: bool)
        ensures
            final(self).stops_on_empty() == stop,
            final(self).rounds() == old(self).rounds(),
            final(self).page() == old(self).page(),
            final(self).songs() == old(self).songs(),
    {
        self.stop_on_empty = stop;
    }

    /// Starts a fetch of the newest `num` items, dropping what an earlier
    /// fetch gathered.
    pub fn begin(&mut self, num: u32)
        ensures
            final(self).wf(),
            final(self).rounds() == full_pages(num),
            final(self).page() == 0,
            final(self).songs() == Seq::<Beatmapset>::empty(),
            final(self).stops_on_empty() == old(self).stops_on_empty(),
    {
        self.rounds = full_page_count(num);
        self.page = 0;
        self.songs = Vec::new();
    }

    /// The number of the page to ask for next, if one is wanted.
    pub fn next_page(&self) -> (next: Option<u32>)
        ensures
            next == (if self.pending() {
                Some(self.page())
            } else {
                None
            }),
    {
        if self.page < self.rounds {
            Some(self.page)
        } else {
            None
        }
    }

    /// The address to ask for page `page`.
    pub fn search_url(page: u32) -> (url: String)
        ensures
            url@ == search_url_of(page),
    {
        let mut url = String::from_str(
            "https://api.nerinyan.moe/search?m=0&s=ranked&nsfw=true&sort=ranked_desc&p=",
        );
        let digits = u32_to_decimal(page);
        url.append(digits.as_str());
        url.append("&ps=50");
        url
    }

    /// `next` and `step` are what this client and its next step are after it
    /// was handed `response`.
    pub open spec fn accepts(
        &self,
        response: Result<Vec<Beatmapset>, FetchError>,
        next: &NerinyanClient,
        step: Paging,
    ) -> bool {
        &&& next.rounds() == self.rounds()
        &&& next.stops_on_empty() == self.stops_on_empty()
        &&& !self.pending() ==> step == Paging::Done && next.page() == self.page() && next.songs()
            == self.songs()
        &&& self.pending() ==> match response {
            Ok(found) => {
                &&& next.page() == (if self.stops_on_empty() && found@.len() == 0 {
                    self.rounds()
                } else {
                    (self.page() + 1) as u32
                })
                &&& next.songs() == self.songs() + found@
                &&& step == (if next.pending() {
                    Paging::More
                } else {
                    Paging::Done
                })
            },
            Err(e) => {
                &&& next.page() == self.rounds()
                &&& next.songs() == self.songs()
                &&& step == Paging::Failed(e)
            },
        }
    }

    /// Takes the answer to the outstanding page request.
    ///
    /// A page is appended to what was gathered and the next one is wanted
    /// until `rounds` pages were answered. A failure ends the fetch, and so
    /// does an empty page where the client stops on one: no further page is
    /// wanted. An answer that nothing asked for is dropped.
    pub fn accept(&mut self, response: Result<Vec<Beatmapset>, FetchError>) -> (step: Paging)
        requires
            old(self).wf(),
        ensures
            final(self).wf(),
            old(self).accepts(response, final(self), step),
    {
        if self.page >= self.rounds {
            return Paging::Done;
        }
        match response {
            Ok(found) => {
                let mut found = found;
                if self.stop_on_empty && found.len() == 0 {
                    self.page = self.rounds;
                } else {
                    self.page = self.page + 1;
                }
                self.songs.append(&mut found);
                if self.page < self.rounds {
                    Paging::More
                } else {
                    Paging::Done
                }
            },
            Err(e) => {
                self.page = self.rounds;
                Paging::Failed(e)
            },
        }
    }

    /// Hands out what the fetch gathered.
    pub fn finish(self) -> (songs: Vec<Beatmapset>)
        ensures
            songs@ == self.songs(),
    {
        self.songs
    }
}

proof fn lemma_pages_in_order(
    states: Seq<NerinyanClient>,
    pages: Seq<Vec<Beatmapset>>,
    steps: Seq<Paging>,
    upto: int,
)
    requires
        states.len() == pages.len() + 1,
        steps.len() == pages.len(),
        states[0].page() == 0,
        states[0].songs() == Seq::<Beatmapset>::empty(),
        !states[0].stops_on_empty(),
        pages.len() <= states[0].rounds(),
        forall|i: int|
            0 <= i < pages.len() ==> states[i].accepts(Ok(pages[i]), &states[i + 1], #[trigger] steps[i]),
        0 <= upto <= pages.len(),
    ensures
        states[upto].rounds() == states[0].rounds(),
        !states[upto].stops_on_empty(),
        states[upto].page() == upto,
        states[upto].songs() == gathered(pages, upto),
        upto > 0 ==> steps[upto - 1] == (if upto < states[0].rounds() {
            Paging::More
        } else {
            Paging::Done
        }),
    decreases upto,
{
    if upto > 0 {
        lemma_pages_in_order(states, pages, steps, upto - 1);
        assert(states[upto - 1].accepts(Ok(pages[upto - 1]), &states[upto - 1 + 1], steps[upto - 1]));
    }
}

/// A fetch without failures, of a client that does not stop on empty pages:
/// the request after `i` answers is for page `i`, the items gathered by then
/// are those of the first `i` pages in order, and exactly the answer to the
/// last of the pages asked for ends the fetch.
pub proof fn law_pages_in_order(
    states: Seq<NerinyanClient>,
    pages: Seq<Vec<Beatmapset>>,
    steps: Seq<Paging>,
)
    requires
        states.len() == pages.len() + 1,
        steps.len() == pages.len(),
        states[0].page() == 0,
        states[0].songs() == Seq::<Beatmapset>::empty(),
        !states[0].stops_on_empty(),
        pages.len() <= states[0].rounds(),
        forall|i: int|
            0 <= i < pages.len() ==> states[i].accepts(Ok(pages[i]), &states[i + 1], #[trigger] steps[i]),
    ensures
        forall|i: int|
            0 <= i <= pages.len() ==> (#[trigger] states[i]).page() == i && states[i].songs()
                == gathered(pages, i) && states[i].pending() == (i < states[0].rounds()),
        forall|i: int|
            0 <= i < pages.len() ==> #[trigger] steps[i] == (if i + 1 < states[0].rounds() {
                Paging::More
            } else {
                Paging::Done
            }),
{
    assert forall|i: int| 0 <= i <= pages.len() implies (#[trigger] states[i]).page() == i
        && states[i].songs() == gathered(pages, i) && states[i].pending() == (i
        < states[0].rounds()) by {
        lemma_pages_in_order(states, pages, steps, i);
    }
    assert forall|i: int| 0 <= i < pages.len() implies #[trigger] steps[i] == (if i + 1
        < states[0].rounds() {
        Paging::More
    } else {
        Paging::Done
    }) by {
        lemma_pages_in_order(states, pages, steps, i + 1);
    }
}

} // verus!
