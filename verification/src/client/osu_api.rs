//! The native-client provider: a first search, then the client's own
//! "next page" as long as it announces one.

use crate::client::{full_page_count, full_pages, gathered, Beatmapset, FetchError, Paging};
use vstd::prelude::*;

verus! {

/// One page as the native client hands it out.
#[derive(Debug, Clone, PartialEq, Eq)]
pub struct NativePage {
    pub mapsets: Vec<Beatmapset>,
    pub has_more: bool,
}

/// One fetch through the native client.
///
/// The first search is always made. Then, up to `num / 50` times, the items
/// of the page at hand are gathered and, where the page announces another,
/// that one is asked for. The page asked for after the last round is not
/// gathered. A page that was announced and is not there ends the fetch with
/// `FetchError::MissingPage`, a failed request with its own failure.
pub struct OsuApiClient {
    rounds: u32,
    round: u32,
    started: bool,
    over: bool,
    songs: Vec<Beatmapset>,
}

impl OsuApiClient {
    /// Pages that this fetch gathers at most.
    pub closed spec fn rounds(&self) -> u32 {
        self.rounds
    }

    /// Pages gathered so far.
    pub closed spec fn round(&self) -> u32 {
        self.round
    }

    /// The first search was answered.
    pub closed spec fn started(&self) -> bool {
        self.started
    }

    /// The fetch has ended.
    pub closed spec fn over(&self) -> bool {
        self.over
    }

    /// Items gathered so far.
    pub closed spec fn songs(&self) -> Seq<Beatmapset> {
        self.songs@
    }

    /// No more pages were gathered than the fetch allows, and nothing was
    /// gathered before the first search.
    pub open spec fn wf(&self) -> bool {
        &&& self.round() <= self.rounds()
        &&& (!self.started() ==> self.round() == 0 && self.songs().len() == 0)
    }

    /// The first search is outstanding.
    pub open spec fn wants_first(&self) -> bool {
        !self.started() && !self.over()
    }

    /// A request for the next page is outstanding.
    pub open spec fn wants_next(&self) -> bool {
        self.started() && !self.over()
    }

    /// A client whose fetch of nothing has ended.
    pub fn new() -> (client: OsuApiClient)
        ensures
            client.wf(),
            client.over(),
            client.rounds() == 0,
            client.round() == 0,
            client.songs() == Seq::<Beatmapset>::empty(),
    {
        OsuApiClient { rounds: 0, round: 0, started: false, over: true, songs: Vec::new() }
    }

    /// Starts a fetch of the newest `num` items, dropping what an earlier
    /// fetch gathered. The first search is wanted whatever `num` is.
    pub fn begin(&mut self, num: u32)
        ensures
            final(self).wf(),
            final(self).wants_first(),
            final(self).rounds() == full_pages(num),
            final(self).round() == 0,
            final(self).songs() == Seq::<Beatmapset>::empty(),
    {
        self.rounds = full_page_count(num);
        self.round = 0;
        self.started = false;
        self.over = false;
        self.songs = Vec::new();
    }

    /// Tells whether the first search is to be made.
    pub fn first_wanted(&self) -> (wanted: bool)
        ensures
            wanted == self.wants_first(),
    {
        !self.started && !self.over
    }

    /// Tells whether the next page is to be asked for.
    pub fn next_wanted(&self) -> (wanted: bool)
        ensures
            wanted == self.wants_next(),
    {
        self.started && !self.over
    }

    /// What the fetch does with the page at hand: nothing once the rounds are
    /// used up; else it gathers the page and, where another is announced,
    /// wants that one.
    fn take_page(&mut self, page: NativePage) -> (step: Paging)
        requires
            old(self).round() <= old(self).rounds(),
            old(self).started(),
            !old(self).over(),
        ensures
            final(self).wf(),
            final(self).started(),
            final(self).rounds() == old(self).rounds(),
            old(self).round() == old(self).rounds() ==> {
                &&& final(self).round() == old(self).round()
                &&& final(self).songs() == old(self).songs()
                &&& final(self).over()
                &&& step == Paging::Done
            },
            old(self).round() < old(self).rounds() ==> {
                &&& final(self).round() == old(self).round() + 1
                &&& final(self).songs() == old(self).songs() + page.mapsets@
                &&& final(self).over() == !page.has_more
                &&& step == (if page.has_more {
                    Paging::More
                } else {
                    Paging::Done
                })
            },
    {
        if self.round >= self.rounds {
            self.over = true;
            return Paging::Done;
        }
        let NativePage { mapsets, has_more } = page;
        let mut found = mapsets;
        self.songs.append(&mut found);
        self.round = self.round + 1;
        if has_more {
            Paging::More
        } else {
            self.over = true;
            Paging::Done
        }
    }

    /// `next` and `step` are what this client and its next step are after it
    /// was handed `response` as the answer to the first search.
    pub open spec fn accepts_first(
        &self,
        response: Result<NativePage, FetchError>,
        next: &OsuApiClient,
        step: Paging,
    ) -> bool {
        &&& next.rounds() == self.rounds()
        &&& !self.wants_first() ==> step == Paging::Done && next.round() == self.round()
            && next.songs() == self.songs() && next.over() == self.over() && next.started()
            == self.started()
        &&& self.wants_first() ==> match response {
            Ok(page) => {
                &&& next.started()
                &&& next.round() == (if self.rounds() == 0 {
                    0u32
                } else {
                    1u32
                })
                &&& next.songs() == (if self.rounds() == 0 {
                    Seq::<Beatmapset>::empty()
                } else {
                    page.mapsets@
                })
                &&& next.over() == (self.rounds() == 0 || !page.has_more)
                &&& step == (if next.over() {
                    Paging::Done
                } else {
                    Paging::More
                })
            },
            Err(e) => {
                &&& next.over()
                &&& next.round() == 0
                &&& next.songs() == self.songs()
                &&& step == Paging::Failed(e)
            },
        }
    }

    /// `next` and `step` are what this client and its next step are after it
    /// was handed `response` as the answer to a request for the next page.
    pub open spec fn accepts_next(
        &self,
        response: Option<Result<NativePage, FetchError>>,
        next: &OsuApiClient,
        step: Paging,
    ) -> bool {
        &&& next.rounds() == self.rounds()
        &&& next.started() == self.started()
        &&& !self.wants_next() ==> step == Paging::Done && next.round() == self.round()
            && next.songs() == self.songs() && next.over() == self.over()
        &&& self.wants_next() ==> match response {
            Some(Ok(page)) => if self.round() == self.rounds() {
                &&& next.round() == self.round()
                &&& next.songs() == self.songs()
                &&& next.over()
                &&& step == Paging::Done
            } else {
                &&& next.round() == self.round() + 1
                &&& next.songs() == self.songs() + page.mapsets@
                &&& next.over() == !page.has_more
                &&& step == (if page.has_more {
                    Paging::More
                } else {
                    Paging::Done
                })
            },
            Some(Err(e)) => {
                &&& next.over()
                &&& next.round() == self.round()
                &&& next.songs() == self.songs()
                &&& step == Paging::Failed(e)
            },
            None => {
                &&& next.over()
                &&& next.round() == self.round()
                &&& next.songs() == self.songs()
                &&& step == Paging::Failed(FetchError::MissingPage)
            },
        }
    }

    /// Takes the answer to the first search.
    ///
    /// A failure ends the fetch. A page is gathered unless the fetch allows
    /// no round at all; the next page is wanted where the page announces one.
    /// An answer that nothing asked for is dropped.
    pub fn accept_first(&mut self, response: Result<NativePage, FetchError>) -> (step: Paging)
        requires
            old(self).wf(),
        ensures
            final(self).wf(),
            old(self).accepts_first(response, final(self), step),
    {
        if self.started || self.over {
            return Paging::Done;
        }
        match response {
            Ok(page) => {
                self.started = true;
                let ghost mapsets = page.mapsets@;
                assert(self.songs@ =~= Seq::<Beatmapset>::empty());
                let step = self.take_page(page);
                assert(self.songs@ =~= (if old(self).rounds() == 0 {
                    Seq::<Beatmapset>::empty()
                } else {
                    mapsets
                }));
                step
            },
            Err(e) => {
                self.over = true;
                Paging::Failed(e)
            },
        }
    }

    /// Takes the answer to a request for the next page: the page, a failure,
    /// or nothing where the client had no page to give.
    ///
    /// Nothing, although a page was announced, ends the fetch with
    /// `FetchError::MissingPage`; a failure ends it as it is. A page that
    /// comes after the last round ends the fetch and is not gathered. An
    /// answer that nothing asked for is dropped.
    pub fn accept_next(&mut self, response: Option<Result<NativePage, FetchError>>) -> (step:
        Paging)
        requires
            old(self).wf(),
        ensures
            final(self).wf(),
            old(self).accepts_next(response, final(self), step),
    {
        if !self.started || self.over {
            return Paging::Done;
        }
        match response {
            Some(Ok(page)) => self.take_page(page),
            Some(Err(e)) => {
                self.over = true;
                Paging::Failed(e)
            },
            None => {
                self.over = true;
                Paging::Failed(FetchError::MissingPage)
            },
        }
    }

    /// Hands out what the fetch gathered.
    pub fn finish(self) -> (songs: Vec<Beatmapset>)
        ensures
            songs@ == self.songs(),
    {
        self.songs
    }
}

/// The item lists of pages.
pub open spec fn item_lists(pages: Seq<NativePage>) -> Seq<Vec<Beatmapset>> {
    pages.map_values(|page: NativePage| page.mapsets)
}

proof fn lemma_rounds_gathered(
    states: Seq<OsuApiClient>,
    pages: Seq<NativePage>,
    steps: Seq<Paging>,
    upto: int,
)
    requires
        pages.len() >= 1,
        states.len() == pages.len() + 1,
        steps.len() == pages.len(),
        states[0].wants_first(),
        states[0].round() == 0,
        states[0].songs() == Seq::<Beatmapset>::empty(),
        pages.len() <= states[0].rounds(),
        forall|i: int| 0 <= i < pages.len() - 1 ==> (#[trigger] pages[i]).has_more,
        states[0].accepts_first(Ok(pages[0]), &states[1], steps[0]),
        forall|i: int|
            1 <= i < pages.len() ==> states[i].accepts_next(
                Some(Ok(pages[i])),
                &states[i + 1],
                #[trigger] steps[i],
            ),
        1 <= upto <= pages.len(),
    ensures
        states[upto].rounds() == states[0].rounds(),
        states[upto].started(),
        states[upto].round() == upto,
        states[upto].songs() == gathered(item_lists(pages), upto),
        states[upto].over() == !pages[upto - 1].has_more,
        steps[upto - 1] == (if pages[upto - 1].has_more {
            Paging::More
        } else {
            Paging::Done
        }),
    decreases upto,
{
    assert(item_lists(pages)[upto - 1] == pages[upto - 1].mapsets);
    if upto == 1 {
        assert(gathered(item_lists(pages), 0) =~= Seq::<Beatmapset>::empty());
        assert(gathered(item_lists(pages), 1) =~= pages[0].mapsets@);
    } else {
        lemma_rounds_gathered(states, pages, steps, upto - 1);
        assert(pages[upto - 2].has_more);
        assert(states[upto - 1].accepts_next(
            Some(Ok(pages[upto - 1])),
            &states[upto - 1 + 1],
            steps[upto - 1],
        ));
    }
}

/// A fetch without failures in which every page but the last announces a
/// next one, and which allows as many rounds as there are pages: after `i`
/// answers the items of the first `i` pages are gathered, in order, and the
/// next page is wanted after an answer exactly if the page announces one.
pub proof fn law_rounds_gathered(
    states: Seq<OsuApiClient>,
    pages: Seq<NativePage>,
    steps: Seq<Paging>,
)
    requires
        pages.len() >= 1,
        states.len() == pages.len() + 1,
        steps.len() == pages.len(),
        states[0].wants_first(),
        states[0].round() == 0,
        states[0].songs() == Seq::<Beatmapset>::empty(),
        pages.len() <= states[0].rounds(),
        forall|i: int| 0 <= i < pages.len() - 1 ==> (#[trigger] pages[i]).has_more,
        states[0].accepts_first(Ok(pages[0]), &states[1], steps[0]),
        forall|i: int|
            1 <= i < pages.len() ==> states[i].accepts_next(
                Some(Ok(pages[i])),
                &states[i + 1],
                #[trigger] steps[i],
            ),
    ensures
        forall|i: int|
            1 <= i <= pages.len() ==> (#[trigger] states[i]).round() == i && states[i].songs()
                == gathered(item_lists(pages), i),
        forall|i: int|
            0 <= i < pages.len() ==> #[trigger] steps[i] == (if pages[i].has_more {
                Paging::More
            } else {
                Paging::Done
            }),
{
    assert forall|i: int| 1 <= i <= pages.len() implies (#[trigger] states[i]).round() == i
        && states[i].songs() == gathered(item_lists(pages), i) by {
        lemma_rounds_gathered(states, pages, steps, i);
    }
    assert forall|i: int| 0 <= i < pages.len() implies #[trigger] steps[i] == (if pages[i].has_more {
        Paging::More
    } else {
        Paging::Done
    }) by {
        lemma_rounds_gathered(states, pages, steps, i + 1);
    }
}

} // verus!
