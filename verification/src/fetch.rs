//! The fetch controller: one search at a time, and the difference between
//! what the search found and what the local catalog holds.

use crate::client::{ids_of, Beatmapset, FetchError, SearchClient};
use std::collections::HashSet;
use vstd::prelude::*;
use vstd::std_specs::hash::*;
use vstd::std_specs::iter::IteratorSpec;

verus! {

broadcast use vstd::std_specs::hash::group_hash_axioms;

/// The identifiers found remotely that the local catalog lacks.
pub open spec fn delta_of(songs: Seq<Beatmapset>, local: Set<u32>) -> Set<u32> {
    ids_of(songs).difference(local)
}

/// The delta holds nothing that the catalog holds, and of what was found
/// exactly the rest.
pub proof fn law_delta_excludes_catalog(songs: Seq<Beatmapset>, local: Set<u32>)
    ensures
        delta_of(songs, local).disjoint(local),
        delta_of(songs, local).subset_of(ids_of(songs)),
        forall|id: u32| delta_of(songs, local).contains(id) <==> ids_of(songs).contains(id) && !local.contains(id),
{
}

/// Finding an item more than once changes nothing: the delta of a list is
/// that of the list with any of its items repeated.
pub proof fn law_delta_ignores_repeats(songs: Seq<Beatmapset>, again: int, local: Set<u32>)
    requires
        0 <= again < songs.len(),
    ensures
        delta_of(songs.push(songs[again]), local) == delta_of(songs, local),
{
    let more = songs.push(songs[again]);
    assert forall|id: u32| ids_of(more).contains(id) <==> ids_of(songs).contains(id) by {
        if ids_of(more).contains(id) {
            let i = choose|i: int| 0 <= i < more.len() && (#[trigger] more[i]).id == id;
            if i < songs.len() {
                assert(songs[i].id == id);
            } else {
                assert(songs[again].id == id);
            }
        }
        if ids_of(songs).contains(id) {
            let i = choose|i: int| 0 <= i < songs.len() && (#[trigger] songs[i]).id == id;
            assert(more[i].id == id);
        }
    }
    assert(ids_of(more) =~= ids_of(songs));
}

/// Computes the delta of a search against the local catalog.
///
/// An item that the catalog holds is left out. An item found several times
/// is held once.
pub fn fetch_delta(songs: &Vec<Beatmapset>, local: &HashSet<u32>) -> (delta: HashSet<u32>)
    ensures
        delta@ == delta_of(songs@, local@),
        delta@.disjoint(local@),
{
    let mut delta: HashSet<u32> = HashSet::new();
    let mut i: usize = 0;
    while i < songs.len()
        invariant
            i <= songs@.len(),
            delta@ == delta_of(songs@.subrange(0, i as int), local@),
        decreases songs@.len() - i,
    {
        let ghost before = songs@.subrange(0, i as int);
        let ghost after = songs@.subrange(0, i + 1);
        let id = songs[i].id;
        proof {
            assert forall|x: u32| ids_of(after).contains(x) <==> (ids_of(before).contains(x) || x
                == id) by {
                if ids_of(after).contains(x) {
                    let k = choose|k: int| 0 <= k < after.len() && (#[trigger] after[k]).id == x;
                    if k < i {
                        assert(before[k].id == x);
                    }
                }
                if ids_of(before).contains(x) {
                    let k = choose|k: int| 0 <= k < before.len() && (#[trigger] before[k]).id == x;
                    assert(after[k].id == x);
                }
                if x == id {
                    assert(after[i as int].id == x);
                }
            }
        }
        if !local.contains(&id) {
            delta.insert(id);
        }
        assert(delta@ =~= delta_of(after, local@));
        i = i + 1;
    }
    assert(songs@.subrange(0, i as int) =~= songs@);
    delta
}

/// The members of a set, each once, in no particular order.
pub fn ids_to_vec(ids: &HashSet<u32>) -> (list: Vec<u32>)
    ensures
        list@.no_duplicates(),
        list@.to_set() == ids@,
{
    let mut list: Vec<u32> = Vec::new();
    for id in iter: ids.iter()
        invariant
            iter.seq() == spec_hash_keys_iter(ids).remaining(),
            list@ == iter.seq().subrange(0, iter.index() as int).unref(),
    {
        list.push(*id);
        assert(list@ =~= iter.seq().subrange(0, iter.index() + 1).unref());
    }
    proof {
        let all = spec_hash_keys_iter(ids).remaining();
        assert(all.subrange(0, all.len() as int) =~= all);
        assert(all.unref().to_set() == ids@);
        assert(all.no_duplicates());
        assert forall|i: int, j: int|
            0 <= i < list@.len() && 0 <= j < list@.len() && i != j implies list@[i] != list@[j] by {
            assert(all[i] != all[j]);
        }
    }
    list
}

/// What the controller asks of its caller after an event.
#[derive(Debug, PartialEq, Eq)]
pub enum FetchAction {
    /// Nothing is to be done: the event came at the wrong time and was dropped.
    Ignore,
    /// Ask the search provider for this many items, then report how it went.
    Invoke(u32),
    /// The fetch went well: publish this delta.
    Emit(HashSet<u32>),
    /// The fetch failed for this reason: what was published before stands.
    Report(FetchError),
}

/// The fetch controller: idle, or waiting for the one search it started.
///
/// A start signal that arrives while a search is under way is dropped: it
/// starts nothing, then or later.
#[derive(Debug, Clone, Copy, PartialEq, Eq, Structural)]
pub struct FetchController {
    fetching: bool,
}

impl FetchController {
    /// A search is under way.
    pub closed spec fn is_fetching(self) -> bool {
        self.fetching
    }

    /// The controller after a start signal.
    pub closed spec fn after_start(self) -> FetchController {
        FetchController { fetching: true }
    }

    /// The controller after the end of a search.
    pub closed spec fn after_completion(self) -> FetchController {
        FetchController { fetching: false }
    }

    /// How often the search provider is invoked when `signals` start signals
    /// arrive in a row with no search ending in between.
    pub open spec fn invocations(self, signals: nat) -> nat
        decreases signals,
    {
        if signals == 0 {
            0
        } else {
            let first: nat = if self.is_fetching() {
                0
            } else {
                1
            };
            first + self.after_start().invocations((signals - 1) as nat)
        }
    }

    /// The state after a start signal is "fetching"; after the end of a
    /// search it is "idle".
    pub proof fn lemma_states(self)
        ensures
            self.after_start().is_fetching(),
            !self.after_completion().is_fetching(),
            self.is_fetching() ==> self.after_start() == self,
            !self.is_fetching() ==> self.after_completion() == self,
    {
    }

    /// An idle controller.
    pub fn new() -> (controller: FetchController)
        ensures
            !controller.is_fetching(),
    {
        FetchController { fetching: false }
    }

    /// Tells whether a search is under way.
    pub fn fetching(&self) -> (r: bool)
        ensures
            r == self.is_fetching(),
    {
        self.fetching
    }

    /// Takes a start signal.
    ///
    /// An idle controller turns to fetching and asks for a search of `target`
    /// items. A fetching controller drops the signal and stays as it is.
    pub fn on_start(&mut self, target: u32) -> (action: FetchAction)
        ensures
            *final(self) == old(self).after_start(),
            final(self).is_fetching(),
            action == (if old(self).is_fetching() {
                FetchAction::Ignore
            } else {
                FetchAction::Invoke(target)
            }),
    {
        if self.fetching {
            FetchAction::Ignore
        } else {
            self.fetching = true;
            FetchAction::Invoke(target)
        }
    }

    /// Takes note that the search is over, however it went.
    pub fn on_end(&mut self)
        ensures
            *final(self) == old(self).after_completion(),
            !final(self).is_fetching(),
    {
        self.fetching = false;
    }

    /// Takes the outcome of the search that the controller asked for.
    ///
    /// The controller returns to idle. A list of items gives the delta
    /// against `local` to publish; a failure is handed on. An outcome that
    /// comes while no search is under way is dropped.
    pub fn on_completion(
        &mut self,
        outcome: Result<Vec<Beatmapset>, FetchError>,
        local: &HashSet<u32>,
    ) -> (action: FetchAction)
        ensures
            *final(self) == old(self).after_completion(),
            !final(self).is_fetching(),
            !old(self).is_fetching() ==> action == FetchAction::Ignore,
            old(self).is_fetching() ==> match outcome {
                Ok(songs) => action matches FetchAction::Emit(delta) && delta@ == delta_of(
                    songs@,
                    local@,
                ),
                Err(e) => action == FetchAction::Report(e),
            },
    {
        if !self.fetching {
            return FetchAction::Ignore;
        }
        self.fetching = false;
        match outcome {
            Ok(songs) => FetchAction::Emit(fetch_delta(&songs, local)),
            Err(e) => FetchAction::Report(e),
        }
    }

    /// Runs one whole fetch cycle on a start signal: asks `client` for
    /// `target` items and turns the outcome into a delta against `local`.
    ///
    /// A controller that is already fetching drops the signal and does not
    /// call the client. Else the client is called once and the controller is
    /// idle again afterwards, whatever the client returned: a delta that
    /// holds nothing of `local`, or the client's failure.
    pub fn run_cycle<C: SearchClient>(
        &mut self,
        client: &C,
        target: u32,
        local: &HashSet<u32>,
    ) -> (action: FetchAction)
        ensures
            old(self).is_fetching() ==> action == FetchAction::Ignore && *final(self) == *old(self),
            !old(self).is_fetching() ==> !final(self).is_fetching() && match action {
                FetchAction::Emit(delta) => delta@.disjoint(local@) && exists|songs: Seq<Beatmapset>|
                    delta@ == #[trigger] delta_of(songs, local@),
                FetchAction::Report(_) => true,
                _ => false,
            },
    {
        match self.on_start(target) {
            FetchAction::Invoke(count) => {
                let outcome = client.fetch_new_songs(count);
                proof {
                    if outcome is Ok {
                        law_delta_excludes_catalog(outcome->Ok_0@, local@);
                    }
                }
                self.on_completion(outcome, local)
            },
            _ => FetchAction::Ignore,
        }
    }
}

/// Single flight: of any number of start signals that arrive before the
/// search ends, the first one invokes the search provider if the controller
/// was idle, and no other does.
pub proof fn law_single_flight(controller: FetchController, signals: nat)
    requires
        signals >= 1,
    ensures
        !controller.is_fetching() ==> controller.invocations(signals) == 1,
        controller.is_fetching() ==> controller.invocations(signals) == 0,
    decreases signals,
{
    controller.lemma_states();
    if signals > 1 {
        law_single_flight(controller.after_start(), (signals - 1) as nat);
    } else {
        assert(controller.after_start().invocations(0) == 0);
    }
}

} // verus!
