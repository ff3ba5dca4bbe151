//! The downloader as its user sees it: the local catalog, the delta of the
//! last fetch, the two single-flight guards, the progress of the items under
//! download, and the coarse state of the cycle of fetch and download.
//!
//! The progress that the user sees follows the batch that downloads the
//! delta at hand: what a worker reports goes through `report_progress` and
//! `complete_job` here, which write the batch's entry and the user's entry
//! alike.

use crate::batch::{law_finished_batch_is_settled, DownloadBatch, WorkerState};
use crate::catalog::{catalog_ids, scan};
use crate::client::{Beatmapset, FetchError, PAGE_SIZE};
use crate::error::{DownloadError, IoError};
use crate::fetch::{delta_of, fetch_delta, ids_to_vec, FetchAction, FetchController};
use crate::progress::{Progress, ProgressStore};
use crate::settings::ServerList;
use crate::template::{is_plain_template, is_safe_template, key_chars, render_url, strfmt_output, substitute};
use crate::text::decimal;
use std::collections::HashSet;
use vstd::prelude::*;
use vstd::std_specs::hash::*;

verus! {

broadcast use vstd::std_specs::hash::group_hash_axioms;

/// Where one cycle of fetch and download stands.
#[derive(Debug, Clone, Copy, PartialEq, Eq, Structural)]
pub enum BatchState {
    /// No fetch has brought a delta yet.
    NotStarted,
    /// A fetch is under way.
    Fetching,
    /// A delta is there and was not handed to a download yet.
    Ready,
    /// The delta is under download.
    Downloading,
    /// The download of the delta is over.
    Finished,
}

/// What a download of the current delta starts with.
pub struct BatchPlan {
    /// The batch: every item of the delta, not yet queued, and the workers.
    pub batch: DownloadBatch,
    /// The URL template of the selected server.
    pub url_template: String,
    /// The directory that the files go to.
    pub dest_dir: String,
}

/// The state of the downloader.
pub struct BeatmapDownloaderApp {
    number_of_fetch_songs: u32,
    songs_path: String,
    local_songs: HashSet<u32>,
    new_songs: HashSet<u32>,
    has_delta: bool,
    fetch: FetchController,
    is_download: bool,
    is_download_finish: bool,
    selected_server: String,
    number_of_simultaneous_downloads: u64,
    server: ServerList,
    percentage: ProgressStore,
    serial: u64,
}

/// The largest number of items to fetch that is a whole number of pages.
pub open spec fn max_fetch() -> u32 {
    ((u32::MAX / PAGE_SIZE) * PAGE_SIZE) as u32
}

/// The number of items that `pages` pages hold, at most `max_fetch()`.
pub open spec fn items_of_pages(pages: u32) -> u32 {
    if pages > u32::MAX / PAGE_SIZE {
        max_fetch()
    } else {
        (pages * PAGE_SIZE) as u32
    }
}

/// A worker count as a machine size: itself, or the largest size below it.
pub open spec fn pool_size(count: u64) -> usize {
    if count > usize::MAX {
        usize::MAX
    } else {
        count as usize
    }
}

impl BeatmapDownloaderApp {
    /// The number of items that a fetch asks for.
    pub closed spec fn number_of_fetch_songs(&self) -> u32 {
        self.number_of_fetch_songs
    }

    /// The directory of the local catalog, which is also where downloads go.
    pub closed spec fn songs_path(&self) -> Seq<char> {
        self.songs_path@
    }

    /// The local catalog.
    pub closed spec fn local_songs(&self) -> Set<u32> {
        self.local_songs@
    }

    /// The delta of the last fetch that went through.
    pub closed spec fn new_songs(&self) -> Set<u32> {
        self.new_songs@
    }

    /// Some fetch has gone through.
    pub closed spec fn has_delta(&self) -> bool {
        self.has_delta
    }

    /// A fetch is under way.
    pub closed spec fn is_fetching(&self) -> bool {
        self.fetch.is_fetching()
    }

    /// The delta at hand was handed to a download.
    pub closed spec fn is_download(&self) -> bool {
        self.is_download
    }

    /// No download batch is running.
    pub closed spec fn is_download_finish(&self) -> bool {
        self.is_download_finish
    }

    /// The name of the selected download server.
    pub closed spec fn selected_server(&self) -> Seq<char> {
        self.selected_server@
    }

    /// The number of workers that a download runs with.
    pub closed spec fn number_of_simultaneous_downloads(&self) -> u64 {
        self.number_of_simultaneous_downloads
    }

    /// The download servers: URL templates by name.
    pub closed spec fn server(&self) -> Map<Seq<char>, Seq<char>> {
        self.server@
    }

    /// The progress of every item of the delta.
    pub closed spec fn percentage(&self) -> Map<u32, Progress> {
        self.percentage@
    }

    /// The number of the batch that was started last, zero before the first.
    pub closed spec fn serial(&self) -> u64 {
        self.serial
    }

    /// The number that the next batch gets.
    pub open spec fn next_serial(&self) -> u64 {
        if self.serial() == u64::MAX {
            1
        } else {
            (self.serial() + 1) as u64
        }
    }

    /// `batch` is the batch that downloads the delta at hand: the delta was
    /// handed to a download, and `batch` is the batch started last.
    pub open spec fn tracks(&self, batch: &DownloadBatch) -> bool {
        self.is_download() && batch.serial() == self.serial()
    }

    /// The progress that the observer sees is that of `batch`, where `batch`
    /// downloads the delta at hand.
    pub open spec fn mirrors(&self, batch: &DownloadBatch) -> bool {
        self.tracks(batch) ==> self.percentage() == batch.progress()
    }

    /// Everything but the progress entries is as in `other`.
    pub open spec fn same_but_progress(&self, other: &BeatmapDownloaderApp) -> bool {
        &&& self.same_settings(other)
        &&& self.new_songs() == other.new_songs()
        &&& self.has_delta() == other.has_delta()
        &&& self.is_fetching() == other.is_fetching()
        &&& self.is_download() == other.is_download()
        &&& self.is_download_finish() == other.is_download_finish()
        &&& self.serial() == other.serial()
    }

    /// The invariant of the downloader: exactly the items of the delta have
    /// a progress entry, and every entry is a fraction between zero and one.
    pub open spec fn wf(&self) -> bool {
        &&& self.percentage().dom() == self.new_songs()
        &&& forall|id: u32|
            self.percentage().contains_key(id) ==> (#[trigger] self.percentage()[id]).wf()
    }

    /// Where the cycle of fetch and download stands.
    pub open spec fn state(&self) -> BatchState {
        if self.is_fetching() {
            BatchState::Fetching
        } else if self.is_download() {
            if self.is_download_finish() {
                BatchState::Finished
            } else {
                BatchState::Downloading
            }
        } else if self.has_delta() {
            BatchState::Ready
        } else {
            BatchState::NotStarted
        }
    }

    /// A download of the delta can start: the delta is ready and no batch is
    /// running.
    pub open spec fn can_download(&self) -> bool {
        self.state() == BatchState::Ready && self.is_download_finish()
    }

    /// A downloader that has neither scanned nor fetched anything yet.
    pub fn new(
        songs_path: String,
        number_of_fetch: u32,
        server: ServerList,
        selected_server: String,
        number_of_simultaneous_downloads: u64,
    ) -> (app: BeatmapDownloaderApp)
        ensures
            app.wf(),
            app.number_of_fetch_songs() == number_of_fetch,
            app.songs_path() == songs_path@,
            app.local_songs() == Set::<u32>::empty(),
            app.new_songs() == Set::<u32>::empty(),
            !app.has_delta(),
            !app.is_fetching(),
            !app.is_download(),
            app.is_download_finish(),
            app.selected_server() == selected_server@,
            app.number_of_simultaneous_downloads() == number_of_simultaneous_downloads,
            app.server() == server@,
            app.percentage() == Map::<u32, Progress>::empty(),
            app.serial() == 0,
            app.state() == BatchState::NotStarted,
    {
        let app = BeatmapDownloaderApp {
            number_of_fetch_songs: number_of_fetch,
            songs_path,
            local_songs: HashSet::new(),
            new_songs: HashSet::new(),
            has_delta: false,
            fetch: FetchController::new(),
            is_download: false,
            is_download_finish: true,
            selected_server,
            number_of_simultaneous_downloads,
            server,
            percentage: ProgressStore::new(),
            serial: 0,
        };
        assert(app.percentage().dom() =~= app.new_songs());
        app
    }

    /// Rebuilds the local catalog from a listing of the catalog directory:
    /// the names of its entries, or the reason why it could not be listed.
    ///
    /// A listing replaces the catalog by the identifiers that its names
    /// begin with and gives their number. A failed listing leaves the
    /// catalog as it was. Nothing else changes either way.
    pub fn load_songs_from_local(&mut self, listing: Result<Vec<String>, String>) -> (loaded:
        Result<usize, IoError>)
        requires
            old(self).wf(),
        ensures
            final(self).wf(),
            final(self).same_but_catalog(old(self)),
            match listing {
                Ok(names) => {
                    &&& final(self).local_songs() == catalog_ids(names@)
                    &&& loaded matches Ok(count) && count == catalog_ids(names@).len()
                },
                Err(cause) => {
                    &&& final(self).local_songs() == old(self).local_songs()
                    &&& loaded == Err::<usize, IoError>(IoError { cause })
                },
            },
    {
        match listing {
            Ok(names) => {
                self.local_songs = scan(&names);
                Ok(self.local_songs.len())
            },
            Err(cause) => Err(IoError { cause }),
        }
    }

    /// Everything but the local catalog is as in `other`.
    pub open spec fn same_but_catalog(&self, other: &BeatmapDownloaderApp) -> bool {
        &&& self.number_of_fetch_songs() == other.number_of_fetch_songs()
        &&& self.songs_path() == other.songs_path()
        &&& self.new_songs() == other.new_songs()
        &&& self.has_delta() == other.has_delta()
        &&& self.is_fetching() == other.is_fetching()
        &&& self.is_download() == other.is_download()
        &&& self.is_download_finish() == other.is_download_finish()
        &&& self.selected_server() == other.selected_server()
        &&& self.number_of_simultaneous_downloads() == other.number_of_simultaneous_downloads()
        &&& self.server() == other.server()
        &&& self.percentage() == other.percentage()
        &&& self.serial() == other.serial()
    }

    /// Everything but the settings (path, fetch count, server, worker count)
    /// is as in `other`.
    pub open spec fn same_but_settings(&self, other: &BeatmapDownloaderApp) -> bool {
        &&& self.local_songs() == other.local_songs()
        &&& self.new_songs() == other.new_songs()
        &&& self.has_delta() == other.has_delta()
        &&& self.is_fetching() == other.is_fetching()
        &&& self.is_download() == other.is_download()
        &&& self.is_download_finish() == other.is_download_finish()
        &&& self.server() == other.server()
        &&& self.percentage() == other.percentage()
        &&& self.serial() == other.serial()
    }

    /// The settings are as in `other`.
    pub open spec fn same_settings(&self, other: &BeatmapDownloaderApp) -> bool {
        &&& self.number_of_fetch_songs() == other.number_of_fetch_songs()
        &&& self.songs_path() == other.songs_path()
        &&& self.selected_server() == other.selected_server()
        &&& self.number_of_simultaneous_downloads() == other.number_of_simultaneous_downloads()
        &&& self.server() == other.server()
        &&& self.local_songs() == other.local_songs()
    }

    /// Number of items in the local catalog.
    pub fn local_song_count(&self) -> (count: usize)
        ensures
            count == self.local_songs().len(),
    {
        self.local_songs.len()
    }

    /// Number of items in the delta.
    pub fn new_song_count(&self) -> (count: usize)
        ensures
            count == self.new_songs().len(),
    {
        self.new_songs.len()
    }

    /// The items of the delta, each once, in no particular order.
    pub fn new_song_list(&self) -> (list: Vec<u32>)
        ensures
            list@.no_duplicates(),
            list@.to_set() == self.new_songs(),
    {
        ids_to_vec(&self.new_songs)
    }

    /// Tells whether the local catalog holds `id`.
    pub fn has_local(&self, id: u32) -> (held: bool)
        ensures
            held == self.local_songs().contains(id),
    {
        self.local_songs.contains(&id)
    }

    /// The directory of the local catalog, which is also where downloads go.
    pub fn songs_directory(&self) -> (path: &String)
        ensures
            path@ == self.songs_path(),
    {
        &self.songs_path
    }

    /// The name of the selected download server.
    pub fn server_name(&self) -> (name: &String)
        ensures
            name@ == self.selected_server(),
    {
        &self.selected_server
    }

    /// The number of workers that a download runs with.
    pub fn simultaneous_downloads(&self) -> (count: u64)
        ensures
            count == self.number_of_simultaneous_downloads(),
    {
        self.number_of_simultaneous_downloads
    }

    /// The number of items that a fetch asks for.
    pub fn fetch_count(&self) -> (count: u32)
        ensures
            count == self.number_of_fetch_songs(),
    {
        self.number_of_fetch_songs
    }

    /// The number of whole pages that a fetch asks for.
    pub fn number_of_pages(&self) -> (pages: u32)
        ensures
            pages == self.number_of_fetch_songs() / PAGE_SIZE,
    {
        self.number_of_fetch_songs / PAGE_SIZE
    }

    /// Sets the number of items to fetch to `pages` whole pages, or to as
    /// many whole pages as 32 bits can count the items of.
    pub fn set_number_of_pages(&mut self, pages: u32)
        ensures
            final(self).number_of_fetch_songs() == items_of_pages(pages),
            final(self).number_of_fetch_songs() % PAGE_SIZE == 0,
            final(self).same_but_settings(old(self)),
            final(self).songs_path() == old(self).songs_path(),
            final(self).selected_server() == old(self).selected_server(),
            final(self).number_of_simultaneous_downloads() == old(self).number_of_simultaneous_downloads(),
    {
        let most = u32::MAX / PAGE_SIZE;
        self.number_of_fetch_songs = if pages > most {
            most * PAGE_SIZE
        } else {
            pages * PAGE_SIZE
        };
    }

    /// Sets the directory of the local catalog.
    pub fn set_songs_path(&mut self, path: String)
        ensures
            final(self).songs_path() == path@,
            final(self).same_but_settings(old(self)),
            final(self).number_of_fetch_songs() == old(self).number_of_fetch_songs(),
            final(self).selected_server() == old(self).selected_server(),
            final(self).number_of_simultaneous_downloads() == old(self).number_of_simultaneous_downloads(),
    {
        self.songs_path = path;
    }

    /// Selects the download server by name.
    pub fn select_server(&mut self, name: String)
        ensures
            final(self).selected_server() == name@,
            final(self).same_but_settings(old(self)),
            final(self).number_of_fetch_songs() == old(self).number_of_fetch_songs(),
            final(self).songs_path() == old(self).songs_path(),
            final(self).number_of_simultaneous_downloads() == old(self).number_of_simultaneous_downloads(),
    {
        self.selected_server = name;
    }

    /// Sets the number of workers that a download runs with.
    pub fn set_simultaneous_downloads(&mut self, count: u64)
        ensures
            final(self).number_of_simultaneous_downloads() == count,
            final(self).same_but_settings(old(self)),
            final(self).number_of_fetch_songs() == old(self).number_of_fetch_songs(),
            final(self).songs_path() == old(self).songs_path(),
            final(self).selected_server() == old(self).selected_server(),
    {
        self.number_of_simultaneous_downloads = count;
    }

    /// Tells whether a fetch is under way.
    pub fn fetching(&self) -> (r: bool)
        ensures
            r == self.is_fetching(),
    {
        self.fetch.fetching()
    }

    /// Tells whether no download batch is running.
    pub fn download_finished(&self) -> (r: bool)
        ensures
            r == self.is_download_finish(),
    {
        self.is_download_finish
    }

    /// Where the cycle of fetch and download stands.
    pub fn batch_state(&self) -> (state: BatchState)
        ensures
            state == self.state(),
    {
        if self.fetch.fetching() {
            BatchState::Fetching
        } else if self.is_download {
            if self.is_download_finish {
                BatchState::Finished
            } else {
                BatchState::Downloading
            }
        } else if self.has_delta {
            BatchState::Ready
        } else {
            BatchState::NotStarted
        }
    }

    /// The progress of `id`, if it is an item of the delta.
    pub fn progress_of(&self, id: u32) -> (p: Option<Progress>)
        ensures
            p == (if self.percentage().contains_key(id) {
                Some(self.percentage()[id])
            } else {
                None
            }),
            self.wf() ==> (p is Some <==> self.new_songs().contains(id)),
    {
        self.percentage.get(id)
    }

    /// Signals a fetch.
    ///
    /// While a fetch is under way the signal is dropped. Else the downloader
    /// turns to fetching and the caller is to invoke the search provider for
    /// the configured number of items. Nothing else changes either way.
    pub fn find_new_songs(&mut self) -> (action: FetchAction)
        requires
            old(self).wf(),
        ensures
            final(self).wf(),
            final(self).is_fetching(),
            final(self).same_settings(old(self)),
            final(self).unchanged_cycle(old(self)),
            action == (if old(self).is_fetching() {
                FetchAction::Ignore
            } else {
                FetchAction::Invoke(old(self).number_of_fetch_songs())
            }),
    {
        self.fetch.on_start(self.number_of_fetch_songs)
    }

    /// Asks for a fetch, as the user does.
    ///
    /// While a fetch is under way the request is dropped and nothing
    /// changes. Else the delta at hand no longer counts as handed to a
    /// download, and the fetch is signalled as by `find_new_songs`. A batch
    /// that is running goes on; what it reports is no longer shown.
    pub fn request_fetch(&mut self) -> (action: FetchAction)
        requires
            old(self).wf(),
        ensures
            final(self).wf(),
            final(self).is_fetching(),
            final(self).same_settings(old(self)),
            final(self).new_songs() == old(self).new_songs(),
            final(self).has_delta() == old(self).has_delta(),
            final(self).percentage() == old(self).percentage(),
            final(self).is_download_finish() == old(self).is_download_finish(),
            final(self).serial() == old(self).serial(),
            final(self).is_download() == (old(self).is_fetching() && old(self).is_download()),
            action == (if old(self).is_fetching() {
                FetchAction::Ignore
            } else {
                FetchAction::Invoke(old(self).number_of_fetch_songs())
            }),
    {
        if !self.fetch.fetching() {
            self.is_download = false;
        }
        self.find_new_songs()
    }

    /// Takes the delta that a fetch has brought.
    ///
    /// The delta replaces the one at hand, and with it the progress entries:
    /// every item of the new delta has progress zero, nothing else has an
    /// entry. The fetch is over and the delta is ready for download.
    pub fn list_new_songs(&mut self, new_songs: HashSet<u32>)
        ensures
            final(self).wf(),
            final(self).same_settings(old(self)),
            final(self).new_songs() == new_songs@,
            final(self).has_delta(),
            !final(self).is_fetching(),
            !final(self).is_download(),
            final(self).is_download_finish() == old(self).is_download_finish(),
            final(self).serial() == old(self).serial(),
            final(self).percentage().dom() == new_songs@,
            forall|id: u32|
                new_songs@.contains(id) ==> #[trigger] final(self).percentage()[id]
                    == Progress::spec_zero(),
            final(self).state() == BatchState::Ready,
    {
        let list = ids_to_vec(&new_songs);
        self.percentage.reset(&list);
        self.new_songs = new_songs;
        self.has_delta = true;
        self.is_download = false;
        self.fetch.on_end();
        proof {
            Progress::lemma_zero();
        }
    }

    /// Takes the outcome of the fetch that `find_new_songs` asked for.
    ///
    /// A list of items gives a new delta, the items that the local catalog
    /// lacks, which is taken as by `list_new_songs`; the result is its size.
    /// A failure ends the fetch and leaves the delta at hand, its progress
    /// and the catalog as they were. While no fetch is under way the outcome
    /// is dropped and nothing changes.
    pub fn complete_fetch(&mut self, outcome: Result<Vec<Beatmapset>, FetchError>) -> (found:
        Result<Option<usize>, FetchError>)
        requires
            old(self).wf(),
        ensures
            final(self).wf(),
            !final(self).is_fetching(),
            final(self).same_settings(old(self)),
            final(self).is_download_finish() == old(self).is_download_finish(),
            final(self).serial() == old(self).serial(),
            !old(self).is_fetching() ==> {
                &&& found == Ok::<Option<usize>, FetchError>(None)
                &&& final(self).unchanged_cycle(old(self))
            },
            old(self).is_fetching() ==> match outcome {
                Ok(songs) => {
                    &&& final(self).new_songs() == delta_of(songs@, old(self).local_songs())
                    &&& final(self).new_songs().disjoint(final(self).local_songs())
                    &&& found == Ok::<Option<usize>, FetchError>(
                        Some(final(self).new_songs().len() as usize),
                    )
                    &&& final(self).has_delta()
                    &&& !final(self).is_download()
                    &&& final(self).state() == BatchState::Ready
                    &&& forall|id: u32|
                        final(self).new_songs().contains(id) ==> #[trigger] final(self).percentage()[id] == Progress::spec_zero()
                },
                Err(e) => {
                    &&& found == Err::<Option<usize>, FetchError>(e)
                    &&& final(self).unchanged_cycle(old(self))
                },
            },
    {
        if !self.fetch.fetching() {
            return Ok(None);
        }
        match outcome {
            Ok(songs) => {
                let delta = fetch_delta(&songs, &self.local_songs);
                let count = delta.len();
                self.list_new_songs(delta);
                Ok(Some(count))
            },
            Err(e) => {
                self.fetch.on_end();
                Err(e)
            },
        }
    }

    /// The delta, its progress and the download flags are as in `other`.
    pub open spec fn unchanged_cycle(&self, other: &BeatmapDownloaderApp) -> bool {
        &&& self.new_songs() == other.new_songs()
        &&& self.has_delta() == other.has_delta()
        &&& self.is_download() == other.is_download()
        &&& self.is_download_finish() == other.is_download_finish()
        &&& self.percentage() == other.percentage()
        &&& self.serial() == other.serial()
    }

    /// The URL template of the selected server.
    pub fn selected_template(&self) -> (template: Result<&String, DownloadError>)
        ensures
            match template {
                Ok(t) => self.server().contains_key(self.selected_server()) && t@
                    == self.server()[self.selected_server()],
                Err(e) => e == DownloadError::UnknownServer && !self.server().contains_key(
                    self.selected_server(),
                ),
            },
    {
        match self.server.get(self.selected_server.as_str()) {
            Some(t) => Ok(t),
            None => Err(DownloadError::UnknownServer),
        }
    }

    /// The address that item `id` is downloaded from with the selected
    /// server.
    pub fn download_link(&self, id: u32) -> (link: Result<String, DownloadError>)
        ensures
            !self.server().contains_key(self.selected_server()) ==> link == Err::<
                String,
                DownloadError,
            >(DownloadError::UnknownServer),
            self.server().contains_key(self.selected_server()) ==> {
                let template = self.server()[self.selected_server()];
                &&& link is Ok <==> is_safe_template(template) && strfmt_output(
                    template,
                    key_chars(),
                    id,
                ) is Some
                &&& link matches Ok(text) ==> Some(text@) == strfmt_output(template, key_chars(), id)
                &&& link matches Err(e) ==> e == DownloadError::Template
                &&& is_plain_template(template) ==> link is Ok && link->Ok_0@ == substitute(
                    template,
                    decimal(id as nat),
                )
            },
    {
        match self.selected_template() {
            Ok(t) => render_url(t.as_str(), id),
            Err(e) => Err(e),
        }
    }

    /// Asks for a download of the delta at hand.
    ///
    /// The request is dropped, and nothing changes, unless the delta is
    /// ready and no batch is running. It fails, and nothing changes, where
    /// the selected server has no URL template. Else the downloader turns to
    /// downloading, every item of the delta has progress zero, and the
    /// caller gets the batch to run: the items of the delta and as many idle
    /// workers as are configured.
    pub fn download_v2(&mut self) -> (started: Result<Option<BatchPlan>, DownloadError>)
        requires
            old(self).wf(),
        ensures
            final(self).wf(),
            final(self).same_settings(old(self)),
            final(self).new_songs() == old(self).new_songs(),
            final(self).has_delta() == old(self).has_delta(),
            final(self).is_fetching() == old(self).is_fetching(),
            !old(self).can_download() ==> {
                &&& started matches Ok(None)
                &&& final(self).unchanged_cycle(old(self))
            },
            old(self).can_download() && !old(self).server().contains_key(
                old(self).selected_server(),
            ) ==> {
                &&& started matches Err(DownloadError::UnknownServer)
                &&& final(self).unchanged_cycle(old(self))
            },
            old(self).can_download() && old(self).server().contains_key(
                old(self).selected_server(),
            ) ==> {
                &&& started matches Ok(Some(plan)) && {
                    &&& plan.batch.wf()
                    &&& plan.batch.serial() == old(self).next_serial()
                    &&& final(self).tracks(&plan.batch)
                    &&& final(self).mirrors(&plan.batch)
                    &&& plan.batch.items().to_set() == old(self).new_songs()
                    &&& plan.batch.pushed() == 0
                    &&& plan.batch.queued() == Seq::<u32>::empty()
                    &&& !plan.batch.closed()
                    &&& !plan.batch.finished()
                    &&& plan.batch.workers() == Seq::new(
                        pool_size(old(self).number_of_simultaneous_downloads()) as nat,
                        |w: int| crate::batch::WorkerState::Idle,
                    )
                    &&& plan.batch.done() == Set::<u32>::empty()
                    &&& plan.batch.failed() == Set::<u32>::empty()
                    &&& plan.batch.capacity() == crate::batch::QUEUE_CAPACITY
                    &&& forall|id: u32|
                        old(self).new_songs().contains(id) ==> #[trigger] plan.batch.progress()[id]
                            == Progress::spec_zero()
                    &&& plan.url_template@ == old(self).server()[old(self).selected_server()]
                    &&& plan.dest_dir@ == old(self).songs_path()
                }
                &&& final(self).is_download()
                &&& !final(self).is_download_finish()
                &&& final(self).serial() == old(self).next_serial()
                &&& !final(self).can_download()
                &&& final(self).state() == BatchState::Downloading
                &&& final(self).percentage().dom() == old(self).new_songs()
                &&& forall|id: u32|
                    old(self).new_songs().contains(id) ==> #[trigger] final(self).percentage()[id]
                        == Progress::spec_zero()
            },
    {
        if self.fetch.fetching() || self.is_download || !self.has_delta
            || !self.is_download_finish {
            return Ok(None);
        }
        let url_template = match self.server.get(self.selected_server.as_str()) {
            Some(t) => t.clone(),
            None => {
                return Err(DownloadError::UnknownServer);
            },
        };
        let workers: usize = if self.number_of_simultaneous_downloads > usize::MAX as u64 {
            usize::MAX
        } else {
            self.number_of_simultaneous_downloads as usize
        };
        let serial: u64 = if self.serial == u64::MAX {
            1
        } else {
            self.serial + 1
        };
        let batch = DownloadBatch::numbered(&self.new_songs, workers, serial);
        let list = ids_to_vec(&self.new_songs);
        self.percentage.reset(&list);
        self.is_download = true;
        self.is_download_finish = false;
        self.serial = serial;
        proof {
            Progress::lemma_zero();
            assert(self.percentage() =~= batch.progress());
        }
        Ok(Some(BatchPlan { batch, url_template, dest_dir: self.songs_path.clone() }))
    }

    /// Records how far the download of worker `worker` of `batch` has come:
    /// `downloaded` bytes of a body announced as `total_size` bytes. Tells
    /// whether the entry of the worker's item was written in the batch.
    ///
    /// The batch records it as `DownloadBatch::report_progress` does. Where
    /// `batch` downloads the delta at hand, the entry that the observer sees
    /// is written in the same way; else the observer's entries stay as they
    /// are. No entry is ever added or removed.
    pub fn report_progress(
        &mut self,
        batch: &mut DownloadBatch,
        worker: usize,
        downloaded: u64,
        total_size: u64,
    ) -> (written: bool)
        requires
            old(self).wf(),
            old(batch).wf(),
        ensures
            final(self).wf(),
            final(batch).wf(),
            old(batch).reported(worker as int, downloaded, total_size, final(batch), written),
            final(self).same_but_progress(old(self)),
            final(self).percentage() == (match old(batch).worker_state_of(worker as int) {
                WorkerState::Busy(id) if old(self).tracks(old(batch)) => ProgressStore::recorded(
                    old(self).percentage(),
                    id,
                    Progress::spec_after(downloaded, total_size),
                ),
                _ => old(self).percentage(),
            }),
            old(self).mirrors(old(batch)) ==> final(self).mirrors(final(batch)),
    {
        let state = batch.worker_state(worker);
        let written = batch.report_progress(worker, downloaded, total_size);
        if self.is_download && batch.serial_number() == self.serial {
            match state {
                WorkerState::Busy(id) => {
                    self.percentage.record(id, Progress::after_chunk(downloaded, total_size));
                },
                _ => {},
            }
        }
        written
    }

    /// Ends the job of worker `worker` of `batch` and tells whether there
    /// was one.
    ///
    /// The batch takes it as `DownloadBatch::complete_job` does. Where
    /// `batch` downloads the delta at hand and the download went through,
    /// the entry that the observer sees becomes one as well; after a failure
    /// it stays what it was.
    pub fn complete_job(
        &mut self,
        batch: &mut DownloadBatch,
        worker: usize,
        outcome: Result<(), DownloadError>,
    ) -> (ended: bool)
        requires
            old(self).wf(),
            old(batch).wf(),
        ensures
            final(self).wf(),
            final(batch).wf(),
            old(batch).completed(worker as int, outcome, final(batch), ended),
            final(self).same_but_progress(old(self)),
            final(self).percentage() == (match old(batch).worker_state_of(worker as int) {
                WorkerState::Busy(id) if old(self).tracks(old(batch)) && outcome is Ok =>
                    ProgressStore::recorded(old(self).percentage(), id, Progress::spec_complete()),
                _ => old(self).percentage(),
            }),
            old(self).mirrors(old(batch)) ==> final(self).mirrors(final(batch)),
    {
        let state = batch.worker_state(worker);
        let went_through = outcome.is_ok();
        let ended = batch.complete_job(worker, outcome);
        if went_through && self.is_download && batch.serial_number() == self.serial {
            match state {
                WorkerState::Busy(id) => {
                    self.percentage.record(id, Progress::complete());
                },
                _ => {},
            }
        }
        ended
    }

    /// Takes note that the batch started last is over, and tells whether it
    /// did: `batch` must be that batch and be finished. Any other batch
    /// changes nothing.
    pub fn finish_batch(&mut self, batch: &DownloadBatch) -> (over: bool)
        ensures
            over == (batch.finished() && batch.serial() == old(self).serial()),
            final(self).same_settings(old(self)),
            final(self).new_songs() == old(self).new_songs(),
            final(self).has_delta() == old(self).has_delta(),
            final(self).is_fetching() == old(self).is_fetching(),
            final(self).is_download() == old(self).is_download(),
            final(self).percentage() == old(self).percentage(),
            final(self).serial() == old(self).serial(),
            final(self).is_download_finish() == (old(self).is_download_finish() || over),
            old(self).mirrors(batch) ==> final(self).mirrors(batch),
    {
        if batch.is_finished() && batch.serial_number() == self.serial {
            self.is_download_finish = true;
            true
        } else {
            false
        }
    }
}

/// Single flight of downloads: while a batch is running, while the delta at
/// hand was already handed to a download, and while a fetch is under way, a
/// request for a download is one that `download_v2` drops.
pub proof fn law_single_flight_download(app: BeatmapDownloaderApp)
    requires
        !app.is_download_finish() || app.is_download() || app.is_fetching(),
    ensures
        !app.can_download(),
{
}

/// What the user sees at the end of a download: where the batch that
/// downloads the delta at hand is finished, had a worker, and gave up no
/// item, every item of the delta shows progress one.
pub proof fn law_observer_sees_completion(app: BeatmapDownloaderApp, batch: DownloadBatch)
    requires
        batch.wf(),
        app.tracks(&batch),
        app.mirrors(&batch),
        batch.items().to_set() == app.new_songs(),
        batch.finished(),
        batch.workers().len() >= 1,
        batch.failed() == Set::<u32>::empty(),
    ensures
        forall|id: u32|
            app.new_songs().contains(id) ==> (#[trigger] app.percentage()[id]).is_complete(),
{
    law_finished_batch_is_settled(batch);
    assert forall|id: u32| app.new_songs().contains(id) implies (
    #[trigger] app.percentage()[id]).is_complete() by {
        assert(batch.items().contains(id));
        assert(batch.progress()[id].is_complete());
    }
}

} // verus!
