use beatmap_downloader::batch::{CoordinatorStep, DownloadBatch, WorkerStep};
use beatmap_downloader::client::{Beatmapset, FetchError};
use beatmap_downloader::downloader::{BatchState, BeatmapDownloaderApp};
use beatmap_downloader::error::{DownloadError, IoError};
use beatmap_downloader::fetch::FetchAction;
use beatmap_downloader::filename::default_file_name;
use beatmap_downloader::progress::Progress;
use beatmap_downloader::settings::ServerList;
use beatmap_downloader::template::render_url;
use std::collections::HashSet;

fn song(id: u32, title: &str) -> Beatmapset {
    Beatmapset { id, title: title.to_string() }
}

fn servers() -> ServerList {
    let mut list = ServerList::new();
    list.insert("x".to_string(), "http://x/{beatmap_id}".to_string());
    list.insert("y".to_string(), "http://y/d/{beatmap_id}".to_string());
    list
}

fn app_with(workers: u64) -> BeatmapDownloaderApp {
    BeatmapDownloaderApp::new("/songs".to_string(), 250, servers(), "x".to_string(), workers)
}

fn names(list: &[&str]) -> Result<Vec<String>, String> {
    Ok(list.iter().map(|name| name.to_string()).collect())
}

fn set(ids: &[u32]) -> HashSet<u32> {
    ids.iter().copied().collect()
}

fn fetched(app: &mut BeatmapDownloaderApp, remote: Vec<Beatmapset>) {
    assert!(matches!(app.request_fetch(), FetchAction::Invoke(_)));
    assert!(matches!(app.complete_fetch(Ok(remote)), Ok(Some(_))));
}

/// Runs a plan's batch in one thread, downloading nothing: records the
/// address and the file name of every job and lets jobs fail where told.
fn run(
    app: &mut BeatmapDownloaderApp,
    batch: &mut DownloadBatch,
    template: &str,
    fails: &dyn Fn(u32) -> bool,
) -> Vec<(String, String)> {
    let mut requests = Vec::new();
    loop {
        if batch.coordinator_step() == CoordinatorStep::Finished {
            break;
        }
        for worker in 0..batch.worker_count() {
            if let WorkerStep::Job(id) = batch.worker_step(worker) {
                let url = render_url(template, id).expect("template");
                requests.push((url, default_file_name(id)));
                if fails(id) {
                    app.complete_job(batch, worker, Err(DownloadError::Transfer("x".to_string())));
                } else {
                    app.report_progress(batch, worker, 5, 10);
                    app.complete_job(batch, worker, Ok(()));
                }
            }
        }
    }
    assert!(app.finish_batch(batch));
    requests.sort();
    requests
}

#[test]
fn new_app_has_nothing() {
    let app = app_with(2);
    assert_eq!(app.batch_state(), BatchState::NotStarted);
    assert_eq!(app.local_song_count(), 0);
    assert_eq!(app.new_song_count(), 0);
    assert!(!app.fetching());
    assert!(app.download_finished());
    assert_eq!(app.fetch_count(), 250);
    assert_eq!(app.number_of_pages(), 5);
    assert_eq!(app.progress_of(1), None);
}

#[test]
fn catalog_is_rebuilt_from_a_listing() {
    let mut app = app_with(2);
    assert_eq!(app.load_songs_from_local(names(&["1 A", "2 B", "notes.txt"])), Ok(2));
    assert!(app.has_local(1));
    assert!(app.has_local(2));
    assert_eq!(app.local_song_count(), 2);
    assert_eq!(app.load_songs_from_local(names(&["2 B", "5 E", "6 F"])), Ok(3));
    assert!(!app.has_local(1));
    assert!(app.has_local(5));
    assert_eq!(app.local_song_count(), 3);
}

#[test]
fn failed_listing_keeps_the_catalog() {
    let mut app = app_with(2);
    assert_eq!(app.load_songs_from_local(names(&["1 A"])), Ok(1));
    assert_eq!(
        app.load_songs_from_local(Err("permission denied".to_string())),
        Err(IoError { cause: "permission denied".to_string() })
    );
    assert!(app.has_local(1));
    assert_eq!(app.local_song_count(), 1);
}

#[test]
fn pages_round_the_fetch_count() {
    let mut app = BeatmapDownloaderApp::new("".to_string(), 270, servers(), "x".to_string(), 1);
    assert_eq!(app.number_of_pages(), 5);
    app.set_number_of_pages(app.number_of_pages());
    assert_eq!(app.fetch_count(), 250);
    app.set_number_of_pages(0);
    assert_eq!(app.fetch_count(), 0);
    app.set_number_of_pages(3);
    assert_eq!(app.fetch_count(), 150);
    app.set_number_of_pages(85899345);
    assert_eq!(app.fetch_count(), 4294967250);
    app.set_number_of_pages(85899346);
    assert_eq!(app.fetch_count(), 4294967250);
    app.set_number_of_pages(u32::MAX);
    assert_eq!(app.fetch_count(), 4294967250);
}

#[test]
fn two_fetch_requests_invoke_once() {
    let mut app = app_with(2);
    assert_eq!(app.find_new_songs(), FetchAction::Invoke(250));
    assert_eq!(app.batch_state(), BatchState::Fetching);
    assert_eq!(app.find_new_songs(), FetchAction::Ignore);
    assert_eq!(app.request_fetch(), FetchAction::Ignore);
    assert_eq!(app.batch_state(), BatchState::Fetching);
    assert_eq!(app.complete_fetch(Ok(Vec::new())), Ok(Some(0)));
    assert_eq!(app.find_new_songs(), FetchAction::Invoke(250));
}

#[test]
fn fetch_gives_the_delta_with_zero_progress() {
    let mut app = app_with(2);
    app.load_songs_from_local(names(&["1 one", "2 two"])).unwrap();
    assert_eq!(app.find_new_songs(), FetchAction::Invoke(250));
    let found = app.complete_fetch(Ok(vec![song(1, "A"), song(3, "B"), song(4, "C"), song(3, "B")]));
    assert_eq!(found, Ok(Some(2)));
    assert_eq!(app.batch_state(), BatchState::Ready);
    let mut list = app.new_song_list();
    list.sort();
    assert_eq!(list, vec![3, 4]);
    assert_eq!(app.progress_of(3), Some(Progress::zero()));
    assert_eq!(app.progress_of(4), Some(Progress::zero()));
    assert_eq!(app.progress_of(1), None);
    assert_eq!(app.progress_of(2), None);
}

#[test]
fn failed_fetch_keeps_the_delta() {
    let mut app = app_with(2);
    fetched(&mut app, vec![song(3, "B")]);
    assert_eq!(app.find_new_songs(), FetchAction::Invoke(250));
    let failure = FetchError::Status(502, "Bad Gateway".to_string());
    assert_eq!(app.complete_fetch(Err(failure.clone())), Err(failure));
    assert!(!app.fetching());
    assert_eq!(app.new_song_list(), vec![3]);
    assert_eq!(app.progress_of(3), Some(Progress::zero()));
    assert_eq!(app.batch_state(), BatchState::Ready);
}

#[test]
fn outcome_without_fetch_is_dropped() {
    let mut app = app_with(2);
    assert_eq!(app.complete_fetch(Ok(vec![song(3, "B")])), Ok(None));
    assert_eq!(app.new_song_count(), 0);
    assert_eq!(app.batch_state(), BatchState::NotStarted);
}

#[test]
fn new_fetch_discards_the_old_delta() {
    let mut app = app_with(2);
    fetched(&mut app, vec![song(3, "B"), song(4, "C")]);
    fetched(&mut app, vec![song(9, "Z")]);
    assert_eq!(app.new_song_list(), vec![9]);
    assert_eq!(app.progress_of(3), None);
    assert_eq!(app.progress_of(9), Some(Progress::zero()));
}

#[test]
fn list_new_songs_takes_a_delta() {
    let mut app = app_with(2);
    app.find_new_songs();
    app.list_new_songs(set(&[7, 8]));
    assert!(!app.fetching());
    assert_eq!(app.batch_state(), BatchState::Ready);
    assert_eq!(app.new_song_count(), 2);
    assert_eq!(app.progress_of(7), Some(Progress::zero()));
}

#[test]
fn download_needs_a_delta() {
    let mut app = app_with(2);
    assert!(matches!(app.download_v2(), Ok(None)));
    assert_eq!(app.batch_state(), BatchState::NotStarted);
    app.find_new_songs();
    assert!(matches!(app.download_v2(), Ok(None)));
    assert_eq!(app.batch_state(), BatchState::Fetching);
}

#[test]
fn download_with_unknown_server_fails() {
    let mut app =
        BeatmapDownloaderApp::new("/songs".to_string(), 250, servers(), "nowhere".to_string(), 2);
    fetched(&mut app, vec![song(3, "B")]);
    assert!(matches!(app.download_v2(), Err(DownloadError::UnknownServer)));
    assert_eq!(app.batch_state(), BatchState::Ready);
    assert_eq!(app.download_link(3), Err(DownloadError::UnknownServer));
    app.select_server("y".to_string());
    assert_eq!(app.download_link(3), Ok("http://y/d/3".to_string()));
    assert!(matches!(app.download_v2(), Ok(Some(_))));
}

#[test]
fn second_download_request_is_a_no_op() {
    let mut app = app_with(2);
    fetched(&mut app, vec![song(3, "B"), song(4, "C")]);
    let mut plan = match app.download_v2() {
        Ok(Some(plan)) => plan,
        _ => panic!("no batch"),
    };
    assert_eq!(app.batch_state(), BatchState::Downloading);
    assert!(matches!(plan.batch.coordinator_step(), CoordinatorStep::Pushed(_)));
    let id = match plan.batch.worker_step(0) {
        WorkerStep::Job(id) => id,
        other => panic!("no job: {:?}", other),
    };
    assert!(app.report_progress(&mut plan.batch, 0, 1, 4));

    assert!(matches!(app.download_v2(), Ok(None)));
    assert!(matches!(app.download_v2(), Ok(None)));
    assert_eq!(app.batch_state(), BatchState::Downloading);
    assert_eq!(app.progress_of(id), Some(Progress::after_chunk(1, 4)));
    assert_eq!(plan.batch.progress_of(id), Some(Progress::after_chunk(1, 4)));
    assert_eq!(plan.batch.worker_count(), 2);
    assert_eq!(plan.batch.item_count(), 2);
    assert!(!app.download_finished());
}

#[test]
fn finished_download_is_not_started_again() {
    let mut app = app_with(1);
    fetched(&mut app, vec![song(3, "B")]);
    let mut plan = match app.download_v2() {
        Ok(Some(plan)) => plan,
        _ => panic!("no batch"),
    };
    assert!(!app.finish_batch(&plan.batch));
    assert!(!app.download_finished());
    let template = plan.url_template.clone();
    run(&mut app, &mut plan.batch, template.as_str(), &|_| false);
    assert!(app.download_finished());
    assert_eq!(app.batch_state(), BatchState::Finished);
    assert!(matches!(app.download_v2(), Ok(None)));
    assert_eq!(app.batch_state(), BatchState::Finished);
}

#[test]
fn fetch_during_download_keeps_the_batch_single() {
    let mut app = app_with(1);
    fetched(&mut app, vec![song(3, "B")]);
    let mut plan = match app.download_v2() {
        Ok(Some(plan)) => plan,
        _ => panic!("no batch"),
    };
    fetched(&mut app, vec![song(5, "E")]);
    assert_eq!(app.batch_state(), BatchState::Ready);
    assert!(!app.download_finished());
    assert!(matches!(app.download_v2(), Ok(None)));
    let template = plan.url_template.clone();
    run(&mut app, &mut plan.batch, template.as_str(), &|_| false);
    assert_eq!(plan.batch.progress_of(3), Some(Progress::complete()));
    assert!(app.download_finished());
    assert_eq!(app.progress_of(3), None);
    assert_eq!(app.progress_of(5), Some(Progress::zero()));
    assert!(matches!(app.download_v2(), Ok(Some(_))));
    assert_eq!(app.batch_state(), BatchState::Downloading);
}

#[test]
fn signal_alone_leaves_the_download_as_it_is() {
    let mut app = app_with(1);
    fetched(&mut app, vec![song(3, "B")]);
    let mut plan = match app.download_v2() {
        Ok(Some(plan)) => plan,
        _ => panic!("no batch"),
    };
    assert!(matches!(plan.batch.coordinator_step(), CoordinatorStep::Pushed(3)));
    assert_eq!(plan.batch.worker_step(0), WorkerStep::Job(3));
    assert!(app.report_progress(&mut plan.batch, 0, 1, 4));

    assert_eq!(app.find_new_songs(), FetchAction::Invoke(250));
    assert_eq!(app.batch_state(), BatchState::Fetching);
    assert_eq!(app.progress_of(3), Some(Progress::after_chunk(1, 4)));
    assert!(app.report_progress(&mut plan.batch, 0, 2, 4));
    assert_eq!(app.progress_of(3), Some(Progress::after_chunk(2, 4)));
    assert_eq!(app.find_new_songs(), FetchAction::Ignore);

    let failure = FetchError::Transport("down".to_string());
    assert_eq!(app.complete_fetch(Err(failure.clone())), Err(failure));
    assert_eq!(app.batch_state(), BatchState::Downloading);
    assert_eq!(app.new_song_list(), vec![3]);
    assert_eq!(app.progress_of(3), Some(Progress::after_chunk(2, 4)));
}

#[test]
fn accepted_request_hides_the_running_download() {
    let mut app = app_with(1);
    fetched(&mut app, vec![song(3, "B")]);
    let mut plan = match app.download_v2() {
        Ok(Some(plan)) => plan,
        _ => panic!("no batch"),
    };
    assert!(matches!(plan.batch.coordinator_step(), CoordinatorStep::Pushed(3)));
    assert_eq!(plan.batch.worker_step(0), WorkerStep::Job(3));
    assert!(app.report_progress(&mut plan.batch, 0, 1, 4));

    assert_eq!(app.request_fetch(), FetchAction::Invoke(250));
    assert_eq!(app.request_fetch(), FetchAction::Ignore);
    assert!(app.report_progress(&mut plan.batch, 0, 2, 4));
    assert_eq!(plan.batch.progress_of(3), Some(Progress::after_chunk(2, 4)));
    assert_eq!(app.progress_of(3), Some(Progress::after_chunk(1, 4)));
    assert!(app.complete_job(&mut plan.batch, 0, Ok(())));
    assert_eq!(plan.batch.progress_of(3), Some(Progress::complete()));
    assert_eq!(app.progress_of(3), Some(Progress::after_chunk(1, 4)));

    assert_eq!(app.complete_fetch(Err(FetchError::MissingPage)), Err(FetchError::MissingPage));
    assert_eq!(app.batch_state(), BatchState::Ready);
    assert!(matches!(app.download_v2(), Ok(None)));
}

#[test]
fn observer_sees_what_the_batch_holds() {
    let mut app = app_with(2);
    fetched(&mut app, vec![song(3, "B"), song(4, "C"), song(5, "D")]);
    let mut plan = match app.download_v2() {
        Ok(Some(plan)) => plan,
        _ => panic!("no batch"),
    };
    let same = |app: &BeatmapDownloaderApp, batch: &DownloadBatch| {
        for id in 0..8 {
            assert_eq!(app.progress_of(id), batch.progress_of(id), "item {}", id);
        }
    };
    same(&app, &plan.batch);
    let batch = &mut plan.batch;
    while batch.coordinator_step() != CoordinatorStep::Finished {
        for worker in 0..2 {
            if let WorkerStep::Job(id) = batch.worker_step(worker) {
                assert!(app.report_progress(batch, worker, 1, 3));
                same(&app, batch);
                assert!(app.report_progress(batch, worker, 3, 3));
                assert!(!app.report_progress(batch, worker, 2, 3));
                same(&app, batch);
                let outcome = if id == 4 {
                    Err(DownloadError::Write("full".to_string()))
                } else {
                    Ok(())
                };
                assert!(app.complete_job(batch, worker, outcome));
                same(&app, batch);
            }
            assert!(!app.report_progress(batch, 7, 1, 3));
        }
    }
    assert!(app.finish_batch(batch));
    same(&app, batch);
}

#[test]
fn only_the_batch_started_last_counts() {
    let mut app = app_with(1);
    fetched(&mut app, vec![song(3, "B")]);
    let mut plan = match app.download_v2() {
        Ok(Some(plan)) => plan,
        _ => panic!("no batch"),
    };
    assert_eq!(plan.batch.serial_number(), 1);

    let mut stranger = DownloadBatch::new(&set(&[3]), 1);
    assert!(matches!(stranger.coordinator_step(), CoordinatorStep::Pushed(3)));
    assert_eq!(stranger.worker_step(0), WorkerStep::Job(3));
    assert!(app.report_progress(&mut stranger, 0, 1, 2));
    assert_eq!(stranger.progress_of(3), Some(Progress::after_chunk(1, 2)));
    assert_eq!(app.progress_of(3), Some(Progress::zero()));
    assert!(app.complete_job(&mut stranger, 0, Ok(())));
    assert_eq!(app.progress_of(3), Some(Progress::zero()));
    assert_eq!(stranger.coordinator_step(), CoordinatorStep::Closed);
    assert_eq!(stranger.worker_step(0), WorkerStep::Exit);
    assert_eq!(stranger.coordinator_step(), CoordinatorStep::Finished);
    assert!(!app.finish_batch(&stranger));
    assert!(!app.download_finished());

    let template = plan.url_template.clone();
    run(&mut app, &mut plan.batch, template.as_str(), &|_| false);
    assert!(app.download_finished());
    assert_eq!(app.progress_of(3), Some(Progress::complete()));
}

#[test]
fn worker_count_follows_the_setting() {
    let mut app = app_with(3);
    app.set_simultaneous_downloads(4);
    app.set_songs_path("/other".to_string());
    fetched(&mut app, vec![song(3, "B")]);
    let plan = match app.download_v2() {
        Ok(Some(plan)) => plan,
        _ => panic!("no batch"),
    };
    assert_eq!(plan.batch.worker_count(), 4);
    assert_eq!(plan.dest_dir, "/other");
    assert_eq!(plan.url_template, "http://x/{beatmap_id}");
}

#[test]
fn end_to_end_two_new_items() {
    let mut app = app_with(2);
    assert_eq!(app.load_songs_from_local(names(&["1 A", "2 B"])), Ok(2));
    assert_eq!(app.find_new_songs(), FetchAction::Invoke(250));
    assert_eq!(
        app.complete_fetch(Ok(vec![song(1, "A"), song(3, "B"), song(4, "C")])),
        Ok(Some(2))
    );
    let mut delta = app.new_song_list();
    delta.sort();
    assert_eq!(delta, vec![3, 4]);

    let mut plan = match app.download_v2() {
        Ok(Some(plan)) => plan,
        _ => panic!("no batch"),
    };
    assert_eq!(plan.batch.worker_count(), 2);
    assert_eq!(plan.dest_dir, "/songs");
    let template = plan.url_template.clone();
    let requests = run(&mut app, &mut plan.batch, template.as_str(), &|_| false);
    assert_eq!(
        requests,
        vec![
            ("http://x/3".to_string(), "3.osz".to_string()),
            ("http://x/4".to_string(), "4.osz".to_string()),
        ]
    );
    assert!(plan.batch.is_finished());
    assert_eq!(plan.batch.progress_of(3), Some(Progress::complete()));
    assert_eq!(plan.batch.progress_of(4), Some(Progress::complete()));
    assert_eq!(app.progress_of(3), Some(Progress::complete()));
    assert_eq!(app.progress_of(4), Some(Progress::complete()));
    assert_eq!(app.batch_state(), BatchState::Finished);
}

#[test]
fn end_to_end_with_a_failure() {
    let mut app = app_with(2);
    fetched(&mut app, vec![song(3, "B"), song(4, "C"), song(5, "D")]);
    let mut plan = match app.download_v2() {
        Ok(Some(plan)) => plan,
        _ => panic!("no batch"),
    };
    let template = plan.url_template.clone();
    let requests = run(&mut app, &mut plan.batch, template.as_str(), &|id| id == 4);
    assert_eq!(requests.len(), 3);
    assert!(plan.batch.is_finished());
    assert!(plan.batch.has_failed(4));
    assert_eq!(app.progress_of(3), Some(Progress::complete()));
    assert_eq!(app.progress_of(4), Some(Progress::zero()));
    assert_eq!(app.progress_of(5), Some(Progress::complete()));
    assert_eq!(app.batch_state(), BatchState::Finished);
}
