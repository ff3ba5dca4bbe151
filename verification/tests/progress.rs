use beatmap_downloader::progress::{Progress, ProgressStore, Transfer};

fn fraction(p: Progress) -> (u64, u64) {
    (p.received(), p.total())
}

#[test]
fn zero_and_complete() {
    assert_eq!(fraction(Progress::zero()), (0, 1));
    assert!(!Progress::zero().finished());
    assert_eq!(fraction(Progress::complete()), (1, 1));
    assert!(Progress::complete().finished());
}

#[test]
fn after_chunk_is_the_fraction() {
    assert_eq!(fraction(Progress::after_chunk(25, 100)), (25, 100));
    assert_eq!(fraction(Progress::after_chunk(0, 100)), (0, 100));
    assert_eq!(fraction(Progress::after_chunk(99, 100)), (99, 100));
    assert!(!Progress::after_chunk(99, 100).finished());
}

#[test]
fn after_chunk_is_one_when_size_reached_or_unknown() {
    assert_eq!(Progress::after_chunk(100, 100), Progress::complete());
    assert_eq!(Progress::after_chunk(150, 100), Progress::complete());
    assert_eq!(Progress::after_chunk(10, 0), Progress::complete());
    assert_eq!(Progress::after_chunk(0, 0), Progress::complete());
    assert_eq!(Progress::after_chunk(u64::MAX, u64::MAX), Progress::complete());
}

#[test]
fn store_reset_gives_zero_entries() {
    let mut store = ProgressStore::new();
    assert_eq!(store.len(), 0);
    assert_eq!(store.get(3), None);
    store.reset(&vec![3, 4]);
    assert_eq!(store.len(), 2);
    assert_eq!(store.get(3), Some(Progress::zero()));
    assert_eq!(store.get(4), Some(Progress::zero()));
    assert_eq!(store.get(5), None);
    store.reset(&vec![5]);
    assert_eq!(store.len(), 1);
    assert_eq!(store.get(3), None);
    assert_eq!(store.get(5), Some(Progress::zero()));
    store.clear();
    assert_eq!(store.len(), 0);
}

#[test]
fn store_keeps_its_keys() {
    let mut store = ProgressStore::new();
    store.reset(&vec![3, 4]);
    assert!(!store.record(9, Progress::after_chunk(1, 2)));
    assert_eq!(store.len(), 2);
    assert_eq!(store.get(9), None);
    assert!(store.record(3, Progress::after_chunk(1, 2)));
    assert_eq!(store.get(3), Some(Progress::after_chunk(1, 2)));
    assert_eq!(store.get(4), Some(Progress::zero()));
    assert_eq!(store.len(), 2);
}

#[test]
fn store_never_changes_a_complete_entry() {
    let mut store = ProgressStore::new();
    store.reset(&vec![3]);
    assert!(store.record(3, Progress::complete()));
    assert!(!store.record(3, Progress::after_chunk(1, 2)));
    assert!(!store.record(3, Progress::zero()));
    assert_eq!(store.get(3), Some(Progress::complete()));
}

#[test]
fn transfer_counts_chunks() {
    let mut transfer = Transfer::new(Some(100));
    assert_eq!(fraction(transfer.on_chunk(30)), (30, 100));
    assert_eq!(fraction(transfer.on_chunk(30)), (60, 100));
    assert_eq!(fraction(transfer.on_chunk(0)), (60, 100));
    assert_eq!(transfer.on_chunk(40), Progress::complete());
    assert_eq!(transfer.on_chunk(1), Progress::complete());
}

#[test]
fn transfer_of_unknown_size_is_complete_at_once() {
    let mut transfer = Transfer::new(None);
    assert_eq!(transfer.on_chunk(10), Progress::complete());
    let mut empty = Transfer::new(Some(0));
    assert_eq!(empty.on_chunk(0), Progress::complete());
}

#[test]
fn transfer_count_stops_at_the_top() {
    let mut transfer = Transfer::new(Some(u64::MAX));
    let most = usize::MAX - 1;
    assert_eq!(fraction(transfer.on_chunk(most)), (most as u64, u64::MAX));
    if usize::BITS == 64 {
        assert_eq!(transfer.on_chunk(most), Progress::complete());
        assert_eq!(transfer.on_chunk(most), Progress::complete());
    }
}
