use mpvy::eviction::{age_order, evict, CacheFile};

fn listing(stamps: &[i128]) -> Vec<CacheFile> {
    let mut files = Vec::new();
    for (k, stamp) in stamps.iter().enumerate() {
        files.push(CacheFile { name: format!("file{}.mp3", k), modified: *stamp });
    }
    files
}

#[test]
fn oldest_files_go_first() {
    let files = listing(&[50, 10, 40, 20, 30]);
    let out = evict(&files, 2);
    assert_eq!(out.removed, vec![1, 3, 4]);
    assert_eq!(out.kept, vec![2, 0]);
}

#[test]
fn exactly_the_bound_remains() {
    let files = listing(&[7, 3, 9, 1, 5, 8, 2, 6, 4, 0]);
    for max in 0..10usize {
        let out = evict(&files, max);
        assert_eq!(out.kept.len(), max);
        assert_eq!(out.removed.len(), 10 - max);
        let newest_removed = out.removed.iter().map(|k| files[*k].modified).max();
        let oldest_kept = out.kept.iter().map(|k| files[*k].modified).min();
        if let (Some(r), Some(k)) = (newest_removed, oldest_kept) {
            assert!(r < k);
        }
    }
}

#[test]
fn nothing_goes_below_the_bound() {
    let files = listing(&[3, 1, 2]);
    let out = evict(&files, 3);
    assert!(out.removed.is_empty());
    assert_eq!(out.kept, vec![1, 2, 0]);
    let out = evict(&files, 15);
    assert!(out.removed.is_empty());
    assert_eq!(out.kept.len(), 3);
}

#[test]
fn empty_listing_gives_empty_decision() {
    let files = listing(&[]);
    let out = evict(&files, 15);
    assert!(out.removed.is_empty());
    assert!(out.kept.is_empty());
    let out = evict(&files, 0);
    assert!(out.removed.is_empty());
    assert!(out.kept.is_empty());
}

#[test]
fn bound_of_zero_removes_everything() {
    let files = listing(&[2, 1]);
    let out = evict(&files, 0);
    assert_eq!(out.removed, vec![1, 0]);
    assert!(out.kept.is_empty());
}

#[test]
fn equal_times_keep_listing_order() {
    let files = listing(&[5, 5, 1, 5, 1]);
    assert_eq!(age_order(&files), vec![2, 4, 0, 1, 3]);
    let out = evict(&files, 2);
    assert_eq!(out.removed, vec![2, 4, 0]);
    assert_eq!(out.kept, vec![1, 3]);
}

#[test]
fn times_before_the_epoch_are_older() {
    let files = listing(&[0, -5, 3]);
    assert_eq!(age_order(&files), vec![1, 0, 2]);
}
