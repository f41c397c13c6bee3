use rustmission::snapshot::SharedSnapshot;
use rustmission::stats::{CumulativeStats, Stats};

fn complete_value(seed: i64) -> Stats {
    Stats {
        upload_speed: seed,
        download_speed: seed * 10,
        torrent_count: seed * 100,
        cumulative_stats: CumulativeStats {
            uploaded_bytes: seed * 1000,
            downloaded_bytes: seed * 10000,
        },
    }
}

#[test]
fn snapshot_starts_absent_and_replaces_wholesale() {
    let snapshot: SharedSnapshot<Stats> = SharedSnapshot::empty();
    assert_eq!(snapshot.read(), None);
    snapshot.replace(complete_value(1));
    assert_eq!(snapshot.read(), Some(complete_value(1)));
    // a later fetch replaces the whole value, last write wins
    snapshot.replace(complete_value(2));
    assert_eq!(snapshot.read(), Some(complete_value(2)));
}

#[test]
fn handles_share_one_slot() {
    let snapshot: SharedSnapshot<Stats> = SharedSnapshot::empty();
    let writer = snapshot.handle();
    writer.replace(complete_value(3));
    assert_eq!(snapshot.read(), Some(complete_value(3)));
}

#[test]
fn concurrent_reads_never_observe_a_torn_value() {
    let runtime = tokio::runtime::Builder::new_multi_thread()
        .worker_threads(2)
        .build()
        .unwrap();
    runtime.block_on(async {
        let snapshot: SharedSnapshot<Stats> = SharedSnapshot::empty();
        let writer = snapshot.handle();
        let task = tokio::task::spawn_blocking(move || {
            for i in 0..20000u32 {
                let seed: i64 = if i % 2 == 0 { 1 } else { 2 };
                writer.replace(complete_value(seed));
            }
        });
        let old_value = complete_value(1);
        let new_value = complete_value(2);
        for _ in 0..20000u32 {
            match snapshot.read() {
                None => {}
                Some(seen) => {
                    // a reader racing the writer sees one of the two
                    // complete values, never a mix of their fields
                    assert!(seen == old_value || seen == new_value);
                }
            }
        }
        task.await.unwrap();
    });
}
