use cdn::codec::compress_round_trip;
use cdn::compression::Compression;
use cdn::publish::publish;
use cdn::publish::publish_plan;
use cdn::publish::FileData;
use cdn::publish::PathState;
use cdn::publish::PublishError;
use cdn::publish::PublishPlan;
use cdn::worker::JobQueue;
use std::io::Read;

fn bytes(s: &str) -> Vec<u8> {
    s.as_bytes().to_vec()
}

fn repetitive(len: usize) -> Vec<u8> {
    let pattern = b"the quick brown fox jumps over the lazy dog; ";
    let mut v = Vec::new();
    while v.len() < len {
        v.push(pattern[v.len() % pattern.len()]);
    }
    v
}

fn all_kinds() -> Vec<Compression> {
    Compression::all_kinds()
}

#[test]
fn file_ext_values() {
    assert_eq!(Compression::Gzip.file_ext(), b".gz".to_vec());
    assert_eq!(Compression::Deflate.file_ext(), b".zz".to_vec());
    assert_eq!(Compression::Brotli.file_ext(), b".br".to_vec());
    assert_eq!(Compression::Zstd.file_ext(), b".zst".to_vec());
}

#[test]
fn add_ext_exact() {
    let p = bytes("index.html");
    assert_eq!(
        Compression::Gzip.add_ext_to_file(&p),
        bytes("index.html.gz")
    );
    assert_eq!(
        Compression::Zstd.add_ext_to_file(&p),
        bytes("index.html.zst")
    );
}

#[test]
fn artifact_paths_recognized() {
    let p = bytes("assets/app.css");
    for kind in all_kinds() {
        let artifact = kind.add_ext_to_file(&p);
        assert!(Compression::is_compressed_file_path(&artifact));
    }
    assert!(!Compression::is_compressed_file_path(&p));
    assert!(!Compression::is_compressed_file_path(&bytes("archive.zip")));
    assert!(Compression::is_compressed_file_path(&bytes("a.tar.gz")));
}

#[test]
fn round_trip_all_kinds() {
    let data = repetitive(5000);
    for kind in all_kinds() {
        let back = compress_round_trip(kind, &data);
        assert_eq!(back, data);
    }
}

#[test]
fn compress_is_not_identity() {
    let data = repetitive(5000);
    for kind in all_kinds() {
        let compressed = kind.compress(&data);
        assert_ne!(compressed, data);
        assert!(compressed.len() < data.len());
        let back = kind.decompress(&compressed).expect("decompression failed");
        assert_eq!(back, data);
    }
}

#[test]
fn gzip_output_checked_by_flate2_directly() {
    let data = repetitive(3000);
    let compressed = Compression::Gzip.compress(&data);
    let mut dec = flate2::read::GzDecoder::new(compressed.as_slice());
    let mut out = Vec::new();
    dec.read_to_end(&mut out).expect("not a gzip stream");
    assert_eq!(out, data);
}

#[test]
fn decompress_rejects_garbage() {
    let garbage = bytes("definitely not a gzip stream");
    assert!(Compression::Gzip.decompress(&garbage).is_none());
    assert!(Compression::Zstd.decompress(&garbage).is_none());
}

#[test]
fn plan_decisions() {
    let p = bytes("index.html");
    assert_eq!(
        publish_plan(false, &p, false, None, None),
        PublishPlan::RejectMissingSource
    );
    assert_eq!(
        publish_plan(true, &bytes("index.html.gz"), false, Some(5), None),
        PublishPlan::SkipArtifactSource
    );
    assert_eq!(
        publish_plan(true, &p, false, Some(5), None),
        PublishPlan::Generate { remove_stale: false }
    );
    assert_eq!(
        publish_plan(true, &p, true, Some(5), Some(6)),
        PublishPlan::SkipFresh
    );
    assert_eq!(
        publish_plan(true, &p, true, Some(5), Some(4)),
        PublishPlan::Generate { remove_stale: true }
    );
    // An unreadable timestamp cannot prove freshness.
    assert_eq!(
        publish_plan(true, &p, true, None, Some(6)),
        PublishPlan::Generate { remove_stale: true }
    );
    assert_eq!(
        publish_plan(true, &p, true, Some(5), None),
        PublishPlan::Generate { remove_stale: true }
    );
}

#[test]
fn source_missing_no_artifact() {
    let mut st = PathState {
        source: None,
        artifact: None,
        staging: None,
    };
    let r = publish(&mut st, &bytes("gone.txt"), Compression::Gzip, 10);
    assert_eq!(r, Err(PublishError::SourceMissing));
    assert!(st.artifact.is_none());
    assert!(st.staging.is_none());
}

#[test]
fn artifact_source_is_skipped() {
    let mut st = PathState {
        source: Some(FileData {
            content: repetitive(100),
            created: 5,
        }),
        artifact: None,
        staging: None,
    };
    let r = publish(&mut st, &bytes("index.html.gz"), Compression::Brotli, 10);
    assert_eq!(r, Ok(()));
    assert!(st.artifact.is_none());
}

#[test]
fn publish_generates_decodable_artifact() {
    let content = repetitive(20000);
    for kind in all_kinds() {
        let mut st = PathState {
            source: Some(FileData {
                content: content.clone(),
                created: 5,
            }),
            artifact: None,
            staging: None,
        };
        let r = publish(&mut st, &bytes("index.html"), kind, 10);
        assert_eq!(r, Ok(()));
        let artifact = st.artifact.as_ref().expect("no artifact generated");
        assert_eq!(artifact.created, 10);
        assert!(artifact.content.len() < content.len());
        let back = kind.decompress(&artifact.content).expect("artifact invalid");
        assert_eq!(back, content);
        assert!(st.staging.is_none());
    }
}

#[test]
fn publish_twice_single_generation() {
    let content = repetitive(4000);
    let p = bytes("index.html");
    let mut st = PathState {
        source: Some(FileData {
            content,
            created: 5,
        }),
        artifact: None,
        staging: None,
    };
    let r1 = publish(&mut st, &p, Compression::Gzip, 10);
    assert_eq!(r1, Ok(()));
    let first_content = st.artifact.as_ref().unwrap().content.clone();
    let first_created = st.artifact.as_ref().unwrap().created;
    assert_eq!(first_created, 10);

    let r2 = publish(&mut st, &p, Compression::Gzip, 20);
    assert_eq!(r2, Ok(()));
    // The second call was a no-op: same bytes, still the first creation time.
    assert_eq!(st.artifact.as_ref().unwrap().content, first_content);
    assert_eq!(st.artifact.as_ref().unwrap().created, first_created);
}

#[test]
fn stale_artifact_regenerated() {
    let current = repetitive(4000);
    let p = bytes("page.html");
    let mut st = PathState {
        source: Some(FileData {
            content: current.clone(),
            created: 8,
        }),
        // A leftover artifact that predates the source and does not match
        // its current content.
        artifact: Some(FileData {
            content: bytes("stale cached bytes"),
            created: 3,
        }),
        staging: None,
    };
    let r = publish(&mut st, &p, Compression::Zstd, 9);
    assert_eq!(r, Ok(()));
    let artifact = st.artifact.as_ref().unwrap();
    assert_eq!(artifact.created, 9);
    let back = Compression::Zstd.decompress(&artifact.content).expect("artifact invalid");
    assert_eq!(back, current);
}

#[test]
fn queue_fifo_order() {
    let mut q = JobQueue::new();
    let p = bytes("a.txt");
    q.on_read_complete(&p, true);
    assert_eq!(q.len(), 4);
    let expected = [
        Compression::Gzip,
        Compression::Deflate,
        Compression::Brotli,
        Compression::Zstd,
    ];
    for kind in expected {
        let job = q.pop_front().expect("queue drained early");
        assert_eq!(job.kind, kind);
        assert_eq!(job.path, p);
    }
    assert!(q.pop_front().is_none());
}

#[test]
fn scenario_served_index_html() {
    // index.html holds 20 000 bytes of repetitive text; a successful
    // request enqueues four jobs; after the worker drains the queue every
    // kind's artifact exists, is smaller, and decodes to the original.
    let content = repetitive(20000);
    let p = bytes("index.html");
    let mut q = JobQueue::new();
    q.on_read_complete(&p, true);
    assert_eq!(q.len(), 4);

    let mut results = Vec::new();
    while let Some(job) = q.pop_front() {
        let mut st = PathState {
            source: Some(FileData {
                content: content.clone(),
                created: 5,
            }),
            artifact: None,
            staging: None,
        };
        let r = publish(&mut st, &job.path, job.kind, 10);
        assert_eq!(r, Ok(()));
        results.push((job.kind, st));
    }
    assert_eq!(results.len(), 4);
    for (kind, st) in &results {
        let artifact = st.artifact.as_ref().expect("artifact missing");
        assert!(artifact.content.len() < 20000);
        let back = kind.decompress(&artifact.content).expect("artifact invalid");
        assert_eq!(back, content);
    }
}

#[test]
fn scenario_missing_path_enqueues_nothing() {
    // A request for a path that does not exist fails; the hook enqueues no
    // jobs, so the worker runs no publish and no artifact appears.
    let mut q = JobQueue::new();
    q.on_read_complete(&bytes("no/such/file"), false);
    assert_eq!(q.len(), 0);
    assert!(q.pop_front().is_none());
}

#[test]
fn scenario_two_requests_one_artifact() {
    // Two requests for the same path land before any artifact exists. All
    // eight jobs funnel through the one worker, which runs them one at a
    // time: the first job per kind generates, the duplicate is a no-op, and
    // exactly one well-formed artifact per kind remains.
    let content = repetitive(6000);
    let p = bytes("hot.html");
    let mut q = JobQueue::new();
    q.on_read_complete(&p, true);
    q.on_read_complete(&p, true);
    assert_eq!(q.len(), 8);

    let mut states: Vec<(Compression, PathState)> = all_kinds()
        .into_iter()
        .map(|kind| {
            (
                kind,
                PathState {
                    source: Some(FileData {
                        content: content.clone(),
                        created: 5,
                    }),
                    artifact: None,
                    staging: None,
                },
            )
        })
        .collect();

    let mut now = 10;
    let mut first_generation: Vec<(Compression, Vec<u8>, u64)> = Vec::new();
    while let Some(job) = q.pop_front() {
        let entry = states
            .iter_mut()
            .find(|(kind, _)| *kind == job.kind)
            .expect("unknown kind");
        let r = publish(&mut entry.1, &job.path, job.kind, now);
        assert_eq!(r, Ok(()));
        let artifact = entry.1.artifact.as_ref().unwrap();
        if first_generation.iter().all(|(kind, _, _)| *kind != job.kind) {
            first_generation.push((job.kind, artifact.content.clone(), artifact.created));
        }
        now += 1;
    }

    for (kind, st) in &states {
        let artifact = st.artifact.as_ref().expect("artifact missing");
        let (_, first_content, first_created) = first_generation
            .iter()
            .find(|(k, _, _)| k == kind)
            .unwrap();
        // The duplicate job changed nothing: the artifact is still the one
        // the first job generated, and it is well formed.
        assert_eq!(&artifact.content, first_content);
        assert_eq!(artifact.created, *first_created);
        let back = kind.decompress(&artifact.content).expect("artifact invalid");
        assert_eq!(back, content);
    }
}
