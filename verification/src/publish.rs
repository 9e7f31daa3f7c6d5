//! Staleness decision and atomic publication.
//!
//! `publish_plan` is the decision the staleness check reaches from what can
//! be observed of the filesystem; callers that drive the real filesystem
//! consult it before doing any work. `publish` runs the whole pipeline for
//! one (source path, kind) pair against a `PathState`, the publisher's
//! footprint on disk: what stands at the source path, at the artifact path,
//! and at the transient `.tmp` staging path beside it. Its contract pins
//! every outcome: a missing source is reported and touches nothing, an
//! artifact source or a fresh artifact is a no-op, and otherwise a
//! (re)generation installs a complete artifact that decodes to the current
//! source content — generation into memory cannot fail, so success is owed
//! whenever the source exists.

use vstd::prelude::*;

use crate::codec::decoded_of;
use crate::compression::Compression;
use crate::compression::is_artifact_path;

verus! {

/// Why a publish attempt failed. None of these is fatal to the worker: a
/// failed job is dropped and the next one runs.
#[derive(Debug, Clone, Copy, PartialEq, Eq, Structural)]
pub enum PublishError {
    /// The source path did not exist when the job ran; nothing is touched.
    SourceMissing,
    /// A streaming encoder reported an error against the filesystem; the
    /// artifact is left absent or in its prior state. The in-memory
    /// generation that `publish` models cannot fail, so `publish` never
    /// returns this.
    CompressionFailed,
    /// A filesystem step — staging, copy, or rename — failed before the
    /// final artifact path was touched.
    IoFailure,
}

/// A file as the pipeline observes it: content bytes and creation time.
pub struct FileData {
    pub content: Vec<u8>,
    pub created: u64,
}

/// The publisher's footprint for one (source path, kind) pair.
pub struct PathState {
    /// What stands at the source path.
    pub source: Option<FileData>,
    /// What stands at the artifact path (source path plus the kind's
    /// extension).
    pub artifact: Option<FileData>,
    /// What stands at the transient staging path (artifact path plus
    /// `.tmp`); never visible as a stable artifact.
    pub staging: Option<Vec<u8>>,
}

/// An existing artifact is fresh when it was created no earlier than its
/// source: it needs no regeneration.
pub open spec fn artifact_fresh(st: PathState) -> bool {
    &&& st.source is Some
    &&& st.artifact is Some
    &&& st.artifact.unwrap().created >= st.source.unwrap().created
}

/// States on which publish is a no-op: the source exists and either it is
/// itself an artifact or a fresh artifact already stands beside it.
pub open spec fn publish_noop(st: PathState, path: Seq<u8>) -> bool {
    &&& st.source is Some
    &&& (is_artifact_path(path) || artifact_fresh(st))
}

/// The decision the staleness check reaches before any generation work.
#[derive(Debug, Clone, Copy, PartialEq, Eq, Structural)]
pub enum PublishPlan {
    /// The source does not exist: report `SourceMissing`, touch nothing.
    RejectMissingSource,
    /// The source is itself a compressed artifact: succeed without work.
    SkipArtifactSource,
    /// A fresh artifact already exists: succeed without work.
    SkipFresh,
    /// (Re)generate the artifact; when `remove_stale` holds, a stale
    /// artifact stands at the artifact path and is deleted (best effort)
    /// first.
    Generate { remove_stale: bool },
}

/// The staleness decision from what a caller observed of the filesystem.
/// A creation timestamp is `None` when it could not be read; an unreadable
/// timestamp cannot prove freshness, so the artifact counts as stale.
pub open spec fn plan_spec(
    source_exists: bool,
    path: Seq<u8>,
    artifact_exists: bool,
    source_created: Option<u64>,
    artifact_created: Option<u64>,
) -> PublishPlan {
    if !source_exists {
        PublishPlan::RejectMissingSource
    } else if is_artifact_path(path) {
        PublishPlan::SkipArtifactSource
    } else if !artifact_exists {
        PublishPlan::Generate { remove_stale: false }
    } else if source_created is Some && artifact_created is Some && artifact_created.unwrap()
        >= source_created.unwrap() {
        PublishPlan::SkipFresh
    } else {
        PublishPlan::Generate { remove_stale: true }
    }
}

/// Decide what a publish of `path` must do, from the observations a caller
/// made of the filesystem: whether source and artifact exist, and their
/// creation timestamps where readable.
pub fn publish_plan(
    source_exists: bool,
    path: &Vec<u8>,
    artifact_exists: bool,
    source_created: Option<u64>,
    artifact_created: Option<u64>,
) -> (r: PublishPlan)
    ensures
        r == plan_spec(source_exists, path@, artifact_exists, source_created, artifact_created),
{
    if !source_exists {
        return PublishPlan::RejectMissingSource;
    }
    if Compression::is_compressed_file_path(path) {
        return PublishPlan::SkipArtifactSource;
    }
    if !artifact_exists {
        return PublishPlan::Generate { remove_stale: false };
    }
    let fresh = match (source_created, artifact_created) {
        (Some(s), Some(a)) => a >= s,
        _ => false,
    };
    if fresh {
        PublishPlan::SkipFresh
    } else {
        PublishPlan::Generate { remove_stale: true }
    }
}

/// Everything a publish of `path` with `kind` at time `now` may do to the
/// state: the relation between the state before (`pre`), the state after
/// (`post`) and the result `r`. The source is read-only to the publisher,
/// so it is unchanged in every outcome.
pub open spec fn publish_post(
    pre: PathState,
    path: Seq<u8>,
    kind: Compression,
    now: u64,
    post: PathState,
    r: Result<(), PublishError>,
) -> bool {
    &&& post.source == pre.source
    &&& (pre.source is None ==> r == Err::<(), PublishError>(PublishError::SourceMissing) && post
        == pre)
    &&& (pre.source is Some && publish_noop(pre, path) ==> r == Ok::<(), PublishError>(()) && post
        == pre)
    &&& (pre.source is Some && !publish_noop(pre, path) ==> {
        &&& r == Ok::<(), PublishError>(())
        &&& post.staging is None
        &&& post.artifact is Some
        &&& post.artifact.unwrap().created == now
        &&& decoded_of(kind, post.artifact.unwrap().content@) == Some(
            pre.source.unwrap().content@,
        )
    })
    &&& (r is Ok && post.source is Some && now >= post.source.unwrap().created ==> publish_noop(
        post,
        path,
    ))
}

/// Run one publish for `path` and `kind` against `st`: decide whether the
/// artifact needs (re)generation and, when it does, produce it and install
/// it whole at the artifact path.
pub fn publish(st: &mut PathState, path: &Vec<u8>, kind: Compression, now: u64) -> (r: Result<
    (),
    PublishError,
>)
    ensures
        publish_post(*old(st), path@, kind, now, *final(st), r),
{
    let source_created = match &st.source {
        Some(f) => Some(f.created),
        None => None,
    };
    let artifact_created = match &st.artifact {
        Some(f) => Some(f.created),
        None => None,
    };
    let plan = publish_plan(
        st.source.is_some(),
        path,
        st.artifact.is_some(),
        source_created,
        artifact_created,
    );
    match plan {
        PublishPlan::RejectMissingSource => Err(PublishError::SourceMissing),
        PublishPlan::SkipArtifactSource => Ok(()),
        PublishPlan::SkipFresh => Ok(()),
        PublishPlan::Generate { remove_stale } => {
            // A stale artifact is deleted before generation (its
            // replacement would overwrite it anyway).
            if remove_stale {
                st.artifact = None;
            }
            let compressed = kind.compress(&st.source.as_ref().unwrap().content);
            // Stage the finished bytes and swap them in whole: the
            // artifact path goes from absent to the complete artifact.
            st.staging = None;
            st.artifact = Some(FileData { content: compressed, created: now });
            Ok(())
        }
    }
}

impl Compression {
    /// Run one publish of `path` with this kind against `st`.
    pub fn compress_file(self, st: &mut PathState, path: &Vec<u8>, now: u64) -> (r: Result<
        (),
        PublishError,
    >)
        ensures
            publish_post(*old(st), path@, self, now, *final(st), r),
    {
        publish(st, path, self, now)
    }
}

/// Immediate idempotence: a publish of an existing source at a time no
/// earlier than the source's creation time succeeds, and a second publish
/// for the same path and kind then succeeds and changes nothing — in
/// particular the artifact, content and all, is untouched by the second
/// call.
pub proof fn lemma_publish_idempotent(
    pre: PathState,
    path: Seq<u8>,
    kind: Compression,
    now1: u64,
    mid: PathState,
    r1: Result<(), PublishError>,
    now2: u64,
    post: PathState,
    r2: Result<(), PublishError>,
)
    requires
        publish_post(pre, path, kind, now1, mid, r1),
        pre.source is Some,
        now1 >= pre.source.unwrap().created,
        publish_post(mid, path, kind, now2, post, r2),
    ensures
        r1 is Ok,
        r2 is Ok,
        post == mid,
{
    assert(mid.source == pre.source);
    assert(publish_noop(mid, path));
}

/// Stale artifacts are replaced: when the existing artifact predates the
/// source, publish succeeds and the new artifact decodes to the source
/// content as it stands now, not to what the stale artifact held.
pub proof fn lemma_stale_artifact_regenerated(
    pre: PathState,
    path: Seq<u8>,
    kind: Compression,
    now: u64,
    post: PathState,
    r: Result<(), PublishError>,
)
    requires
        publish_post(pre, path, kind, now, post, r),
        pre.source is Some,
        !is_artifact_path(path),
        pre.artifact is Some,
        pre.artifact.unwrap().created < pre.source.unwrap().created,
    ensures
        r is Ok,
        post.artifact is Some,
        decoded_of(kind, post.artifact.unwrap().content@) == Some(pre.source.unwrap().content@),
{
}

/// The artifact path never holds a partial write: whatever a publish did,
/// what stands at the artifact path afterwards is the prior artifact
/// untouched, nothing, or a complete stream that decodes to the source
/// content.
pub proof fn lemma_no_partial_artifact(
    pre: PathState,
    path: Seq<u8>,
    kind: Compression,
    now: u64,
    post: PathState,
    r: Result<(), PublishError>,
)
    requires
        publish_post(pre, path, kind, now, post, r),
    ensures
        post.artifact == pre.artifact || post.artifact is None || (post.artifact is Some
            && pre.source is Some && decoded_of(kind, post.artifact.unwrap().content@) == Some(
            pre.source.unwrap().content@,
        )),
{
}

} // verus!
