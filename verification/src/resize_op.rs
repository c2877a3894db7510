//! The on-demand resize pipeline, as a verified state machine.
//!
//! All file work is left to the embedding program: the machine hands out
//! one `ResizeAction` at a time, the program performs it and answers with
//! the matching `ResizeEvent`, and the machine decides the next step. The
//! size lookup walks the two cache tiers — memory, then sidecar file,
//! then a real decode — and each lower-tier hit populates the tiers above
//! it. The artifact is reused when it already exists; otherwise it is
//! resampled and encoded here (in memory) and handed out for writing, or,
//! when no resampling is needed, copied byte for byte.
//!
//! A mismatched event, a source that does not decode, a rejected size
//! request, or a failed write all end the operation as `Failed`: the
//! caller degrades to "not found" for that one request.

use vstd::prelude::*;
use vstd::string::StringExecFns;

use crate::digits::dec_str;
use crate::digits::u32_to_dec;
use crate::imaging::image_size_of;
use crate::imaging::resized_png_of;
use crate::paths::file_name_spec;
use crate::paths::join_spec;
use crate::paths::replace_extension_spec;
use crate::resizer::required_size_spec;
use crate::resizer::sidecar_path_spec;
use crate::resizer::ResizeMode;
use crate::resizer::Resizer;
use crate::resizer::Size;
use crate::sidecar::parse_sidecar_spec;
use crate::sidecar::sidecar_json_spec;

verus! {

/// A finished resize: where the artifact lives, the URL to serve it
/// under, and its pixel size.
pub struct ResizeResult {
    pub path: String,
    pub relative_url: String,
    pub size: Size,
}

/// One piece of file work the machine asks the embedding program for.
pub enum ResizeAction {
    /// Read the sidecar file; answer with `SidecarLoaded`.
    ReadSidecar { path: String },
    /// Read the source image file; answer with `SourceLoaded`.
    ReadSource { path: String },
    /// Write the sidecar file, ignoring failure; answer with
    /// `SidecarWritten`.
    WriteSidecar { path: String, contents: String },
    /// Test whether the artifact exists; answer with `ArtifactChecked`.
    CheckArtifact { path: String },
    /// Write the artifact bytes; answer with `ArtifactWritten`.
    WriteArtifact { path: String, bytes: Vec<u8> },
    /// Copy the source to the artifact path; answer with
    /// `ArtifactWritten`.
    CopyArtifact { from: String, to: String },
}

/// The embedding program's answer to the last action.
pub enum ResizeEvent {
    SidecarLoaded(Option<String>),
    SourceLoaded(Option<Vec<u8>>),
    SidecarWritten,
    ArtifactChecked(bool),
    ArtifactWritten(bool),
}

/// What the machine says after each step.
pub enum ResizeStatus {
    /// Perform this action and step again with its event.
    Continue(ResizeAction),
    /// The artifact is ready.
    Done(ResizeResult),
    /// The request degrades to "not found".
    Failed,
}

/// The target settled on for one request: its size, the artifact's name
/// and path, and whether the source must be resampled (rather than
/// copied).
pub struct ArtifactPlan {
    pub required: Size,
    pub cached_name: String,
    pub cached_path: String,
    pub needs_resize: bool,
}

/// Where an in-flight operation stands.
pub enum OpState {
    /// Asked for the sidecar file.
    AwaitSidecar,
    /// Asked for the source bytes, to learn the original size.
    AwaitSourceSize,
    /// Asked for the sidecar to be written after a fresh decode; the
    /// source bytes are kept so no second read or decode is needed.
    AwaitSidecarWrite { original: Size, held: Vec<u8> },
    /// Asked whether the artifact already exists.
    AwaitArtifact { original: Size, source: Option<Vec<u8>>, plan: ArtifactPlan },
    /// The artifact is missing and resampling is needed, but the source
    /// bytes were not in hand; asked for them.
    AwaitSourceForResize { original: Size, plan: ArtifactPlan },
    /// Asked for the artifact to be written.
    AwaitWrite { plan: ArtifactPlan },
    /// Done or failed; no further event is expected.
    Finished,
}

/// One in-flight resize request.
pub struct ResizeOp {
    pub url: String,
    pub mode: ResizeMode,
    pub source_path: String,
    pub sidecar_path: String,
    pub state: OpState,
}

/// The artifact extension for a resampled target: `WxH.png`.
pub open spec fn size_ext_spec(s: Size) -> Seq<char> {
    dec_str(s.w as nat) + "x"@ + dec_str(s.h as nat) + ".png"@
}

/// Whether `name` carries an extension that can be reused: a dot after
/// its first character.
pub open spec fn has_extension_spec(name: Seq<char>) -> bool {
    match name.index_of_last('.') {
        Some(i) => i > 0,
        None => false,
    }
}

/// The plan for resizing an original of size `original` under `mode`:
/// the target size, the artifact name, and whether to resample.
///
/// An unresized artifact keeps the source's name (and so its extension);
/// a resampled one gets the `WxH.png` extension. `None` — the request is
/// refused — when the size request itself is rejected, when a reusable
/// extension is missing, or when resampling to an empty size.
pub open spec fn plan_spec(url: Seq<char>, original: Size, mode: ResizeMode) -> Option<
    (Size, Seq<char>, bool),
> {
    match required_size_spec(original, mode) {
        Some(required) => if required == original {
            if has_extension_spec(file_name_spec(url)) {
                Some((required, file_name_spec(url), false))
            } else {
                None
            }
        } else {
            if required.w == 0 || required.h == 0 {
                None
            } else {
                Some(
                    (
                        required,
                        replace_extension_spec(file_name_spec(url), size_ext_spec(required)),
                        true,
                    ),
                )
            }
        },
        None => None,
    }
}

/// Whether `plan` is the plan for `url`, `cache_dir`, `original` and
/// `mode`.
pub open spec fn plan_matches(
    plan: ArtifactPlan,
    url: Seq<char>,
    cache_dir: Seq<char>,
    original: Size,
    mode: ResizeMode,
) -> bool {
    match plan_spec(url, original, mode) {
        Some(p) => {
            &&& plan.required == p.0
            &&& plan.cached_name@ == p.1
            &&& plan.cached_path@ == join_spec(cache_dir, p.1)
            &&& plan.needs_resize == p.2
        },
        None => false,
    }
}

/// Build the plan for one request, or `None` when `plan_spec` refuses it.
fn make_plan(url: &str, cache_dir: &str, original: Size, mode: &ResizeMode) -> (r: Option<
    ArtifactPlan,
>)
    ensures
        match r {
            Some(plan) => plan_matches(plan, url@, cache_dir@, original, *mode),
            None => plan_spec(url@, original, *mode) is None,
        },
{
    let required: Size = match crate::resizer::get_required_size(original, mode) {
        Ok(s) => s,
        Err(()) => {
            return None;
        },
    };
    let name: String = crate::paths::file_name(url);
    if required == original {
        let has_ext: bool = match crate::strutil::last_index_of(name.as_str(), '.') {
            Some(i) => i > 0,
            None => false,
        };
        if !has_ext {
            return None;
        }
        let cached_path: String = crate::paths::join(cache_dir, name.as_str());
        Some(ArtifactPlan { required, cached_name: name, cached_path, needs_resize: false })
    } else {
        if required.w == 0 || required.h == 0 {
            return None;
        }
        let mut ext: String = u32_to_dec(required.w);
        ext.append("x");
        let hs: String = u32_to_dec(required.h);
        ext.append(hs.as_str());
        ext.append(".png");
        let cached_name: String = crate::paths::replace_extension(name.as_str(), ext.as_str());
        let cached_path: String = crate::paths::join(cache_dir, cached_name.as_str());
        Some(ArtifactPlan { required, cached_name, cached_path, needs_resize: true })
    }
}

/// What holds after the original size is settled (from whichever tier):
/// the plan is computed; with a plan the machine asks whether the
/// artifact exists, keeping whatever source bytes are in hand; without
/// one the request fails.
pub open spec fn size_known_post(
    op: ResizeOp,
    size: Size,
    source: Option<Seq<u8>>,
    new_op: ResizeOp,
    status: ResizeStatus,
    cache_dir: Seq<char>,
) -> bool {
    match plan_spec(op.url@, size, op.mode) {
        Some(_) => new_op.state matches OpState::AwaitArtifact { original, source: src, plan }
            && original == size && plan_matches(plan, op.url@, cache_dir, size, op.mode) && (match (
            src,
            source,
        ) {
            (Some(v), Some(sv)) => v@ == sv,
            (None, None) => true,
            _ => false,
        }) && (status matches ResizeStatus::Continue(ResizeAction::CheckArtifact { path })
            && path@ == plan.cached_path@),
        None => new_op.state is Finished && status is Failed,
    }
}

/// What holds after the artifact was found missing and the source bytes
/// are in hand: the resampled PNG is computed here, and its write is
/// requested; a target the encoder refuses fails the request.
pub open spec fn resample_post(
    bytes: Seq<u8>,
    plan: ArtifactPlan,
    new_op: ResizeOp,
    status: ResizeStatus,
) -> bool {
    if plan.required.w == 0 || plan.required.h == 0 {
        new_op.state is Finished && status is Failed
    } else {
        match resized_png_of(bytes, plan.required.w, plan.required.h) {
            Some(png) => new_op.state matches OpState::AwaitWrite { plan: p } && p == plan && (
            status matches ResizeStatus::Continue(ResizeAction::WriteArtifact { path, bytes: out })
                && path@ == plan.cached_path@ && out@ == png),
            None => new_op.state is Finished && status is Failed,
        }
    }
}

/// The finished result for `plan`.
pub open spec fn done_status(plan: ArtifactPlan, status: ResizeStatus) -> bool {
    status matches ResizeStatus::Done(res) && res.path@ == plan.cached_path@ && res.relative_url@
        == plan.cached_name@ && res.size == plan.required
}

/// The whole step relation: given the size cache before (`pre`) and
/// after (`post`), what the machine does for each state and event. Any
/// pair not listed is a protocol breach and fails the request.
pub open spec fn step_post(
    pre: Map<Seq<char>, Size>,
    post: Map<Seq<char>, Size>,
    op: ResizeOp,
    event: ResizeEvent,
    new_op: ResizeOp,
    status: ResizeStatus,
    cache_dir: Seq<char>,
) -> bool {
    match (op.state, event) {
        (OpState::AwaitSidecar, ResizeEvent::SidecarLoaded(loaded)) => match loaded {
            Some(contents) => match parse_sidecar_spec(contents@) {
                Some(size) => post =~= pre.insert(op.source_path@, size) && size_known_post(
                    op,
                    size,
                    None,
                    new_op,
                    status,
                    cache_dir,
                ),
                None => post =~= pre && new_op.state is AwaitSourceSize && (
                status matches ResizeStatus::Continue(ResizeAction::ReadSource { path }) && path@
                    == op.source_path@),
            },
            None => post =~= pre && new_op.state is AwaitSourceSize && (
            status matches ResizeStatus::Continue(ResizeAction::ReadSource { path }) && path@
                == op.source_path@),
        },
        (OpState::AwaitSourceSize, ResizeEvent::SourceLoaded(loaded)) => match loaded {
            Some(bytes) => match image_size_of(bytes@) {
                Some(dims) => {
                    let size = Size { w: dims.0, h: dims.1 };
                    &&& post =~= pre.insert(op.source_path@, size)
                    &&& new_op.state matches OpState::AwaitSidecarWrite { original, held }
                        && original == size && held@ == bytes@
                    &&& status matches ResizeStatus::Continue(
                        ResizeAction::WriteSidecar { path, contents },
                    ) && path@ == op.sidecar_path@ && contents@ == sidecar_json_spec(size)
                },
                None => post =~= pre && new_op.state is Finished && status is Failed,
            },
            None => post =~= pre && new_op.state is Finished && status is Failed,
        },
        (
            OpState::AwaitSidecarWrite { original, held },
            ResizeEvent::SidecarWritten,
        ) => post =~= pre && size_known_post(op, original, Some(held@), new_op, status, cache_dir),
        (
            OpState::AwaitArtifact { original, source, plan },
            ResizeEvent::ArtifactChecked(exists),
        ) => post =~= pre && if exists {
            new_op.state is Finished && done_status(plan, status)
        } else {
            if plan.needs_resize {
                match source {
                    Some(bytes) => resample_post(bytes@, plan, new_op, status),
                    None => new_op.state matches OpState::AwaitSourceForResize {
                        original: o,
                        plan: p,
                    } && o == original && p == plan && (status matches ResizeStatus::Continue(
                        ResizeAction::ReadSource { path },
                    ) && path@ == op.source_path@),
                }
            } else {
                new_op.state matches OpState::AwaitWrite { plan: p } && p == plan && (
                status matches ResizeStatus::Continue(ResizeAction::CopyArtifact { from, to })
                    && from@ == op.source_path@ && to@ == plan.cached_path@)
            }
        },
        (
            OpState::AwaitSourceForResize { original, plan },
            ResizeEvent::SourceLoaded(loaded),
        ) => post =~= pre && match loaded {
            Some(bytes) => resample_post(bytes@, plan, new_op, status),
            None => new_op.state is Finished && status is Failed,
        },
        (OpState::AwaitWrite { plan }, ResizeEvent::ArtifactWritten(okay)) => post =~= pre
            && if okay {
            new_op.state is Finished && done_status(plan, status)
        } else {
            new_op.state is Finished && status is Failed
        },
        _ => post =~= pre && new_op.state is Finished && status is Failed,
    }
}

/// An operation that carries a plan carries the plan for its own url
/// and mode: what `start_resize` creates and every step preserves.
pub open spec fn op_inv(op: ResizeOp, cache_dir: Seq<char>) -> bool {
    match op.state {
        OpState::AwaitArtifact { original, source: _, plan } => plan_matches(
            plan,
            op.url@,
            cache_dir,
            original,
            op.mode,
        ),
        OpState::AwaitSourceForResize { original, plan } => plan_matches(
            plan,
            op.url@,
            cache_dir,
            original,
            op.mode,
        ),
        OpState::AwaitWrite { plan } => exists|o: Size|
            #[trigger] plan_matches(plan, op.url@, cache_dir, o, op.mode),
        _ => true,
    }
}

/// A finished status hands back exactly an artifact that `plan_spec`
/// produced for the request's url and mode, sitting in the cache
/// directory.
pub open spec fn done_is_planned(op: ResizeOp, status: ResizeStatus, cache_dir: Seq<char>) -> bool {
    match status {
        ResizeStatus::Done(res) => exists|o: Size|
            {
                &&& #[trigger] plan_spec(op.url@, o, op.mode) matches Some(p)
                &&& res.size == p.0
                &&& res.relative_url@ == p.1
                &&& res.path@ == join_spec(cache_dir, p.1)
            },
        _ => true,
    }
}

/// The machine can only finish with a planned artifact: every step
/// keeps the operation conforming to its plan, and whenever a step says
/// `Done`, the result is one `plan_spec` produced for the request's url
/// and mode.
pub proof fn lemma_step_stays_planned(
    pre: Map<Seq<char>, Size>,
    post: Map<Seq<char>, Size>,
    op: ResizeOp,
    event: ResizeEvent,
    new_op: ResizeOp,
    status: ResizeStatus,
    cache_dir: Seq<char>,
)
    requires
        op_inv(op, cache_dir),
        step_post(pre, post, op, event, new_op, status, cache_dir),
        new_op.url@ == op.url@,
        new_op.mode == op.mode,
    ensures
        op_inv(new_op, cache_dir),
        done_is_planned(op, status, cache_dir),
{
    match (op.state, event) {
        (
            OpState::AwaitArtifact { original, source: _, plan },
            ResizeEvent::ArtifactChecked(exists_already),
        ) => {
            assert(plan_matches(plan, op.url@, cache_dir, original, op.mode));
            if exists_already {
                assert(done_is_planned(op, status, cache_dir));
            }
        },
        (
            OpState::AwaitSourceForResize { original, plan },
            ResizeEvent::SourceLoaded(_),
        ) => {
            assert(plan_matches(plan, op.url@, cache_dir, original, op.mode));
        },
        (OpState::AwaitWrite { plan }, ResizeEvent::ArtifactWritten(okay)) => {
            if okay {
                let o = choose|o: Size|
                    #[trigger] plan_matches(plan, op.url@, cache_dir, o, op.mode);
                assert(plan_spec(op.url@, o, op.mode) is Some);
                assert(done_is_planned(op, status, cache_dir));
            }
        },
        _ => {},
    }
}

/// Resampling is deterministic: two steps over the same source bytes
/// and the same target size either both fail, or write byte-identical
/// artifacts. Repeating a resize of one (source, mode) pair can
/// therefore never produce a different artifact.
pub proof fn lemma_resample_deterministic(
    bytes1: Seq<u8>,
    bytes2: Seq<u8>,
    plan1: ArtifactPlan,
    plan2: ArtifactPlan,
    op1: ResizeOp,
    op2: ResizeOp,
    st1: ResizeStatus,
    st2: ResizeStatus,
)
    requires
        bytes1 == bytes2,
        plan1.required == plan2.required,
        resample_post(bytes1, plan1, op1, st1),
        resample_post(bytes2, plan2, op2, st2),
    ensures
        st1 is Failed <==> st2 is Failed,
        match (st1, st2) {
            (ResizeStatus::Continue(a1), ResizeStatus::Continue(a2)) => a1
                matches ResizeAction::WriteArtifact { bytes: b1, .. } && a2
                matches ResizeAction::WriteArtifact { bytes: b2, .. } && b1@ == b2@,
            _ => true,
        },
{
}

/// Once the artifact exists, the machine finishes at the existence
/// check: it answers `Done` with the planned artifact, asks for nothing
/// more — in particular it never asks for the source to be read or
/// decoded — and leaves the size cache untouched.
pub proof fn lemma_existing_artifact_short_circuits(
    pre: Map<Seq<char>, Size>,
    post: Map<Seq<char>, Size>,
    op: ResizeOp,
    new_op: ResizeOp,
    status: ResizeStatus,
    cache_dir: Seq<char>,
)
    requires
        op.state matches OpState::AwaitArtifact { .. },
        step_post(pre, post, op, ResizeEvent::ArtifactChecked(true), new_op, status, cache_dir),
    ensures
        post =~= pre,
        new_op.state is Finished,
        op.state matches OpState::AwaitArtifact { original, source, plan } && done_status(
            plan,
            status,
        ),
{
}

impl Resizer {
    /// Begin resizing the source under `url` (relative to the root) to
    /// `mode`.
    ///
    /// With the size already in memory the machine goes straight to the
    /// artifact check (or fails on a refused plan); otherwise it first
    /// asks for the sidecar file.
    pub fn start_resize(&self, url: &str, mode: ResizeMode) -> (r: (ResizeOp, ResizeStatus))
        requires
            self.wf(),
        ensures
            r.0.url@ == url@,
            r.0.mode == mode,
            r.0.source_path@ == join_spec(self.spec_root(), url@),
            r.0.sidecar_path@ == sidecar_path_spec(
                self.spec_cache_dir(),
                join_spec(self.spec_root(), url@),
            ),
            if self.spec_sizes().contains_key(join_spec(self.spec_root(), url@)) {
                size_known_post(
                    r.0,
                    self.spec_sizes()[join_spec(self.spec_root(), url@)],
                    None,
                    r.0,
                    r.1,
                    self.spec_cache_dir(),
                )
            } else {
                r.0.state is AwaitSidecar && (r.1 matches ResizeStatus::Continue(
                    ResizeAction::ReadSidecar { path },
                ) && path@ == r.0.sidecar_path@)
            },
            op_inv(r.0, self.spec_cache_dir()),
    {
        let source_path: String = crate::paths::join(self.root_path_str(), url);
        let sidecar_path: String = self.get_filecache_path(source_path.as_str());
        match self.get_memcached_size(source_path.as_str()) {
            Some(size) => {
                match make_plan(url, self.cache_dir_str(), size, &mode) {
                    Some(plan) => {
                        let check = ResizeAction::CheckArtifact { path: plan.cached_path.clone() };
                        let op = ResizeOp {
                            url: url.to_owned(),
                            mode,
                            source_path,
                            sidecar_path,
                            state: OpState::AwaitArtifact { original: size, source: None, plan },
                        };
                        (op, ResizeStatus::Continue(check))
                    },
                    None => {
                        let op = ResizeOp {
                            url: url.to_owned(),
                            mode,
                            source_path,
                            sidecar_path,
                            state: OpState::Finished,
                        };
                        (op, ResizeStatus::Failed)
                    },
                }
            },
            None => {
                let read = ResizeAction::ReadSidecar { path: sidecar_path.clone() };
                let op = ResizeOp {
                    url: url.to_owned(),
                    mode,
                    source_path,
                    sidecar_path,
                    state: OpState::AwaitSidecar,
                };
                (op, ResizeStatus::Continue(read))
            },
        }
    }

    /// Feed the machine the answer to its last action and get the next
    /// status. The step relation `step_post` says exactly what happens
    /// for every state and event.
    pub fn resize_step(&mut self, op: ResizeOp, event: ResizeEvent) -> (r: (
        ResizeOp,
        ResizeStatus,
    ))
        requires
            old(self).wf(),
        ensures
            final(self).wf(),
            final(self).spec_root() == old(self).spec_root(),
            final(self).spec_cache_dir() == old(self).spec_cache_dir(),
            r.0.url@ == op.url@,
            r.0.mode == op.mode,
            r.0.source_path@ == op.source_path@,
            r.0.sidecar_path@ == op.sidecar_path@,
            step_post(
                old(self).spec_sizes(),
                final(self).spec_sizes(),
                op,
                event,
                r.0,
                r.1,
                old(self).spec_cache_dir(),
            ),
    {
        let ResizeOp { url, mode, source_path, sidecar_path, state } = op;
        match (state, event) {
            (OpState::AwaitSidecar, ResizeEvent::SidecarLoaded(Some(contents))) => {
                match crate::sidecar::parse_size(contents.as_str()) {
                    Some(size) => {
                        self.set_memcached_size(source_path.as_str(), Some(size));
                        self.size_known(url, mode, source_path, sidecar_path, size, None)
                    },
                    None => {
                        let read = ResizeAction::ReadSource { path: source_path.clone() };
                        let op2 = ResizeOp {
                            url,
                            mode,
                            source_path,
                            sidecar_path,
                            state: OpState::AwaitSourceSize,
                        };
                        (op2, ResizeStatus::Continue(read))
                    },
                }
            },
            (OpState::AwaitSidecar, ResizeEvent::SidecarLoaded(None)) => {
                let read = ResizeAction::ReadSource { path: source_path.clone() };
                let op2 = ResizeOp {
                    url,
                    mode,
                    source_path,
                    sidecar_path,
                    state: OpState::AwaitSourceSize,
                };
                (op2, ResizeStatus::Continue(read))
            },
            (OpState::AwaitSourceSize, ResizeEvent::SourceLoaded(Some(bytes))) => {
                match crate::imaging::image_dims(&bytes) {
                    Some(dims) => {
                        let size = Size { w: dims.0, h: dims.1 };
                        self.set_memcached_size(source_path.as_str(), Some(size));
                        let contents: String = crate::sidecar::serialize_size(size);
                        let write = ResizeAction::WriteSidecar {
                            path: sidecar_path.clone(),
                            contents,
                        };
                        let op2 = ResizeOp {
                            url,
                            mode,
                            source_path,
                            sidecar_path,
                            state: OpState::AwaitSidecarWrite { original: size, held: bytes },
                        };
                        (op2, ResizeStatus::Continue(write))
                    },
                    None => Self::fail(url, mode, source_path, sidecar_path),
                }
            },
            (OpState::AwaitSidecarWrite { original, held }, ResizeEvent::SidecarWritten) => {
                self.size_known(url, mode, source_path, sidecar_path, original, Some(held))
            },
            (
                OpState::AwaitArtifact { original, source, plan },
                ResizeEvent::ArtifactChecked(exists),
            ) => {
                if exists {
                    Self::finish(url, mode, source_path, sidecar_path, plan)
                } else if plan.needs_resize {
                    match source {
                        Some(bytes) => Self::resample(url, mode, source_path, sidecar_path, bytes, plan),
                        None => {
                            let read = ResizeAction::ReadSource { path: source_path.clone() };
                            let op2 = ResizeOp {
                                url,
                                mode,
                                source_path,
                                sidecar_path,
                                state: OpState::AwaitSourceForResize { original, plan },
                            };
                            (op2, ResizeStatus::Continue(read))
                        },
                    }
                } else {
                    let copy = ResizeAction::CopyArtifact {
                        from: source_path.clone(),
                        to: plan.cached_path.clone(),
                    };
                    let op2 = ResizeOp {
                        url,
                        mode,
                        source_path,
                        sidecar_path,
                        state: OpState::AwaitWrite { plan },
                    };
                    (op2, ResizeStatus::Continue(copy))
                }
            },
            (
                OpState::AwaitSourceForResize { original: _, plan },
                ResizeEvent::SourceLoaded(Some(bytes)),
            ) => Self::resample(url, mode, source_path, sidecar_path, bytes, plan),
            (
                OpState::AwaitSourceForResize { original: _, plan: _ },
                ResizeEvent::SourceLoaded(None),
            ) => Self::fail(url, mode, source_path, sidecar_path),
            (OpState::AwaitWrite { plan }, ResizeEvent::ArtifactWritten(okay)) => {
                if okay {
                    Self::finish(url, mode, source_path, sidecar_path, plan)
                } else {
                    Self::fail(url, mode, source_path, sidecar_path)
                }
            },
            (_, _) => Self::fail(url, mode, source_path, sidecar_path),
        }
    }

    /// Exec counterpart of `size_known_post`.
    fn size_known(
        &self,
        url: String,
        mode: ResizeMode,
        source_path: String,
        sidecar_path: String,
        size: Size,
        source: Option<Vec<u8>>,
    ) -> (r: (ResizeOp, ResizeStatus))
        ensures
            r.0.url@ == url@,
            r.0.mode == mode,
            r.0.source_path@ == source_path@,
            r.0.sidecar_path@ == sidecar_path@,
            size_known_post(r.0, size, match source {
                Some(v) => Some(v@),
                None => None,
            }, r.0, r.1, self.spec_cache_dir()),
    {
        match make_plan(url.as_str(), self.cache_dir_str(), size, &mode) {
            Some(plan) => {
                let check = ResizeAction::CheckArtifact { path: plan.cached_path.clone() };
                let op = ResizeOp {
                    url,
                    mode,
                    source_path,
                    sidecar_path,
                    state: OpState::AwaitArtifact { original: size, source, plan },
                };
                (op, ResizeStatus::Continue(check))
            },
            None => Self::fail(url, mode, source_path, sidecar_path),
        }
    }

    /// Exec counterpart of `resample_post`.
    fn resample(
        url: String,
        mode: ResizeMode,
        source_path: String,
        sidecar_path: String,
        bytes: Vec<u8>,
        plan: ArtifactPlan,
    ) -> (r: (ResizeOp, ResizeStatus))
        ensures
            r.0.url@ == url@,
            r.0.mode == mode,
            r.0.source_path@ == source_path@,
            r.0.sidecar_path@ == sidecar_path@,
            resample_post(bytes@, plan, r.0, r.1),
    {
        if plan.required.w == 0 || plan.required.h == 0 {
            return Self::fail(url, mode, source_path, sidecar_path);
        }
        match crate::imaging::resize_to_png(&bytes, plan.required.w, plan.required.h) {
            Some(png) => {
                let write = ResizeAction::WriteArtifact {
                    path: plan.cached_path.clone(),
                    bytes: png,
                };
                let op = ResizeOp {
                    url,
                    mode,
                    source_path,
                    sidecar_path,
                    state: OpState::AwaitWrite { plan },
                };
                (op, ResizeStatus::Continue(write))
            },
            None => Self::fail(url, mode, source_path, sidecar_path),
        }
    }

    /// A finished operation with its result.
    fn finish(
        url: String,
        mode: ResizeMode,
        source_path: String,
        sidecar_path: String,
        plan: ArtifactPlan,
    ) -> (r: (ResizeOp, ResizeStatus))
        ensures
            r.0.url@ == url@,
            r.0.mode == mode,
            r.0.source_path@ == source_path@,
            r.0.sidecar_path@ == sidecar_path@,
            r.0.state is Finished,
            done_status(plan, r.1),
    {
        let result = ResizeResult {
            path: plan.cached_path,
            relative_url: plan.cached_name,
            size: plan.required,
        };
        let op = ResizeOp { url, mode, source_path, sidecar_path, state: OpState::Finished };
        (op, ResizeStatus::Done(result))
    }

    /// A failed operation.
    fn fail(url: String, mode: ResizeMode, source_path: String, sidecar_path: String) -> (r: (
        ResizeOp,
        ResizeStatus,
    ))
        ensures
            r.0.url@ == url@,
            r.0.mode == mode,
            r.0.source_path@ == source_path@,
            r.0.sidecar_path@ == sidecar_path@,
            r.0.state is Finished,
            r.1 is Failed,
    {
        let op = ResizeOp { url, mode, source_path, sidecar_path, state: OpState::Finished };
        (op, ResizeStatus::Failed)
    }
}

} // verus!
