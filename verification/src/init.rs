//! Staged construction of the render context.
//!
//! Construction is a fixed sequence of calls into the GPU backend, each
//! of which can fail. The host performs each call and reports its
//! outcome; [`advance_init`] decides the next stage. Any failure is
//! fatal: the construction halts at [`InitStage::Failed`], never to
//! leave it, and the host terminates the process with a diagnostic.

use vstd::prelude::*;

verus! {

/// The stages of render-context construction, in the order they run.
/// Each stage before [`InitStage::Ready`] stands for one call into the
/// GPU backend whose outcome is still pending.
#[derive(Clone, Copy, Debug, PartialEq, Eq, Structural)]
pub enum InitStage {
    /// Create the GPU instance with platform-default backend selection.
    CreateInstance,
    /// Bind a presentation surface to the native window handle pair.
    CreateSurface,
    /// Request an adapter compatible with that surface (default power
    /// preference, no forced fallback).
    RequestAdapter,
    /// Request a logical device and command queue (empty feature set,
    /// resource limits derived from the adapter's own limits).
    RequestDevice,
    /// Compile the embedded shader module (entry points `vs_main` and
    /// `fs_main`).
    CompileShader,
    /// Query the surface's supported presentation formats; failure here
    /// is an empty format list.
    QueryFormats,
    /// Build the render pipeline (empty layout, first reported format as
    /// colour target).
    BuildPipeline,
    /// Compute the default surface configuration at the viewport size
    /// and apply it.
    ConfigureSurface,
    /// The context is fully constructed.
    Ready,
    /// A call failed: construction is over and the process must
    /// terminate with a diagnostic.
    Failed,
}

/// The stage that follows each stage when its backend call succeeds.
pub open spec fn spec_next_on_success(s: InitStage) -> InitStage {
    match s {
        InitStage::CreateInstance => InitStage::CreateSurface,
        InitStage::CreateSurface => InitStage::RequestAdapter,
        InitStage::RequestAdapter => InitStage::RequestDevice,
        InitStage::RequestDevice => InitStage::CompileShader,
        InitStage::CompileShader => InitStage::QueryFormats,
        InitStage::QueryFormats => InitStage::BuildPipeline,
        InitStage::BuildPipeline => InitStage::ConfigureSurface,
        InitStage::ConfigureSurface => InitStage::Ready,
        InitStage::Ready => InitStage::Ready,
        InitStage::Failed => InitStage::Failed,
    }
}

/// The stage after one backend call's outcome: success moves to the next
/// stage, failure to `Failed`; `Ready` and `Failed` are final.
pub open spec fn spec_advance(s: InitStage, ok: bool) -> InitStage {
    if s is Ready {
        InitStage::Ready
    } else if s is Failed {
        InitStage::Failed
    } else if ok {
        spec_next_on_success(s)
    } else {
        InitStage::Failed
    }
}

/// A render context exists exactly at `Ready`: at every other stage,
/// construction has left nothing partially usable behind.
pub open spec fn context_constructed(s: InitStage) -> bool {
    s is Ready
}

/// Advance the construction by the outcome of the current stage's
/// backend call.
pub fn advance_init(stage: InitStage, ok: bool) -> (next: InitStage)
    ensures
        next == spec_advance(stage, ok),
{
    match stage {
        InitStage::Ready => InitStage::Ready,
        InitStage::Failed => InitStage::Failed,
        _ => {
            if ok {
                match stage {
                    InitStage::CreateInstance => InitStage::CreateSurface,
                    InitStage::CreateSurface => InitStage::RequestAdapter,
                    InitStage::RequestAdapter => InitStage::RequestDevice,
                    InitStage::RequestDevice => InitStage::CompileShader,
                    InitStage::CompileShader => InitStage::QueryFormats,
                    InitStage::QueryFormats => InitStage::BuildPipeline,
                    InitStage::BuildPipeline => InitStage::ConfigureSurface,
                    InitStage::ConfigureSurface => InitStage::Ready,
                    InitStage::Ready => InitStage::Ready,
                    InitStage::Failed => InitStage::Failed,
                }
            } else {
                InitStage::Failed
            }
        }
    }
}

/// The stage reached from `s` after the given sequence of call outcomes,
/// applied in order.
pub open spec fn run_init_from(s: InitStage, outcomes: Seq<bool>) -> InitStage
    decreases outcomes.len(),
{
    if outcomes.len() == 0 {
        s
    } else {
        run_init_from(spec_advance(s, outcomes[0]), outcomes.skip(1))
    }
}

/// The stage reached from the start of construction after the given
/// call outcomes (outcome i answers the i-th backend call).
pub open spec fn run_init(outcomes: Seq<bool>) -> InitStage {
    run_init_from(InitStage::CreateInstance, outcomes)
}

/// A failed construction stays failed over any further outcomes.
pub proof fn lemma_failed_stays(outcomes: Seq<bool>)
    ensures
        run_init_from(InitStage::Failed, outcomes) is Failed,
    decreases outcomes.len(),
{
    if outcomes.len() > 0 {
        lemma_failed_stays(outcomes.skip(1));
    }
}

/// Law (fatal path): if the adapter request finds no compatible adapter,
/// construction fails right there: whatever the later outcomes would
/// have been, every stage reached from then on is `Failed` — device
/// creation is never attempted, and no render context, partial or
/// whole, is ever constructed.
pub proof fn lemma_no_adapter_no_device(later: Seq<bool>)
    ensures
        spec_advance(InitStage::RequestAdapter, false) is Failed,
        forall|k: int|
            0 <= k <= later.len() ==> run_init_from(
                spec_advance(InitStage::RequestAdapter, false),
                #[trigger] later.take(k),
            ) !is RequestDevice,
        forall|k: int|
            0 <= k <= later.len() ==> !context_constructed(
                run_init_from(spec_advance(InitStage::RequestAdapter, false), #[trigger] later.take(k)),
            ),
{
    assert forall|k: int| 0 <= k <= later.len() implies run_init_from(
        InitStage::Failed,
        #[trigger] later.take(k),
    ) is Failed by {
        lemma_failed_stays(later.take(k));
    }
}

} // verus!
