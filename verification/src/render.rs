//! The render core: what each paint notification demands of the host.

use vstd::prelude::*;
use crate::size::Size;

verus! {

/// What the host must do for one paint notification, in order.
///
/// Every variant ends with exactly one redraw of the current frame (one
/// submit-and-present cycle, see [`crate::plan::RedrawPlan`]); the
/// variants differ only in what precedes it.
#[derive(Clone, Copy, Debug, PartialEq, Eq, Structural)]
pub enum PaintAction {
    /// First notification ever: construct the render context (adapter,
    /// device, pipeline, surface configuration) at the given size, then
    /// redraw.
    Initialize(Size),
    /// The client area changed: reconfigure the existing presentation
    /// surface to the new size, keeping device, queue and pipeline, then
    /// redraw.
    Reconfigure(Size),
    /// The size is unchanged: redraw the existing frame, nothing else.
    RedrawOnly,
}

/// How many render-context constructions (adapter/device/pipeline setup)
/// the action performs.
pub open spec fn initializations_of(a: PaintAction) -> nat {
    match a {
        PaintAction::Initialize(_) => 1,
        PaintAction::Reconfigure(_) => 0,
        PaintAction::RedrawOnly => 0,
    }
}

/// How many surface (re)configurations the action performs. Constructing
/// the context configures the surface once as its last step.
pub open spec fn configurations_of(a: PaintAction) -> nat {
    match a {
        PaintAction::Initialize(_) => 1,
        PaintAction::Reconfigure(_) => 1,
        PaintAction::RedrawOnly => 0,
    }
}

/// How many redraws (submit-and-present cycles) the action performs:
/// one, whichever variant it is.
pub open spec fn redraws_of(a: PaintAction) -> nat {
    match a {
        PaintAction::Initialize(_) => 1,
        PaintAction::Reconfigure(_) => 1,
        PaintAction::RedrawOnly => 1,
    }
}

/// The render core's decision state.
///
/// `last_size` is the previously observed (clamped) client-area size,
/// `None` until the first notification. The render context exists if and
/// only if at least one notification has been delivered, that is, if and
/// only if `last_size` is `Some`.
pub struct RenderCore {
    pub last_size: Option<Size>,
}

impl RenderCore {
    /// Any cached size is a usable (clamped) viewport size.
    pub open spec fn wf(self) -> bool {
        self.last_size matches Some(s) ==> s.wf()
    }

    /// Whether the render context has been constructed.
    pub open spec fn initialized(self) -> bool {
        self.last_size is Some
    }

    /// The state after one notification reporting the given extent: the
    /// clamped size is always cached, whatever was cached before.
    pub open spec fn spec_step(self, width: u32, height: u32) -> RenderCore {
        RenderCore { last_size: Some(Size::clamped(width, height)) }
    }

    /// The action one notification reporting the given extent demands.
    pub open spec fn spec_action(self, width: u32, height: u32) -> PaintAction {
        let s = Size::clamped(width, height);
        if self.last_size is None {
            PaintAction::Initialize(s)
        } else if self.last_size == Some(s) {
            PaintAction::RedrawOnly
        } else {
            PaintAction::Reconfigure(s)
        }
    }

    /// A fresh core: no notification seen, no context constructed.
    pub fn new() -> (c: RenderCore)
        ensures
            c == (RenderCore { last_size: None::<Size> }),
            !c.initialized(),
            c.wf(),
    {
        RenderCore { last_size: None }
    }

    /// Decide what a paint notification reporting the given client-area
    /// extent demands, and cache the (clamped) size it reported.
    ///
    /// The context is constructed exactly on the first notification; a
    /// repeated size reconfigures nothing; a changed size reconfigures
    /// the surface; and every notification demands exactly one redraw.
    pub fn on_paint_notification(&mut self, width: u32, height: u32) -> (a: PaintAction)
        ensures
            *final(self) == old(self).spec_step(width, height),
            final(self).wf(),
            final(self).initialized(),
            a == old(self).spec_action(width, height),
            redraws_of(a) == 1,
            initializations_of(a) == 1 <==> !old(self).initialized(),
            old(self).last_size == Some(Size::clamped(width, height)) ==> configurations_of(a) == 0,
    {
        let s = Size::new(width, height);
        match self.last_size {
            None => {
                self.last_size = Some(s);
                PaintAction::Initialize(s)
            }
            Some(prev) => {
                if prev == s {
                    PaintAction::RedrawOnly
                } else {
                    self.last_size = Some(s);
                    PaintAction::Reconfigure(s)
                }
            }
        }
    }
}

/// Total render-context constructions across a notification sequence,
/// each event a reported (width, height) pair.
pub open spec fn initializations_in(c: RenderCore, events: Seq<(u32, u32)>) -> nat
    decreases events.len(),
{
    if events.len() == 0 {
        0
    } else {
        initializations_of(c.spec_action(events[0].0, events[0].1))
            + initializations_in(c.spec_step(events[0].0, events[0].1), events.skip(1))
    }
}

/// Total redraws across a notification sequence.
pub open spec fn redraws_in(c: RenderCore, events: Seq<(u32, u32)>) -> nat
    decreases events.len(),
{
    if events.len() == 0 {
        0
    } else {
        redraws_of(c.spec_action(events[0].0, events[0].1))
            + redraws_in(c.spec_step(events[0].0, events[0].1), events.skip(1))
    }
}

/// An initialized core never constructs the context again, over any
/// further notification sequence.
pub proof fn lemma_no_reinitialization(c: RenderCore, events: Seq<(u32, u32)>)
    requires
        c.initialized(),
    ensures
        initializations_in(c, events) == 0,
    decreases events.len(),
{
    if events.len() > 0 {
        lemma_no_reinitialization(c.spec_step(events[0].0, events[0].1), events.skip(1));
    }
}

/// Law (single initialization): starting uninitialized, any sequence of
/// at least one notification constructs the render context exactly once,
/// however many distinct sizes it reports.
pub proof fn lemma_single_initialization(events: Seq<(u32, u32)>)
    requires
        events.len() >= 1,
    ensures
        initializations_in(RenderCore { last_size: None }, events) == 1,
{
    let c0 = RenderCore { last_size: None };
    lemma_no_reinitialization(c0.spec_step(events[0].0, events[0].1), events.skip(1));
}

/// Law (redraw invariant): every notification, whether or not it changes
/// the size, demands exactly one redraw: a sequence of N notifications
/// demands exactly N submit-and-present cycles.
pub proof fn lemma_one_redraw_per_notification(c: RenderCore, events: Seq<(u32, u32)>)
    ensures
        redraws_in(c, events) == events.len(),
    decreases events.len(),
{
    if events.len() > 0 {
        lemma_one_redraw_per_notification(c.spec_step(events[0].0, events[0].1), events.skip(1));
    }
}

/// Law (idempotent resize suppression): whatever the core's state, after
/// a notification reporting some extent, a second notification reporting
/// the same extent demands no surface reconfiguration and no context
/// construction — only a redraw.
pub proof fn lemma_idempotent_suppression(c: RenderCore, width: u32, height: u32)
    ensures
        c.spec_step(width, height).spec_action(width, height) == PaintAction::RedrawOnly,
        configurations_of(c.spec_step(width, height).spec_action(width, height)) == 0,
{
}

} // verus!
