//! The lifecycle state machine.
//!
//! This is the application-level controller that sequences
//! display → config → context → window → surface creation, handles suspend
//! and resume, owns the current/not-current transitions of the context, and
//! fixes the teardown order on exit. The machine holds no platform handles:
//! it decides, and the host performs the platform calls between transitions,
//! reporting each outcome back. Every transition states exactly how the new
//! state relates to the old one, so the invariants of the model — at most
//! one config selection, at most one context, at most one renderer, app
//! state present exactly while the context is current — are proved rather
//! than assumed.

use vstd::prelude::*;

use crate::config::GlConfig;
use crate::error::LifecycleError;

verus! {

/// The coarse position of the machine in its lifecycle.
#[derive(Clone, Copy, Debug, PartialEq, Eq, Structural)]
pub enum Phase {
    /// No display yet; only the selection template and pending builders
    /// exist.
    Uninitialized,
    /// Display built and config selected, context not yet created. Only
    /// reachable transiently inside the first resume.
    DisplayReady,
    /// Context current, app state present, renderer present: ready to
    /// render.
    Active,
    /// Window and surface gone, context detached but retained.
    Suspended,
    /// Terminal: display released.
    Exited,
}

/// A step of one idle render cycle, in the order the host must perform
/// them.
#[derive(Clone, Copy, Debug, PartialEq, Eq, Structural)]
pub enum RenderStep {
    /// Issue the draw call.
    Draw,
    /// Ask the window to schedule the next cycle.
    RequestRedraw,
    /// Present (swap) the surface against the current context.
    Present,
}

/// A step of the final teardown, in the order the host must perform them.
#[derive(Clone, Copy, Debug, PartialEq, Eq, Structural)]
pub enum TeardownStep {
    /// Drop the surface/window pair (surface strictly before window).
    DropAppState,
    /// Explicitly release the display connection, for backends whose
    /// drivers crash when the process tears the display down implicitly.
    ReleaseDisplay,
}

/// The lifecycle state machine. Fields are the mathematical model of the
/// resources the host owns; mutate them only through the transition
/// methods, which preserve [`Lifecycle::inv`].
#[derive(Clone, Copy, Debug)]
pub struct Lifecycle {
    /// Where the machine stands.
    pub phase: Phase,
    /// Whether the process-wide display connection has been built and is
    /// still held.
    pub display_initialized: bool,
    /// The framebuffer configuration selected at the first resume; `None`
    /// until then, fixed afterwards.
    pub config: Option<GlConfig>,
    /// Whether the one rendering context of the process exists.
    pub context_live: bool,
    /// Whether that context is current (attached to a surface and the
    /// calling thread).
    pub context_current: bool,
    /// Whether the paired surface/window unit exists ("ready to render").
    pub app_state_live: bool,
    /// Whether the context has been made current at least once.
    pub context_ever_current: bool,
    /// Whether the renderer (GPU program and buffers) exists.
    pub renderer_live: bool,
    /// The viewport dimensions last handed to the renderer.
    pub viewport: (u32, u32),
    /// Whether a vsync request was ever rejected (a warning, never fatal).
    pub vsync_warned: bool,
    /// Whether loop termination has been requested.
    pub exit_requested: bool,
    /// The first fatal error recorded, if any: the process result.
    pub fatal: Option<LifecycleError>,
    /// How often a config has been selected over the whole run.
    pub config_selections: u64,
    /// How often a context has been created over the whole run.
    pub context_creations: u64,
    /// How often a renderer has been created over the whole run.
    pub renderer_creations: u64,
}

impl Lifecycle {
    /// Well-formedness: the resource invariants of the design.
    pub open spec fn inv(self) -> bool {
        &&& (self.app_state_live <==> self.phase is Active)
        &&& self.context_current == self.app_state_live
        &&& (self.context_current ==> self.context_live)
        &&& (self.phase is Suspended ==> self.context_live)
        &&& (self.phase is Uninitialized ==> !self.display_initialized && !self.context_live
            && !self.renderer_live && self.config is None)
        &&& (self.phase is DisplayReady ==> self.display_initialized && self.config is Some)
        &&& (self.phase is Exited ==> !self.context_live && !self.renderer_live
            && !self.display_initialized)
        &&& (self.context_live ==> self.display_initialized && self.config is Some)
        &&& (self.renderer_live ==> self.context_live)
        &&& (self.config is Some <==> self.config_selections == 1)
        &&& self.config_selections <= 1
        &&& self.context_creations <= 1
        &&& self.renderer_creations <= 1
        &&& (!(self.phase is Exited) ==> (self.context_live <==> self.context_creations == 1))
        &&& (!(self.phase is Exited) ==> (self.renderer_live <==> self.renderer_creations == 1))
        &&& (!(self.phase is Exited) ==> (self.renderer_live <==> self.context_ever_current))
        &&& (self.phase is Active ==> self.renderer_live)
    }

    /// The state before the first event: nothing built.
    pub open spec fn spec_init() -> Lifecycle {
        Lifecycle {
            phase: Phase::Uninitialized,
            display_initialized: false,
            config: None,
            context_live: false,
            context_current: false,
            app_state_live: false,
            context_ever_current: false,
            renderer_live: false,
            viewport: (0u32, 0u32),
            vsync_warned: false,
            exit_requested: false,
            fatal: None,
            config_selections: 0,
            context_creations: 0,
            renderer_creations: 0,
        }
    }

    /// A fresh machine, before its first event.
    pub fn new() -> (r: Self)
        ensures
            r == Self::spec_init(),
            r.inv(),
    {
        Lifecycle {
            phase: Phase::Uninitialized,
            display_initialized: false,
            config: None,
            context_live: false,
            context_current: false,
            app_state_live: false,
            context_ever_current: false,
            renderer_live: false,
            viewport: (0u32, 0u32),
            vsync_warned: false,
            exit_requested: false,
            fatal: None,
            config_selections: 0,
            context_creations: 0,
            renderer_creations: 0,
        }
    }

    /// Effect of recording the built display and the selected config.
    pub open spec fn spec_display_ready(s: Lifecycle, cfg: GlConfig) -> Lifecycle {
        Lifecycle {
            phase: Phase::DisplayReady,
            display_initialized: true,
            config: Some(cfg),
            config_selections: (s.config_selections + 1) as u64,
            ..s
        }
    }

    /// First resume only: the host built the display and picked `cfg`
    /// through the config selector. The selection is final for the rest of
    /// the process.
    pub fn note_display_ready(&mut self, cfg: GlConfig)
        requires
            old(self).inv(),
            old(self).phase is Uninitialized,
        ensures
            *final(self) == Self::spec_display_ready(*old(self), cfg),
            final(self).inv(),
    {
        self.phase = Phase::DisplayReady;
        self.display_initialized = true;
        self.config = Some(cfg);
        self.config_selections = self.config_selections + 1;
    }

    /// The retained configuration. Later resumes reuse it instead of
    /// re-selecting.
    pub fn selected_config(&self) -> (r: GlConfig)
        requires
            self.config is Some,
        ensures
            self.config == Some(r),
    {
        self.config.unwrap()
    }

    /// Effect of recording the created context.
    pub open spec fn spec_context_created(s: Lifecycle) -> Lifecycle {
        Lifecycle { context_live: true, context_creations: (s.context_creations + 1) as u64, ..s }
    }

    /// First resume only: the context factory produced a context (in
    /// not-current state). Exactly one context ever exists.
    pub fn note_context_created(&mut self)
        requires
            old(self).inv(),
            old(self).phase is DisplayReady,
            !old(self).context_live,
        ensures
            *final(self) == Self::spec_context_created(*old(self)),
            final(self).inv(),
    {
        self.context_live = true;
        self.context_creations = self.context_creations + 1;
    }

    /// Effect of completing a resume: context current against the new
    /// surface, app state stored, renderer present (created only if it was
    /// absent), vsync outcome recorded.
    pub open spec fn spec_resume(s: Lifecycle, vsync_ok: bool) -> Lifecycle {
        Lifecycle {
            phase: Phase::Active,
            context_current: true,
            app_state_live: true,
            context_ever_current: true,
            renderer_live: true,
            renderer_creations: if s.renderer_live {
                s.renderer_creations
            } else {
                (s.renderer_creations + 1) as u64
            },
            vsync_warned: s.vsync_warned || !vsync_ok,
            ..s
        }
    }

    /// The host built a window and a surface for the retained config, made
    /// the context current against the surface, constructed the renderer if
    /// it was absent, and requested vsync with outcome `vsync_ok` (a
    /// rejected request is only a warning). The machine becomes `Active`.
    pub fn complete_resume(&mut self, vsync_ok: bool)
        requires
            old(self).inv(),
            (old(self).phase is DisplayReady && old(self).context_live)
                || old(self).phase is Suspended,
        ensures
            *final(self) == Self::spec_resume(*old(self), vsync_ok),
            final(self).inv(),
    {
        if !self.renderer_live {
            self.renderer_creations = self.renderer_creations + 1;
            self.renderer_live = true;
        }
        self.phase = Phase::Active;
        self.context_current = true;
        self.app_state_live = true;
        self.context_ever_current = true;
        self.vsync_warned = self.vsync_warned || !vsync_ok;
    }

    /// Effect of a suspend: the surface/window pair is gone, the context is
    /// detached but kept, the renderer is kept.
    pub open spec fn spec_suspend(s: Lifecycle) -> Lifecycle {
        Lifecycle { phase: Phase::Suspended, context_current: false, app_state_live: false, ..s }
    }

    /// The platform took the window away: the host drops the surface/window
    /// pair and makes the context not-current. Context and renderer outlive
    /// this transition.
    pub fn on_suspend(&mut self)
        requires
            old(self).inv(),
            old(self).phase is Active,
        ensures
            *final(self) == Self::spec_suspend(*old(self)),
            final(self).inv(),
    {
        self.phase = Phase::Suspended;
        self.context_current = false;
        self.app_state_live = false;
    }

    /// Effect of recording a fatal error: the first one is kept as the
    /// process result, and loop termination is requested.
    pub open spec fn spec_fatal(s: Lifecycle, err: LifecycleError) -> Lifecycle {
        Lifecycle {
            fatal: if s.fatal is Some {
                s.fatal
            } else {
                Some(err)
            },
            exit_requested: true,
            ..s
        }
    }

    /// A creation step or a presentation failed fatally: store the error
    /// (keeping the first if one is already stored) and request loop
    /// termination. Resources are torn down later by [`Self::on_exit`].
    pub fn record_fatal(&mut self, err: LifecycleError)
        requires
            old(self).inv(),
            err.spec_is_fatal(),
        ensures
            *final(self) == Self::spec_fatal(*old(self), err),
            final(self).inv(),
    {
        if self.fatal.is_none() {
            self.fatal = Some(err);
        }
        self.exit_requested = true;
    }

    /// The user asked to close the window or pressed the cancel key:
    /// request loop termination without touching any resource.
    pub fn request_exit(&mut self)
        requires
            old(self).inv(),
        ensures
            *final(self) == (Lifecycle { exit_requested: true, ..*old(self) }),
            final(self).inv(),
    {
        self.exit_requested = true;
    }

    /// Effect of a resize event.
    pub open spec fn spec_resize(s: Lifecycle, width: u32, height: u32) -> Lifecycle {
        if s.phase is Active && width > 0 && height > 0 {
            Lifecycle { viewport: (width, height), ..s }
        } else {
            s
        }
    }

    /// A resize event arrived. Only when the machine is active and both
    /// dimensions are strictly positive does the surface get resized: the
    /// result then carries the dimensions the host must pass to the
    /// platform resize call and to the renderer. A transient zero size (or
    /// an event outside `Active`) is ignored and changes nothing.
    pub fn on_resize(&mut self, width: u32, height: u32) -> (r: Option<(u32, u32)>)
        requires
            old(self).inv(),
        ensures
            *final(self) == Self::spec_resize(*old(self), width, height),
            final(self).inv(),
            r is Some <==> (old(self).phase is Active && width > 0 && height > 0),
            r matches Some(d) ==> d == (width, height) && final(self).viewport == d,
            r is None ==> *final(self) == *old(self),
    {
        if matches!(self.phase, Phase::Active) && width > 0 && height > 0 {
            self.viewport = (width, height);
            Some((width, height))
        } else {
            None
        }
    }

    /// What one idle cycle must do: when the machine is active, draw,
    /// schedule the next cycle, then present — in that order; otherwise
    /// nothing.
    pub open spec fn spec_tick_plan(s: Lifecycle) -> Seq<RenderStep> {
        if s.phase is Active {
            seq![RenderStep::Draw, RenderStep::RequestRedraw, RenderStep::Present]
        } else {
            Seq::empty()
        }
    }

    /// The render tick driver: the steps the host must perform on this idle
    /// cycle, in order. A presentation failure is reported back through
    /// [`Self::record_fatal`].
    pub fn on_idle_tick(&self) -> (r: Vec<RenderStep>)
        ensures
            r@ == Self::spec_tick_plan(*self),
    {
        let mut steps: Vec<RenderStep> = Vec::new();
        if matches!(self.phase, Phase::Active) {
            steps.push(RenderStep::Draw);
            steps.push(RenderStep::RequestRedraw);
            steps.push(RenderStep::Present);
        }
        proof {
            assert(steps@ =~= Self::spec_tick_plan(*self));
        }
        steps
    }

    /// Effect of the final teardown: everything live is gone.
    pub open spec fn spec_exit(s: Lifecycle) -> Lifecycle {
        Lifecycle {
            phase: Phase::Exited,
            display_initialized: false,
            context_live: false,
            context_current: false,
            app_state_live: false,
            renderer_live: false,
            ..s
        }
    }

    /// The teardown steps owed on exit: drop the surface/window pair if it
    /// exists, and only after that release the display if the backend
    /// requires an explicit release.
    pub open spec fn spec_exit_plan(app_state_live: bool, display_needs_release: bool) -> Seq<
        TeardownStep,
    > {
        let drop_part: Seq<TeardownStep> = if app_state_live {
            seq![TeardownStep::DropAppState]
        } else {
            Seq::empty()
        };
        let release_part: Seq<TeardownStep> = if display_needs_release {
            seq![TeardownStep::ReleaseDisplay]
        } else {
            Seq::empty()
        };
        drop_part + release_part
    }

    /// The event loop is exiting: the terminal transition, valid from every
    /// non-terminal state, even with only partially initialized resources.
    /// Returns the teardown steps the host must perform, in order; the
    /// surface/window pair is always dropped before the display is
    /// released. `display_needs_release` says whether the display backend
    /// is of the variant whose drivers need an explicit release on exit.
    pub fn on_exit(&mut self, display_needs_release: bool) -> (steps: Vec<TeardownStep>)
        requires
            old(self).inv(),
            !(old(self).phase is Exited),
        ensures
            *final(self) == Self::spec_exit(*old(self)),
            final(self).inv(),
            steps@ == Self::spec_exit_plan(old(self).app_state_live, display_needs_release),
    {
        let had_app_state = self.app_state_live;
        self.phase = Phase::Exited;
        self.display_initialized = false;
        self.context_live = false;
        self.context_current = false;
        self.app_state_live = false;
        self.renderer_live = false;
        let mut steps: Vec<TeardownStep> = Vec::new();
        if had_app_state {
            steps.push(TeardownStep::DropAppState);
        }
        if display_needs_release {
            steps.push(TeardownStep::ReleaseDisplay);
        }
        proof {
            assert(steps@ =~= Self::spec_exit_plan(old(self).app_state_live, display_needs_release));
        }
        steps
    }
}

/// The render tick drives the draw/redraw/present sequence only when the
/// surface/window pair exists and the context is current: a well-formed
/// machine never asks the host to render against missing resources.
pub proof fn lemma_tick_only_when_ready(s: Lifecycle)
    requires
        s.inv(),
    ensures
        Lifecycle::spec_tick_plan(s).len() > 0 ==> s.app_state_live && s.context_current,
{
}

/// A resume or suspend event as the platform delivers them, carrying the
/// data the transition consumes: a resume brings the config the selector
/// would pick if this turns out to be the first resume, and the outcome of
/// the vsync request.
#[derive(Clone, Copy, Debug)]
pub enum LifecycleEvent {
    /// The application gained (or regained) a window.
    Resumed { config: GlConfig, vsync_ok: bool },
    /// The platform took the window away.
    Suspended,
}

/// A whole resume as one step: the first resume builds the display, selects
/// `cfg` and creates the context before the common completion; later
/// resumes reuse all three and only complete.
pub open spec fn spec_full_resume(s: Lifecycle, cfg: GlConfig, vsync_ok: bool) -> Lifecycle {
    if s.phase is Uninitialized {
        Lifecycle::spec_resume(
            Lifecycle::spec_context_created(Lifecycle::spec_display_ready(s, cfg)),
            vsync_ok,
        )
    } else {
        Lifecycle::spec_resume(s, vsync_ok)
    }
}

/// One event applied to a state. An event that is not enabled in the
/// current phase changes nothing.
pub open spec fn spec_event_step(s: Lifecycle, e: LifecycleEvent) -> Lifecycle {
    match e {
        LifecycleEvent::Resumed { config, vsync_ok } => {
            if s.phase is Uninitialized || s.phase is Suspended {
                spec_full_resume(s, config, vsync_ok)
            } else {
                s
            }
        },
        LifecycleEvent::Suspended => {
            if s.phase is Active {
                Lifecycle::spec_suspend(s)
            } else {
                s
            }
        },
    }
}

/// A state driven through a whole sequence of resume/suspend events.
pub open spec fn spec_run(s: Lifecycle, events: Seq<LifecycleEvent>) -> Lifecycle
    decreases events.len(),
{
    if events.len() == 0 {
        s
    } else {
        spec_event_step(spec_run(s, events.drop_last()), events.last())
    }
}

/// Every single event preserves well-formedness.
pub proof fn lemma_event_step_preserves_inv(s: Lifecycle, e: LifecycleEvent)
    requires
        s.inv(),
    ensures
        spec_event_step(s, e).inv(),
{
}

/// Every sequence of events preserves well-formedness.
pub proof fn lemma_run_preserves_inv(s: Lifecycle, events: Seq<LifecycleEvent>)
    requires
        s.inv(),
    ensures
        spec_run(s, events).inv(),
    decreases events.len(),
{
    if events.len() > 0 {
        lemma_run_preserves_inv(s, events.drop_last());
        lemma_event_step_preserves_inv(spec_run(s, events.drop_last()), events.last());
    }
}

/// Renderer persistence: once the renderer exists, no interleaving of
/// resume and suspend events destroys it.
pub proof fn lemma_renderer_persists(s: Lifecycle, events: Seq<LifecycleEvent>)
    requires
        s.inv(),
        s.renderer_live,
    ensures
        spec_run(s, events).renderer_live,
    decreases events.len(),
{
    if events.len() > 0 {
        lemma_run_preserves_inv(s, events.drop_last());
        lemma_renderer_persists(s, events.drop_last());
    }
}

/// Lifecycle interleaving law: starting from the initial state, after any
/// sequence of resume and suspend events the surface/window pair is present
/// exactly when the most recent event was a resume, the renderer has been
/// created at most once, and the config has been selected at most once.
pub proof fn lemma_lifecycle_interleaving(events: Seq<LifecycleEvent>)
    ensures
        spec_run(Lifecycle::spec_init(), events).app_state_live <==> (events.len() > 0
            && events.last() is Resumed),
        spec_run(Lifecycle::spec_init(), events).renderer_creations <= 1,
        spec_run(Lifecycle::spec_init(), events).config_selections <= 1,
        !(spec_run(Lifecycle::spec_init(), events).phase is Exited),
        !(spec_run(Lifecycle::spec_init(), events).phase is DisplayReady),
    decreases events.len(),
{
    if events.len() > 0 {
        lemma_lifecycle_interleaving(events.drop_last());
        lemma_run_preserves_inv(Lifecycle::spec_init(), events.drop_last());
    }
}

/// Whether a teardown plan never releases the display before the
/// surface/window pair is dropped.
pub open spec fn drops_app_state_before_release(plan: Seq<TeardownStep>) -> bool {
    forall|i: int, j: int|
        0 <= i < plan.len() && 0 <= j < plan.len() && #[trigger] plan[i] is DropAppState
            && #[trigger] plan[j] is ReleaseDisplay ==> i < j
}

/// Exit sequencing law: whatever state the machine was in when exit was
/// requested, the teardown plan drops the surface/window pair (if present)
/// strictly before it releases the display.
pub proof fn lemma_exit_drops_app_state_first(app_state_live: bool, display_needs_release: bool)
    ensures
        drops_app_state_before_release(
            Lifecycle::spec_exit_plan(app_state_live, display_needs_release),
        ),
{
    let plan = Lifecycle::spec_exit_plan(app_state_live, display_needs_release);
    if app_state_live && display_needs_release {
        assert(plan =~= seq![TeardownStep::DropAppState, TeardownStep::ReleaseDisplay]);
        assert forall|i: int, j: int|
            0 <= i < plan.len() && 0 <= j < plan.len() && plan[i] is DropAppState
                && plan[j] is ReleaseDisplay implies i < j by {
            assert(i == 0);
            assert(j == 1);
        }
    } else {
        assert(plan.len() <= 1);
        assert forall|i: int, j: int|
            0 <= i < plan.len() && 0 <= j < plan.len() && plan[i] is DropAppState
                && plan[j] is ReleaseDisplay implies i < j by {
            assert(false);
        }
    }
}

} // verus!
