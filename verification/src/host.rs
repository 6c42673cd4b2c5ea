//! The window/event host: the application's two-state lifecycle, the
//! dispatch of platform window events to decisions the shell carries out,
//! and the per-frame composition of UI pass, render plan and presentation.

use crate::gallery::{
    apply_events_spec, describe_spec, is_initial, show_spec, GalleryEvent, WidgetDecl,
    WidgetGallery,
};
use crate::gpu::{
    chosen_format, first_true, frame_of, resize_spec, valid_config, Frame, GpuResources, InitError,
};
use crate::render::{plan_frame_post, DrawBatch, FrameRenderer, RenderError, RenderPlan};
use vstd::prelude::*;

verus! {

/// A lifecycle or input event delivered by the platform's event loop.
#[derive(PartialEq, Eq, Structural, Clone, Copy, Debug)]
pub enum WindowEvent {
    /// The user asked to close the window.
    CloseRequested,
    /// The platform asks for a frame.
    RedrawRequested,
    /// The window took a new physical size.
    Resized { width: u32, height: u32 },
    /// Any other event; it is only offered to the UI session.
    Other,
}

/// The UI session's reaction to an event that was fed to it: whether it
/// consumed the event, and whether it wants a repaint.
#[derive(PartialEq, Eq, Structural, Clone, Copy, Debug)]
pub struct UiEventResponse {
    pub consumed: bool,
    pub repaint: bool,
}

/// One delivered event together with what only the shell can know about it:
/// whether it targets the application's window, and how the UI session
/// reacted when it was fed the event.
#[derive(PartialEq, Eq, Structural, Clone, Copy, Debug)]
pub struct IncomingEvent {
    pub event: WindowEvent,
    pub id_matches: bool,
    pub ui: UiEventResponse,
}

/// What the shell must do after one event is dispatched.
#[derive(PartialEq, Eq, Structural, Clone, Copy, Debug)]
pub struct EventDecision {
    /// Stop the event loop; nothing further is rendered.
    pub exit: bool,
    /// Render one frame now.
    pub render: bool,
    /// Ask the platform for another redraw.
    pub request_redraw: bool,
    /// Reconfigure the surface to the configuration the context now holds.
    pub reconfigure: bool,
}

/// Everything the application owns once it is running.
#[derive(Debug)]
pub struct AppResources {
    pub gpu: GpuResources,
    pub renderer: FrameRenderer,
    pub gallery: WidgetGallery,
}

/// The application's two-state lifecycle: uninitialized until the first
/// resume event, then running with all resources held.
#[derive(Debug)]
pub struct App {
    pub resources: Option<AppResources>,
}

/// The decision an event gives rise to. Events delivered while the
/// application is uninitialized are rejected. An event consumed by the UI
/// session goes no further; otherwise a close request stops the loop, a
/// redraw request renders a frame (unless the window has zero area) and
/// immediately asks for the next one, and a new size reconfigures the
/// surface unless its area is zero.
pub open spec fn decision_spec(s: App, e: IncomingEvent) -> EventDecision {
    if s.resources is None {
        EventDecision { exit: false, render: false, request_redraw: false, reconfigure: false }
    } else {
        let repaint = e.id_matches && e.ui.repaint;
        if e.id_matches && e.ui.consumed {
            EventDecision { exit: false, render: false, request_redraw: repaint, reconfigure: false }
        } else {
            match e.event {
                WindowEvent::CloseRequested => EventDecision {
                    exit: true,
                    render: false,
                    request_redraw: repaint,
                    reconfigure: false,
                },
                WindowEvent::RedrawRequested => EventDecision {
                    exit: false,
                    render: valid_config(s.resources->Some_0.gpu.config),
                    request_redraw: true,
                    reconfigure: false,
                },
                WindowEvent::Resized { width, height } => EventDecision {
                    exit: false,
                    render: false,
                    request_redraw: repaint,
                    reconfigure: width > 0 && height > 0,
                },
                WindowEvent::Other => EventDecision {
                    exit: false,
                    render: false,
                    request_redraw: repaint,
                    reconfigure: false,
                },
            }
        }
    }
}

/// The state after one event is dispatched: only an unconsumed resize
/// touches it, by reconfiguring the graphics context.
pub open spec fn step_spec(s: App, e: IncomingEvent) -> App {
    if s.resources is None {
        s
    } else if e.id_matches && e.ui.consumed {
        s
    } else {
        match e.event {
            WindowEvent::Resized { width, height } => App {
                resources: Some(
                    AppResources {
                        gpu: resize_spec(s.resources->Some_0.gpu, width, height),
                        ..s.resources->Some_0
                    },
                ),
            },
            _ => s,
        }
    }
}

/// The state after a run of events, dispatched in order.
pub open spec fn run_state_spec(s: App, evs: Seq<IncomingEvent>) -> App
    decreases evs.len(),
{
    if evs.len() == 0 {
        s
    } else {
        step_spec(run_state_spec(s, evs.drop_last()), evs.last())
    }
}

/// The outcome of one UI pass: the widget tree the gallery declared (none
/// while its window is closed) and the ordered GPU work that draws it.
#[derive(Debug)]
pub struct UiPass {
    pub decls: Option<Vec<WidgetDecl>>,
    pub plan: RenderPlan,
}

/// One rendered frame: the image acquired from the surface and the ordered
/// GPU work that fills it.
#[derive(Debug)]
pub struct FrameOutput {
    pub frame: Frame,
    pub plan: RenderPlan,
    pub decls: Option<Vec<WidgetDecl>>,
}

impl AppResources {
    /// One-time initialization on the first resume event: selects the
    /// device and surface format, configures the surface to the window's
    /// physical size, and starts the UI session with a fresh gallery.
    pub fn new(
        width: u32,
        height: u32,
        adapters_supported: &Vec<bool>,
        formats_srgb: &Vec<bool>,
    ) -> (r: Result<AppResources, InitError>)
        ensures
            match r {
                Ok(res) => {
                    &&& first_true(adapters_supported@, res.gpu.adapter_index as int)
                    &&& chosen_format(formats_srgb@, res.gpu.format_index as int)
                    &&& res.gpu.config.width == width && res.gpu.config.height == height
                    &&& res.renderer.resident@ == Seq::<u64>::empty()
                    &&& is_initial(res.gallery)
                },
                Err(e) => match e {
                    InitError::NoCompatibleAdapter => forall|j: int|
                        0 <= j < adapters_supported@.len() ==> !adapters_supported@[j],
                    InitError::NoSurfaceFormat => (exists|j: int|
                        0 <= j < adapters_supported@.len() && adapters_supported@[j])
                        && formats_srgb@.len() == 0,
                },
            },
            r is Err <==> ((forall|j: int|
                0 <= j < adapters_supported@.len() ==> !adapters_supported@[j])
                || formats_srgb@.len() == 0),
    {
        let gpu = match GpuResources::new(width, height, adapters_supported, formats_srgb) {
            Ok(g) => g,
            Err(e) => {
                return Err(e);
            },
        };
        Ok(AppResources { gpu, renderer: FrameRenderer::new(), gallery: WidgetGallery::default() })
    }

    /// Feeds one event to the UI session. Only events for the application's
    /// own window reach it; the first result says whether the session
    /// consumed the event, the second whether a redraw must be requested.
    pub fn on_window_event(&self, id_matches: bool, response: &UiEventResponse) -> (r: (bool, bool))
        ensures
            r.0 == (id_matches && response.consumed),
            r.1 == (id_matches && response.repaint),
    {
        if id_matches {
            (response.consumed, response.repaint)
        } else {
            (false, false)
        }
    }

    /// One UI pass and its translation to GPU work: runs the gallery window
    /// on the frame's widget interactions, then plans the frame — the
    /// texture deltas first, the draw batches after them.
    pub fn draw_ui(
        &mut self,
        close_clicked: bool,
        events: &Vec<GalleryEvent>,
        set_deltas: &Vec<u64>,
        free_deltas: &Vec<u64>,
        batches: &Vec<DrawBatch>,
    ) -> (r: Result<UiPass, RenderError>)
        ensures
            final(self).gpu == old(self).gpu,
            final(self).gallery == show_spec(old(self).gallery, close_clicked, events@),
            match r {
                Ok(pass) => {
                    &&& plan_frame_post(
                        old(self).renderer,
                        final(self).renderer,
                        set_deltas@,
                        free_deltas@,
                        batches@,
                        Ok(pass.plan),
                    )
                    &&& match pass.decls {
                        Some(d) => old(self).gallery.open && d@ == describe_spec(
                            apply_events_spec(old(self).gallery, events@),
                        ),
                        None => !old(self).gallery.open,
                    }
                },
                Err(e) => plan_frame_post(
                    old(self).renderer,
                    final(self).renderer,
                    set_deltas@,
                    free_deltas@,
                    batches@,
                    Err(e),
                ),
            },
    {
        let decls = self.gallery.show(close_clicked, events);
        match self.renderer.plan_frame(set_deltas, free_deltas, batches) {
            Ok(plan) => Ok(UiPass { decls, plan }),
            Err(e) => Err(e),
        }
    }

    /// Renders one frame: acquires the next presentable image — its backing
    /// dimensions are exactly the configured ones — runs the UI pass, plans
    /// the frame's GPU work, and presents. The surface must be configured
    /// with a nonzero area.
    pub fn do_render(
        &mut self,
        close_clicked: bool,
        events: &Vec<GalleryEvent>,
        set_deltas: &Vec<u64>,
        free_deltas: &Vec<u64>,
        batches: &Vec<DrawBatch>,
    ) -> (r: Result<FrameOutput, RenderError>)
        requires
            valid_config(self.gpu.config),
        ensures
            final(self).gpu == old(self).gpu,
            final(self).gallery == show_spec(old(self).gallery, close_clicked, events@),
            match r {
                Ok(out) => {
                    &&& out.frame == frame_of(old(self).gpu)
                    &&& plan_frame_post(
                        old(self).renderer,
                        final(self).renderer,
                        set_deltas@,
                        free_deltas@,
                        batches@,
                        Ok(out.plan),
                    )
                    &&& match out.decls {
                        Some(d) => old(self).gallery.open && d@ == describe_spec(
                            apply_events_spec(old(self).gallery, events@),
                        ),
                        None => !old(self).gallery.open,
                    }
                },
                Err(e) => plan_frame_post(
                    old(self).renderer,
                    final(self).renderer,
                    set_deltas@,
                    free_deltas@,
                    batches@,
                    Err(e),
                ),
            },
    {
        let frame = self.gpu.acquire_frame();
        let pass = match self.draw_ui(close_clicked, events, set_deltas, free_deltas, batches) {
            Ok(p) => p,
            Err(e) => {
                return Err(e);
            },
        };
        self.gpu.present(frame);
        Ok(FrameOutput { frame, plan: pass.plan, decls: pass.decls })
    }
}

impl App {
    /// The application before its first resume event: it owns nothing yet,
    /// and every delivered event is rejected.
    pub fn new() -> (r: App)
        ensures
            r.resources is None,
    {
        App { resources: None }
    }

    /// The first activation: creates the window's graphics resources and the
    /// UI session. On failure nothing changes and startup is aborted.
    pub fn resumed(
        &mut self,
        width: u32,
        height: u32,
        adapters_supported: &Vec<bool>,
        formats_srgb: &Vec<bool>,
    ) -> (r: Result<(), InitError>)
        ensures
            match r {
                Ok(()) => final(self).resources matches Some(res) && {
                    &&& first_true(adapters_supported@, res.gpu.adapter_index as int)
                    &&& chosen_format(formats_srgb@, res.gpu.format_index as int)
                    &&& res.gpu.config.width == width && res.gpu.config.height == height
                    &&& res.renderer.resident@ == Seq::<u64>::empty()
                    &&& is_initial(res.gallery)
                },
                Err(e) => *final(self) == *old(self) && match e {
                    InitError::NoCompatibleAdapter => forall|j: int|
                        0 <= j < adapters_supported@.len() ==> !adapters_supported@[j],
                    InitError::NoSurfaceFormat => (exists|j: int|
                        0 <= j < adapters_supported@.len() && adapters_supported@[j])
                        && formats_srgb@.len() == 0,
                },
            },
            r is Err <==> ((forall|j: int|
                0 <= j < adapters_supported@.len() ==> !adapters_supported@[j])
                || formats_srgb@.len() == 0),
    {
        match AppResources::new(width, height, adapters_supported, formats_srgb) {
            Ok(res) => {
                self.resources = Some(res);
                Ok(())
            },
            Err(e) => Err(e),
        }
    }

    /// Dispatches one platform event. The event is first offered to the UI
    /// session; a consumed event goes no further. The returned decision
    /// tells the shell what to carry out; the model's own state only changes
    /// on an unconsumed resize, which reconfigures the surface.
    pub fn window_event(&mut self, e: &IncomingEvent) -> (d: EventDecision)
        ensures
            *final(self) == step_spec(*old(self), *e),
            d == decision_spec(*old(self), *e),
    {
        match &mut self.resources {
            None => EventDecision {
                exit: false,
                render: false,
                request_redraw: false,
                reconfigure: false,
            },
            Some(res) => {
                let (consumed, repaint) = res.on_window_event(e.id_matches, &e.ui);
                if consumed {
                    return EventDecision {
                        exit: false,
                        render: false,
                        request_redraw: repaint,
                        reconfigure: false,
                    };
                }
                match e.event {
                    WindowEvent::CloseRequested => EventDecision {
                        exit: true,
                        render: false,
                        request_redraw: repaint,
                        reconfigure: false,
                    },
                    WindowEvent::RedrawRequested => {
                        let render = res.gpu.config.width > 0 && res.gpu.config.height > 0;
                        EventDecision { exit: false, render, request_redraw: true, reconfigure: false }
                    },
                    WindowEvent::Resized { width, height } => {
                        let reconfigure = res.gpu.resize(width, height);
                        EventDecision { exit: false, render: false, request_redraw: repaint, reconfigure }
                    },
                    WindowEvent::Other => EventDecision {
                        exit: false,
                        render: false,
                        request_redraw: repaint,
                        reconfigure: false,
                    },
                }
            },
        }
    }
}

/// Drives the application over a run of delivered events, as the platform's
/// event loop would: each event is dispatched in order, and the loop stops
/// right after the first decision that exits. Returns the decisions made, one
/// per dispatched event; after the exiting one nothing further is dispatched,
/// so no further frame is rendered.
pub fn run(app: &mut App, events: &Vec<IncomingEvent>) -> (log: Vec<EventDecision>)
    ensures
        log@.len() <= events@.len(),
        *final(app) == run_state_spec(*old(app), events@.take(log@.len() as int)),
        forall|j: int|
            0 <= j < log@.len() ==> log@[j] == decision_spec(
                run_state_spec(*old(app), events@.take(j)),
                events@[j],
            ),
        forall|j: int| 0 <= j < log@.len() ==> ((#[trigger] log@[j]).exit ==> j == log@.len() - 1),
        log@.len() < events@.len() ==> log@[log@.len() - 1].exit,
        log@.len() == 0 ==> events@.len() == 0,
{
    let ghost s0 = *app;
    let mut log: Vec<EventDecision> = Vec::new();
    let mut i: usize = 0;
    let mut exited: bool = false;
    proof {
        assert(events@.take(0) =~= Seq::<IncomingEvent>::empty());
    }
    while i < events.len() && !exited
        invariant
            i <= events@.len(),
            log@.len() == i,
            *app == run_state_spec(s0, events@.take(i as int)),
            forall|j: int|
                0 <= j < i ==> log@[j] == decision_spec(
                    run_state_spec(s0, events@.take(j)),
                    events@[j],
                ),
            forall|j: int| 0 <= j < i ==> ((#[trigger] log@[j]).exit ==> j == i - 1 && exited),
            exited ==> i > 0 && log@[i - 1].exit,
        decreases events@.len() - i,
    {
        let d = app.window_event(&events[i]);
        log.push(d);
        proof {
            assert(events@.take(i as int + 1).drop_last() =~= events@.take(i as int));
            assert(events@.take(i as int + 1).last() == events@[i as int]);
        }
        if d.exit {
            exited = true;
        }
        i = i + 1;
    }
    log
}

} // verus!
