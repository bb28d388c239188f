//! Event-side state: the pending toolkit input, the platform output waiting
//! for the host, and the decisions taken on host events — what counts as
//! consumed, when an unconsumed window-close means quit, and when a resize
//! may reconfigure a GPU surface.
//!
//! Turning a raw host event into the toolkit's event values involves
//! floating-point coordinates, which stay with the embedding application; it
//! hands this module the already-built toolkit event (if any) together with a
//! [`HostEvent`] that carries exactly what the decisions here read.

use vstd::prelude::*;

use crate::egui_api::{
    ctx_wants_keyboard_input, ctx_wants_pointer_input, input_events_of, raw_input_default,
    raw_input_push, raw_input_set_screen_rect, raw_input_take,
};

verus! {

/// What the event translator reports back to the host for one event.
#[derive(Clone, Copy, PartialEq, Eq, Structural, Debug)]
pub struct EventResponse {
    /// The GUI wants exclusive use of this event: the host should not act on
    /// it itself.
    pub consumed: bool,
    /// The GUI should be repainted after this event.
    pub repaint: bool,
}

/// A host input event, lowered to what the event decisions read: its class
/// for the consumption policy, and for window geometry events the window and
/// the new size.
#[derive(Clone, Copy, PartialEq, Eq, Structural, Debug)]
pub enum HostEvent {
    PointerMoved,
    PointerButton,
    Scroll,
    Key,
    Text,
    WindowClose,
    WindowResized { window_id: u32, width: i32, height: i32 },
    WindowSizeChanged { window_id: u32, width: i32, height: i32 },
    Other,
}

/// Pointer-class events are consumed exactly when the GUI wants pointer
/// input.
pub open spec fn is_pointer_event(e: HostEvent) -> bool {
    e is PointerMoved || e is PointerButton || e is Scroll
}

/// Keyboard-class events are consumed exactly when the GUI wants keyboard
/// input.
pub open spec fn is_keyboard_event(e: HostEvent) -> bool {
    e is Key || e is Text
}

/// Every recognized event asks for a repaint; an unrecognized one does not.
pub open spec fn requests_repaint(e: HostEvent) -> bool {
    !(e is Other)
}

/// The consumption policy: the GUI consumes pointer events while it wants
/// pointer input and keyboard events while it wants keyboard input; window
/// events — a close in particular — are never consumed, so the host keeps
/// the final say on them.
pub open spec fn consumed_for(e: HostEvent, wants_pointer: bool, wants_keyboard: bool) -> bool {
    (is_pointer_event(e) && wants_pointer) || (is_keyboard_event(e) && wants_keyboard)
}

/// Decide the response for one event from the event's class and the GUI's
/// current appetite for pointer and keyboard input.
pub fn response_for(event: &HostEvent, wants_pointer: bool, wants_keyboard: bool) -> (r: EventResponse)
    ensures
        r.consumed == consumed_for(*event, wants_pointer, wants_keyboard),
        r.repaint == requests_repaint(*event),
{
    let pointer = match event {
        HostEvent::PointerMoved | HostEvent::PointerButton | HostEvent::Scroll => true,
        _ => false,
    };
    let keyboard = match event {
        HostEvent::Key | HostEvent::Text => true,
        _ => false,
    };
    let other = match event {
        HostEvent::Other => true,
        _ => false,
    };
    EventResponse {
        consumed: (pointer && wants_pointer) || (keyboard && wants_keyboard),
        repaint: !other,
    }
}

/// An unconsumed window-close event is the host's signal to quit: true
/// exactly for a `WindowClose` that the GUI did not consume.
pub fn close_requests_quit(event: &HostEvent, response: &EventResponse) -> (quit: bool)
    ensures
        quit == (*event is WindowClose && !response.consumed),
{
    match event {
        HostEvent::WindowClose => !response.consumed,
        _ => false,
    }
}

/// The GPU surface reconfiguration a window geometry event asks for:
/// the new size for a resize or size-change of the painter's own window,
/// and only with both dimensions positive — a zero-sized dimension is
/// rejected rather than propagated.
pub open spec fn resize_decision(e: HostEvent, own_window: u32) -> Option<(u32, u32)> {
    match e {
        HostEvent::WindowResized { window_id, width, height } => if window_id == own_window
            && width > 0 && height > 0 {
            Some((width as u32, height as u32))
        } else {
            None
        },
        HostEvent::WindowSizeChanged { window_id, width, height } => if window_id == own_window
            && width > 0 && height > 0 {
            Some((width as u32, height as u32))
        } else {
            None
        },
        _ => None,
    }
}

/// Decide whether a host event reconfigures the GPU surface of the window
/// `own_window`, and to which pixel size.
pub fn surface_resize(event: &HostEvent, own_window: u32) -> (r: Option<(u32, u32)>)
    ensures
        r == resize_decision(*event, own_window),
{
    match event {
        HostEvent::WindowResized { window_id, width, height }
        | HostEvent::WindowSizeChanged { window_id, width, height } => {
            if *window_id == own_window && *width > 0 && *height > 0 {
                Some((*width as u32, *height as u32))
            } else {
                None
            }
        }
        _ => None,
    }
}

/// The event translator's state: the raw input assembled for the next run
/// and the platform output (clipboard writes, cursor changes, opened links)
/// waiting for the host to act on.
pub struct State {
    input: egui::RawInput,
    outputs: Vec<egui::PlatformOutput>,
}

impl State {
    /// The platform outputs queued for the host, oldest first.
    pub closed spec fn queued_outputs(self) -> Seq<egui::PlatformOutput> {
        self.outputs@
    }

    /// The toolkit events queued for the next run, oldest first.
    pub closed spec fn pending_events(self) -> Seq<egui::Event> {
        input_events_of(self.input)
    }

    /// Fresh state: default raw input, nothing queued.
    pub fn new() -> (r: State)
        ensures
            r.queued_outputs() == Seq::<egui::PlatformOutput>::empty(),
            r.pending_events() == Seq::<egui::Event>::empty(),
    {
        State { input: raw_input_default(), outputs: Vec::new() }
    }

    /// Queue one toolkit event for the next run.
    pub fn push_event(&mut self, event: egui::Event)
        ensures
            final(self).queued_outputs() == old(self).queued_outputs(),
            final(self).pending_events() == old(self).pending_events().push(event),
    {
        raw_input_push(&mut self.input, event);
    }

    /// Record the window rectangle for the next run.
    pub fn set_screen_rect(&mut self, rect: egui::Rect)
        ensures
            final(self).queued_outputs() == old(self).queued_outputs(),
            final(self).pending_events() == old(self).pending_events(),
    {
        raw_input_set_screen_rect(&mut self.input, rect);
    }

    /// Hand the accumulated input — the queued events included — over for
    /// one run, clearing the one-frame parts in place.
    pub fn take_egui_input(&mut self) -> (r: egui::RawInput)
        ensures
            final(self).queued_outputs() == old(self).queued_outputs(),
            input_events_of(r) == old(self).pending_events(),
            final(self).pending_events() == Seq::<egui::Event>::empty(),
    {
        raw_input_take(&mut self.input)
    }

    /// Queue one run's platform output for the host.
    pub fn handle_platform_output(&mut self, output: egui::PlatformOutput)
        ensures
            final(self).queued_outputs() == old(self).queued_outputs().push(output),
            final(self).pending_events() == old(self).pending_events(),
    {
        self.outputs.push(output);
    }

    /// Drain the queued platform outputs, oldest first.
    pub fn take_platform_outputs(&mut self) -> (r: Vec<egui::PlatformOutput>)
        ensures
            r@ == old(self).queued_outputs(),
            final(self).queued_outputs() == Seq::<egui::PlatformOutput>::empty(),
            final(self).pending_events() == old(self).pending_events(),
    {
        let mut taken: Vec<egui::PlatformOutput> = Vec::new();
        core::mem::swap(&mut taken, &mut self.outputs);
        taken
    }

    /// Translate one host event: queue its toolkit form (built by the host,
    /// since it carries floating-point coordinates) if there is one, and
    /// report whether the GUI consumed the event and whether it wants a
    /// repaint.  A window-close is never consumed; whether a pointer or
    /// keyboard event is consumed follows the GUI's current state.
    pub fn on_event(&mut self, ctx: &egui::Context, event: &HostEvent, translated: Option<egui::Event>) -> (r: EventResponse)
        ensures
            final(self).queued_outputs() == old(self).queued_outputs(),
            final(self).pending_events() == match translated {
                Some(e) => old(self).pending_events().push(e),
                None => old(self).pending_events(),
            },
            r.repaint == requests_repaint(*event),
            !is_pointer_event(*event) && !is_keyboard_event(*event) ==> !r.consumed,
            *event is WindowClose ==> !r.consumed,
    {
        match translated {
            Some(e) => self.push_event(e),
            None => {}
        }
        let wants_pointer = ctx_wants_pointer_input(ctx);
        let wants_keyboard = ctx_wants_keyboard_input(ctx);
        response_for(event, wants_pointer, wants_keyboard)
    }
}

} // verus!
