//! The trigger coordinator: the monitoring state (interception handle and
//! notification sink, held together) and the per-key decision of the tap.

use vstd::prelude::*;
use crate::focus::{CursorProbe, FocusProbe, InspectError, focused_bounds_result, text_input_focused};
use crate::geometry::{PointerLocation, ScreenFrame, TextFieldBounds, pointer_anchor};

verus! {

/// The platform's event type for a key press.
pub const KEY_DOWN_EVENT: u32 = 10;

/// The virtual keycode of the "/" key, the trigger.
pub const TRIGGER_KEYCODE: i64 = 0x2C;

/// A key event as the interception callback sees it.
#[derive(Clone, Copy, Debug, PartialEq, Eq, Structural)]
pub struct KeyEvent {
    pub event_type: u32,
    pub keycode: i64,
}

pub open spec fn is_trigger(e: KeyEvent) -> bool {
    e.event_type == KEY_DOWN_EVENT && e.keycode == TRIGGER_KEYCODE
}

/// What the callback does with one event.
#[derive(Clone, Copy, Debug, PartialEq, Eq, Structural)]
pub enum TapAction {
    /// Hand the event on unchanged.
    PassThrough,
    /// Deliver one notification with these bounds to the sink, move the
    /// overlay to their origin and show it, then swallow the event.
    NotifyAndSuppress(TextFieldBounds),
}

impl TapAction {
    pub open spec fn notification_spec(self) -> Option<TextFieldBounds> {
        match self {
            TapAction::PassThrough => None,
            TapAction::NotifyAndSuppress(b) => Some(b),
        }
    }

    /// Whether the event is kept from the focused application.
    pub fn suppresses(&self) -> (r: bool)
        ensures
            r == (*self is NotifyAndSuppress),
    {
        match self {
            TapAction::PassThrough => false,
            TapAction::NotifyAndSuppress(_) => true,
        }
    }

    /// The payload of the single notification to deliver, if any.
    pub fn notification(&self) -> (r: Option<TextFieldBounds>)
        ensures
            r == self.notification_spec(),
    {
        match self {
            TapAction::PassThrough => None,
            TapAction::NotifyAndSuppress(b) => Some(*b),
        }
    }

    /// Where the overlay is moved to, if it is shown.
    pub fn overlay_position(&self) -> (r: Option<(i64, i64)>)
        ensures
            r == (match self.notification_spec() {
                None => None,
                Some(b) => Some((b.x, b.y)),
            }),
    {
        match self {
            TapAction::PassThrough => None,
            TapAction::NotifyAndSuppress(b) => Some((b.x, b.y)),
        }
    }
}

/// Why monitoring could not start.
#[derive(Clone, Copy, Debug, PartialEq, Eq, Structural)]
pub enum MonitorError {
    /// The platform refused to create the interception point.
    PermissionDenied,
    /// A live interception point exists already.
    AlreadyMonitoring,
}

impl MonitorError {
    pub open spec fn message_spec(self) -> Seq<char> {
        match self {
            MonitorError::PermissionDenied => "Failed to create event tap: accessibility permission missing"@,
            MonitorError::AlreadyMonitoring => "Keystroke monitoring is already running"@,
        }
    }

    pub fn message(&self) -> (r: String)
        ensures
            r@ == self.message_spec(),
    {
        match self {
            MonitorError::PermissionDenied => "Failed to create event tap: accessibility permission missing".to_owned(),
            MonitorError::AlreadyMonitoring => "Keystroke monitoring is already running".to_owned(),
        }
    }
}

/// The monitoring state: Idle (no handle, no sink) or Monitoring (one live
/// interception handle and one registered sink). The handle is the address
/// of the platform's interception port.
pub struct Monitor<S> {
    tap: Option<usize>,
    sink: Option<S>,
}

impl<S> Monitor<S> {
    pub closed spec fn tap_spec(&self) -> Option<usize> {
        self.tap
    }

    pub closed spec fn sink_spec(&self) -> Option<S> {
        self.sink
    }

    /// Handle and sink are present together or not at all.
    pub open spec fn wf(&self) -> bool {
        self.tap_spec() is Some <==> self.sink_spec() is Some
    }

    pub open spec fn is_monitoring_spec(&self) -> bool {
        self.tap_spec() is Some
    }

    /// The state after a stop: Idle.
    pub closed spec fn stopped(self) -> Monitor<S> {
        Monitor { tap: None, sink: None }
    }

    /// The reaction to `e`, given the answer of the focus query (`None` when
    /// no query was made).
    pub open spec fn reaction(
        &self,
        e: KeyEvent,
        lookup: Option<Result<TextFieldBounds, InspectError>>,
    ) -> TapAction {
        if self.is_monitoring_spec() && is_trigger(e) {
            match lookup {
                Some(Ok(b)) => TapAction::NotifyAndSuppress(b),
                _ => TapAction::PassThrough,
            }
        } else {
            TapAction::PassThrough
        }
    }

    /// An Idle monitor.
    pub fn new() -> (r: Monitor<S>)
        ensures
            r.wf(),
            !r.is_monitoring_spec(),
            r.tap_spec() is None,
            r.sink_spec() is None,
    {
        Monitor { tap: None, sink: None }
    }

    pub fn is_monitoring(&self) -> (r: bool)
        ensures
            r == self.is_monitoring_spec(),
    {
        self.tap.is_some()
    }

    /// The registered notification sink, if monitoring.
    pub fn sink(&self) -> (r: Option<&S>)
        ensures
            r == (match self.sink_spec() {
                None => None,
                Some(s) => Some(&s),
            }),
    {
        match &self.sink {
            None => None,
            Some(s) => Some(s),
        }
    }

    /// Whether the callback must ask the focus inspector about `e`: only for
    /// the trigger key, and only while monitoring.
    pub fn wants_focus_query(&self, e: KeyEvent) -> (r: bool)
        ensures
            r == (self.is_monitoring_spec() && is_trigger(e)),
    {
        self.tap.is_some() && e.event_type == KEY_DOWN_EVENT && e.keycode == TRIGGER_KEYCODE
    }

    /// The decision of the interception callback for `e`.
    pub fn react(
        &self,
        e: KeyEvent,
        lookup: Option<Result<TextFieldBounds, InspectError>>,
    ) -> (r: TapAction)
        ensures
            r == self.reaction(e, lookup),
            !is_trigger(e) ==> r == TapAction::PassThrough,
            !self.is_monitoring_spec() ==> r == TapAction::PassThrough,
    {
        if !self.wants_focus_query(e) {
            return TapAction::PassThrough;
        }
        match lookup {
            Some(Ok(b)) => TapAction::NotifyAndSuppress(b),
            _ => TapAction::PassThrough,
        }
    }
}

/// Moves from Idle to Monitoring with `sink` and the interception handle
/// that the platform created (`None` when it refused). On any error the
/// state is unchanged; a handle that was created but not taken is the
/// caller's to release.
pub fn start_monitoring<S>(monitor: &mut Monitor<S>, sink: S, tap: Option<usize>) -> (r: Result<(), MonitorError>)
    requires
        old(monitor).wf(),
    ensures
        final(monitor).wf(),
        tap is None ==> r == Err::<(), MonitorError>(MonitorError::PermissionDenied),
        tap is Some && old(monitor).is_monitoring_spec() ==> r == Err::<(), MonitorError>(MonitorError::AlreadyMonitoring),
        r is Ok <==> tap is Some && !old(monitor).is_monitoring_spec(),
        r is Ok ==> final(monitor).tap_spec() == tap && final(monitor).sink_spec() == Some(sink),
        r is Err ==> *final(monitor) == *old(monitor),
{
    match tap {
        None => Err(MonitorError::PermissionDenied),
        Some(handle) => {
            if monitor.tap.is_some() {
                Err(MonitorError::AlreadyMonitoring)
            } else {
                monitor.tap = Some(handle);
                monitor.sink = Some(sink);
                Ok(())
            }
        },
    }
}

/// Moves to Idle. Returns the interception handle that the caller must
/// disable, exactly once: a second stop returns `None` and changes nothing.
pub fn stop_monitoring<S>(monitor: &mut Monitor<S>) -> (r: Option<usize>)
    ensures
        r == old(monitor).tap_spec(),
        *final(monitor) == old(monitor).stopped(),
        final(monitor).tap_spec() is None,
        final(monitor).sink_spec() is None,
        final(monitor).wf(),
        !final(monitor).is_monitoring_spec(),
{
    let released = monitor.tap.take();
    monitor.sink = None;
    released
}

/// A key other than the trigger is handed on unchanged, whatever the state
/// of the monitor and whatever a focus query answered.
pub proof fn non_trigger_keys_pass_through<S>(
    m: Monitor<S>,
    e: KeyEvent,
    lookup: Option<Result<TextFieldBounds, InspectError>>,
)
    requires
        !is_trigger(e),
    ensures
        m.reaction(e, lookup) == TapAction::PassThrough,
        m.reaction(e, lookup).notification_spec() is None,
{
}

/// The trigger key with no text input focused is handed on unchanged and
/// produces no notification.
pub proof fn trigger_without_text_focus_passes_through<S>(
    m: Monitor<S>,
    e: KeyEvent,
    focus: FocusProbe,
    cursor: CursorProbe,
)
    requires
        is_trigger(e),
        !text_input_focused(focus),
    ensures
        m.reaction(e, Some(focused_bounds_result(focus, cursor))) == TapAction::PassThrough,
        m.reaction(e, Some(focused_bounds_result(focus, cursor))).notification_spec() is None,
{
}

/// While monitoring, the trigger key with a text input focused is
/// swallowed, with exactly one notification whose bounds are the pointer in
/// top-left-origin coordinates (`y = screen height - pointer y`).
pub proof fn trigger_in_text_field_notifies_pointer<S>(
    m: Monitor<S>,
    e: KeyEvent,
    focus: FocusProbe,
    p: PointerLocation,
    screen: ScreenFrame,
)
    requires
        m.is_monitoring_spec(),
        is_trigger(e),
        text_input_focused(focus),
    ensures
        ({
            let a = m.reaction(
                e,
                Some(focused_bounds_result(focus, CursorProbe { pointer: Some(p), screen: Some(screen) })),
            );
            &&& a == TapAction::NotifyAndSuppress(pointer_anchor(p, screen))
            &&& a.notification_spec() == Some(pointer_anchor(p, screen))
            &&& a.notification_spec().unwrap().x == p.x
            &&& a.notification_spec().unwrap().y == screen.height - p.y
            &&& a.notification_spec().unwrap().width == 0
            &&& a.notification_spec().unwrap().height == 0
        }),
{
}

/// After a stop, no key event is swallowed and none is notified, whatever
/// its keycode and whatever a focus query would answer.
pub proof fn stopped_monitor_is_invisible<S>(
    m: Monitor<S>,
    e: KeyEvent,
    lookup: Option<Result<TextFieldBounds, InspectError>>,
)
    ensures
        m.stopped().reaction(e, lookup) == TapAction::PassThrough,
        m.stopped().reaction(e, lookup).notification_spec() is None,
{
}

/// A second stop releases no handle and leaves the state as the first one
/// left it.
pub proof fn stop_is_idempotent<S>(m: Monitor<S>)
    ensures
        m.stopped().stopped() == m.stopped(),
        m.stopped().tap_spec() is None,
        m.stopped().sink_spec() is None,
        m.stopped().wf(),
{
}

} // verus!
