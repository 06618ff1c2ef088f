//! The capture session: which phase of the workflow is active, the selection,
//! the captured image and the crop overlay.
//!
//! Each event the host reports is a method. What it does is stated by a spec
//! function from the session before to the session after, together with the
//! action that the host is asked to perform.
use vstd::prelude::*;
use crate::capture::CaptureBuffer;
use crate::geometry::{
    from_two_points, spec_from_two_points, MonitorFrame, Point, Rect, Size,
};
use crate::handle::{edge_at_drag_start, spec_edge_at_drag_start, ActiveEdge, EDGE_INSET};
use crate::keys::{Action, KeyBindings};
use crate::overlay::{clamp, spec_seed, CropOverlay};
use crate::transform::{
    centered_fits, fit_rect, spec_fit_rect, spec_uv_of, uv_of, UvRect,
};

verus! {

/// The phases of the capture workflow; exactly one is active.
#[derive(Clone, Copy, Debug, PartialEq, Eq, Structural)]
pub enum SessionPhase {
    Idle,
    ChoosingCaptureMode,
    DrawingSelection,
    AwaitingCapture,
    Editing,
    CroppingOverlay,
}

/// What the host is asked to do after an event.
#[derive(Clone, Copy, Debug, PartialEq, Eq, Structural)]
pub enum SessionAction {
    Nothing,
    /// Turn the window into the full-screen, see-through capture overlay and show it.
    ShowCaptureOverlay,
    /// Hide the window while a delayed capture counts down.
    HideWindow,
    /// Capture the monitor now and report the result.
    CaptureScreen,
    /// Give the window back its normal presentation.
    RestoreWindow,
    /// Save the selected part of the capture.
    Save,
    /// Put the selected part of the capture on the clipboard.
    CopyToClipboard,
}

/// Why the capture backend could not deliver an image.
#[derive(Clone, Copy, Debug, PartialEq, Eq, Structural)]
pub enum CaptureFailure {
    /// The backend could not be reached or failed while capturing.
    BackendUnavailable,
    /// The backend found no monitor to capture.
    NoMonitor,
}

/// The session: its phase, the monitor it captures, the selection being drawn
/// from `anchor` and the committed `region` (both in monitor space), the captured
/// image, the crop overlay with the edge being dragged, and the time (in
/// milliseconds) at which a delayed capture begins.
#[derive(Clone, Debug)]
pub struct CaptureSession {
    pub phase: SessionPhase,
    pub monitor: MonitorFrame,
    pub anchor: Point,
    pub region: Rect,
    pub capture: Option<CaptureBuffer>,
    pub overlay: Option<CropOverlay>,
    pub edge: ActiveEdge,
    pub deadline: Option<u64>,
}

pub open spec fn zero_rect() -> Rect {
    Rect { min: Point { x: 0, y: 0 }, max: Point { x: 0, y: 0 } }
}

/// A point moved onto the monitor.
pub open spec fn clamp_to_monitor(p: Point, m: MonitorFrame) -> Point {
    Point { x: clamp(p.x as int, 0, m.width as int) as i32, y: clamp(p.y as int, 0, m.height as int) as i32 }
}

/// The moment `delay_secs` seconds after `now_ms`, saturating at the largest time.
pub open spec fn deadline_after(now_ms: u64, delay_secs: u64) -> u64 {
    if now_ms + delay_secs * 1000 > u64::MAX {
        u64::MAX
    } else {
        (now_ms + delay_secs * 1000) as u64
    }
}

impl CaptureSession {
    /// The monitor is usable, the selection lies on it, a captured image is well
    /// formed, and editing and cropping always have a capture to work on. An
    /// overlay exists only while cropping and stays inside its display rectangle,
    /// and an edge is held only while there is an overlay.
    pub open spec fn wf(self) -> bool {
        &&& self.monitor.is_usable()
        &&& self.region.is_normalized()
        &&& self.monitor.spec_rect().spec_contains_rect(self.region)
        &&& self.monitor.spec_rect().spec_contains(self.anchor)
        &&& (self.capture matches Some(c) ==> c.wf())
        &&& (self.overlay matches Some(o) ==> o.wf() && self.phase == SessionPhase::CroppingOverlay)
        &&& (self.edge != ActiveEdge::NoEdge ==> self.overlay is Some)
        &&& (self.phase == SessionPhase::Editing || self.phase == SessionPhase::CroppingOverlay
            ==> self.capture is Some)
    }

    /// Idle or editing: the phases from which a new capture can start.
    pub open spec fn at_rest(self) -> bool {
        self.phase == SessionPhase::Idle || self.phase == SessionPhase::Editing
    }

    pub open spec fn in_phase(self, phase: SessionPhase) -> CaptureSession {
        CaptureSession { phase, ..self }
    }

    pub open spec fn with_region(self, region: Rect) -> CaptureSession {
        CaptureSession { region, ..self }
    }

    /// Back to choosing a capture mode for a new capture: the selection is
    /// discarded, and any overlay, dragged edge and pending countdown with it.
    pub open spec fn restarted(self) -> CaptureSession {
        CaptureSession {
            phase: SessionPhase::ChoosingCaptureMode,
            region: zero_rect(),
            overlay: None,
            edge: ActiveEdge::NoEdge,
            deadline: None,
            ..self
        }
    }

    /// Leaves crop editing for plain editing, with the given selection.
    pub open spec fn back_to_editing(self, region: Rect) -> CaptureSession {
        CaptureSession {
            phase: SessionPhase::Editing,
            region,
            overlay: None,
            edge: ActiveEdge::NoEdge,
            ..self
        }
    }

    pub open spec fn after_request_new_capture(self) -> (CaptureSession, SessionAction) {
        if self.at_rest() {
            (self.restarted(), SessionAction::ShowCaptureOverlay)
        } else {
            (self, SessionAction::Nothing)
        }
    }

    pub open spec fn after_schedule_capture(self, now_ms: u64, delay_secs: u64) -> (
        CaptureSession,
        SessionAction,
    ) {
        if !self.at_rest() {
            (self, SessionAction::Nothing)
        } else if delay_secs == 0 {
            (self.restarted(), SessionAction::ShowCaptureOverlay)
        } else {
            (
                CaptureSession { deadline: Some(deadline_after(now_ms, delay_secs)), ..self },
                SessionAction::HideWindow,
            )
        }
    }

    pub open spec fn after_tick(self, now_ms: u64) -> (CaptureSession, SessionAction) {
        if self.phase == SessionPhase::AwaitingCapture {
            (self, SessionAction::CaptureScreen)
        } else if self.at_rest() && self.deadline is Some && now_ms >= self.deadline->0 {
            (self.restarted(), SessionAction::ShowCaptureOverlay)
        } else {
            (self, SessionAction::Nothing)
        }
    }

    pub open spec fn after_full_screen(self) -> (CaptureSession, SessionAction) {
        if self.phase == SessionPhase::ChoosingCaptureMode {
            (
                self.with_region(self.monitor.spec_rect()).in_phase(SessionPhase::AwaitingCapture),
                SessionAction::Nothing,
            )
        } else if self.at_rest() {
            (
                self.restarted().with_region(self.monitor.spec_rect()).in_phase(
                    SessionPhase::AwaitingCapture,
                ),
                SessionAction::ShowCaptureOverlay,
            )
        } else {
            (self, SessionAction::Nothing)
        }
    }

    pub open spec fn after_begin_selection(self, pointer: Point) -> CaptureSession {
        if self.phase == SessionPhase::ChoosingCaptureMode {
            CaptureSession {
                phase: SessionPhase::DrawingSelection,
                anchor: clamp_to_monitor(pointer, self.monitor),
                ..self
            }
        } else {
            self
        }
    }

    pub open spec fn after_finish_selection(self, pointer: Point) -> CaptureSession {
        let p = clamp_to_monitor(pointer, self.monitor);
        if self.phase != SessionPhase::DrawingSelection {
            self
        } else if p == self.anchor {
            self.with_region(zero_rect()).in_phase(SessionPhase::ChoosingCaptureMode)
        } else {
            self.with_region(spec_from_two_points(self.anchor, p)).in_phase(
                SessionPhase::AwaitingCapture,
            )
        }
    }

    pub open spec fn after_capture(self, result: Result<CaptureBuffer, CaptureFailure>) -> (
        CaptureSession,
        SessionAction,
    ) {
        if self.phase != SessionPhase::AwaitingCapture {
            (self, SessionAction::Nothing)
        } else {
            match result {
                Ok(buffer) => (
                    CaptureSession {
                        phase: SessionPhase::Editing,
                        capture: Some(buffer),
                        ..self
                    },
                    SessionAction::RestoreWindow,
                ),
                Err(_) => (
                    self.with_region(zero_rect()).in_phase(SessionPhase::ChoosingCaptureMode),
                    SessionAction::Nothing,
                ),
            }
        }
    }

    pub open spec fn after_crop_request(self) -> CaptureSession {
        if self.phase == SessionPhase::Editing && self.capture is Some {
            CaptureSession {
                phase: SessionPhase::CroppingOverlay,
                overlay: None,
                edge: ActiveEdge::NoEdge,
                ..self
            }
        } else {
            self
        }
    }

    pub open spec fn after_layout_crop(self, display: Rect) -> CaptureSession {
        if self.phase == SessionPhase::CroppingOverlay && self.overlay is None
            && display.is_normalized() && display.spec_width() >= 1 {
            CaptureSession {
                overlay: Some(spec_seed(self.region, self.monitor, display)),
                ..self
            }
        } else {
            self
        }
    }

    pub open spec fn after_cancel_crop(self) -> CaptureSession {
        if self.phase == SessionPhase::CroppingOverlay {
            self.back_to_editing(self.region)
        } else {
            self
        }
    }

    pub open spec fn after_confirm_crop(self) -> CaptureSession {
        if self.phase != SessionPhase::CroppingOverlay {
            self
        } else {
            match self.overlay {
                Some(o) => self.back_to_editing(o.spec_confirmed_region(self.monitor)),
                None => self.back_to_editing(self.region),
            }
        }
    }

    pub open spec fn after_edge_drag_start(self, pointer: Point) -> CaptureSession {
        match self.overlay {
            Some(o) => CaptureSession {
                edge: spec_edge_at_drag_start(pointer, o.spec_outline(), EDGE_INSET as int),
                ..self
            },
            None => self,
        }
    }

    pub open spec fn after_edge_drag(self, dx: i32, dy: i32) -> CaptureSession {
        match self.overlay {
            Some(o) => CaptureSession { overlay: Some(o.resized(self.edge, dx, dy)), ..self },
            None => self,
        }
    }

    pub open spec fn after_edge_drag_end(self) -> CaptureSession {
        CaptureSession { edge: ActiveEdge::NoEdge, ..self }
    }

    pub open spec fn after_shortcut(self, a: Action) -> (CaptureSession, SessionAction) {
        match a {
            Action::Save => (
                self,
                if self.phase == SessionPhase::Editing {
                    SessionAction::Save
                } else {
                    SessionAction::Nothing
                },
            ),
            Action::Clipboard => (
                self,
                if self.phase == SessionPhase::Editing {
                    SessionAction::CopyToClipboard
                } else {
                    SessionAction::Nothing
                },
            ),
            Action::Cancel => (self.after_cancel_crop(), SessionAction::Nothing),
            Action::Fullscreen => if self.at_rest() {
                self.after_full_screen()
            } else {
                (self, SessionAction::Nothing)
            },
            Action::New => self.after_request_new_capture(),
            Action::Crop => (self.after_crop_request(), SessionAction::Nothing),
        }
    }

    /// A session for a monitor, with nothing selected or captured yet.
    pub fn new(monitor: MonitorFrame) -> (s: CaptureSession)
        requires
            monitor.is_usable(),
        ensures
            s.wf(),
            s.phase == SessionPhase::Idle,
            s.monitor == monitor,
            s.region == zero_rect(),
            s.anchor == (Point { x: 0, y: 0 }),
            s.capture is None,
            s.overlay is None,
            s.edge == ActiveEdge::NoEdge,
            s.deadline is None,
    {
        CaptureSession {
            phase: SessionPhase::Idle,
            monitor,
            anchor: Point { x: 0, y: 0 },
            region: Rect::zero(),
            capture: None,
            overlay: None,
            edge: ActiveEdge::NoEdge,
            deadline: None,
        }
    }

    fn restart(&mut self)
        requires
            old(self).wf(),
        ensures
            *final(self) == old(self).restarted(),
            final(self).wf(),
    {
        self.phase = SessionPhase::ChoosingCaptureMode;
        self.region = Rect::zero();
        self.overlay = None;
        self.edge = ActiveEdge::NoEdge;
        self.deadline = None;
    }

    /// The user asks for a new capture now.
    pub fn request_new_capture(&mut self) -> (a: SessionAction)
        requires
            old(self).wf(),
        ensures
            (*final(self), a) == old(self).after_request_new_capture(),
            final(self).wf(),
    {
        if self.phase == SessionPhase::Idle || self.phase == SessionPhase::Editing {
            self.restart();
            SessionAction::ShowCaptureOverlay
        } else {
            SessionAction::Nothing
        }
    }

    /// The user asks for a new capture `delay_secs` seconds from `now_ms`. The
    /// countdown is a deadline that `tick` checks; nothing here waits.
    pub fn schedule_capture(&mut self, now_ms: u64, delay_secs: u64) -> (a: SessionAction)
        requires
            old(self).wf(),
        ensures
            (*final(self), a) == old(self).after_schedule_capture(now_ms, delay_secs),
            final(self).wf(),
    {
        if !(self.phase == SessionPhase::Idle || self.phase == SessionPhase::Editing) {
            SessionAction::Nothing
        } else if delay_secs == 0 {
            self.restart();
            SessionAction::ShowCaptureOverlay
        } else {
            let t: u128 = now_ms as u128 + delay_secs as u128 * 1000;
            let deadline = if t > u64::MAX as u128 {
                u64::MAX
            } else {
                t as u64
            };
            self.deadline = Some(deadline);
            SessionAction::HideWindow
        }
    }

    /// One frame at time `now_ms`: asks for the capture one frame after it became
    /// pending, and starts a scheduled capture once its deadline has come.
    pub fn tick(&mut self, now_ms: u64) -> (a: SessionAction)
        requires
            old(self).wf(),
        ensures
            (*final(self), a) == old(self).after_tick(now_ms),
            final(self).wf(),
    {
        if self.phase == SessionPhase::AwaitingCapture {
            return SessionAction::CaptureScreen;
        }
        let due = match self.deadline {
            Some(t) => now_ms >= t,
            None => false,
        };
        if (self.phase == SessionPhase::Idle || self.phase == SessionPhase::Editing) && due {
            self.restart();
            SessionAction::ShowCaptureOverlay
        } else {
            SessionAction::Nothing
        }
    }

    /// Whole seconds, rounded up, until a scheduled capture begins.
    pub fn seconds_left(&self, now_ms: u64) -> (r: Option<u64>)
        ensures
            r == (match self.deadline {
                Some(t) => Some(
                    if t > now_ms {
                        ((t - now_ms + 999) / 1000) as u64
                    } else {
                        0u64
                    },
                ),
                None => None,
            }),
    {
        match self.deadline {
            Some(t) => Some(
                if t > now_ms {
                    (((t - now_ms) as u128 + 999) / 1000) as u64
                } else {
                    0
                },
            ),
            None => None,
        }
    }

    /// The user picks a full-screen capture: the selection becomes the whole
    /// monitor and the capture is pending. From rest it starts a new capture first.
    pub fn handle_fullscreen_capture(&mut self) -> (a: SessionAction)
        requires
            old(self).wf(),
        ensures
            (*final(self), a) == old(self).after_full_screen(),
            final(self).wf(),
    {
        if self.phase == SessionPhase::ChoosingCaptureMode {
            self.region = self.monitor.rect();
            self.phase = SessionPhase::AwaitingCapture;
            SessionAction::Nothing
        } else if self.phase == SessionPhase::Idle || self.phase == SessionPhase::Editing {
            self.restart();
            self.region = self.monitor.rect();
            self.phase = SessionPhase::AwaitingCapture;
            SessionAction::ShowCaptureOverlay
        } else {
            SessionAction::Nothing
        }
    }

    fn clamp_to_monitor(&self, p: Point) -> (q: Point)
        ensures
            q == clamp_to_monitor(p, self.monitor),
    {
        let w = self.monitor.width as i32;
        let h = self.monitor.height as i32;
        Point {
            x: if p.x < 0 { 0 } else if p.x > w { w } else { p.x },
            y: if p.y < 0 { 0 } else if p.y > h { h } else { p.y },
        }
    }

    /// The primary button goes down while a capture mode is chosen: the selection
    /// starts at the pointer.
    pub fn begin_selection(&mut self, pointer: Point)
        requires
            old(self).wf(),
        ensures
            *final(self) == old(self).after_begin_selection(pointer),
            final(self).wf(),
    {
        if self.phase == SessionPhase::ChoosingCaptureMode {
            self.anchor = self.clamp_to_monitor(pointer);
            self.phase = SessionPhase::DrawingSelection;
        }
    }

    /// The rectangle shown while the selection is dragged, from its start to the
    /// pointer; nothing is committed.
    pub fn selection_preview(&self, pointer: Point) -> (r: Rect)
        ensures
            r == spec_from_two_points(self.anchor, clamp_to_monitor(pointer, self.monitor)),
    {
        from_two_points(self.anchor, self.clamp_to_monitor(pointer))
    }

    /// The primary button is released while the selection is drawn. Released where
    /// it went down, the selection is discarded and a capture mode is chosen again;
    /// elsewhere the selection is committed and the capture is pending.
    pub fn finish_selection(&mut self, pointer: Point)
        requires
            old(self).wf(),
        ensures
            *final(self) == old(self).after_finish_selection(pointer),
            final(self).wf(),
    {
        if self.phase != SessionPhase::DrawingSelection {
            return;
        }
        let p = self.clamp_to_monitor(pointer);
        if p == self.anchor {
            self.region = Rect::zero();
            self.phase = SessionPhase::ChoosingCaptureMode;
        } else {
            self.region = from_two_points(self.anchor, p);
            self.phase = SessionPhase::AwaitingCapture;
        }
    }

    /// The capture backend has answered. An image is kept and editing begins; a
    /// failure goes back to choosing a capture mode.
    pub fn capture_finished(&mut self, result: Result<CaptureBuffer, CaptureFailure>) -> (a:
        SessionAction)
        requires
            old(self).wf(),
            result matches Ok(b) ==> b.wf(),
        ensures
            (*final(self), a) == old(self).after_capture(result),
            final(self).wf(),
    {
        if self.phase != SessionPhase::AwaitingCapture {
            return SessionAction::Nothing;
        }
        match result {
            Ok(buffer) => {
                self.capture = Some(buffer);
                self.phase = SessionPhase::Editing;
                SessionAction::RestoreWindow
            },
            Err(_) => {
                self.region = Rect::zero();
                self.phase = SessionPhase::ChoosingCaptureMode;
                SessionAction::Nothing
            },
        }
    }

    /// The user asks to crop: crop editing begins, with the overlay placed on the
    /// first layout. Returns whether it began.
    pub fn handle_crop_request(&mut self) -> (started: bool)
        requires
            old(self).wf(),
        ensures
            *final(self) == old(self).after_crop_request(),
            started == (final(self).phase == SessionPhase::CroppingOverlay && old(self).phase
                == SessionPhase::Editing),
            final(self).wf(),
    {
        if self.phase == SessionPhase::Editing && self.capture.is_some() {
            self.phase = SessionPhase::CroppingOverlay;
            self.overlay = None;
            self.edge = ActiveEdge::NoEdge;
            true
        } else {
            false
        }
    }

    /// Lays out crop editing with the capture drawn in `display`. The first layout
    /// places the overlay on the selection's projection into `display`, and fixes
    /// the shrink factor; later ones change nothing.
    pub fn layout_crop(&mut self, display: &Rect)
        requires
            old(self).wf(),
        ensures
            *final(self) == old(self).after_layout_crop(*display),
            final(self).wf(),
    {
        if self.phase == SessionPhase::CroppingOverlay && self.overlay.is_none()
            && display.min.x <= display.max.x && display.min.y <= display.max.y
            && display.min.x < display.max.x {
            self.overlay = Some(CropOverlay::seed(&self.region, self.monitor, display));
        }
    }

    /// The user cancels crop editing; the selection stays as it was.
    pub fn cancel_crop(&mut self)
        requires
            old(self).wf(),
        ensures
            *final(self) == old(self).after_cancel_crop(),
            final(self).wf(),
    {
        if self.phase == SessionPhase::CroppingOverlay {
            self.phase = SessionPhase::Editing;
            self.overlay = None;
            self.edge = ActiveEdge::NoEdge;
        }
    }

    /// The user confirms crop editing: the overlay, mapped back to monitor space,
    /// becomes the selection.
    pub fn confirm_crop(&mut self)
        requires
            old(self).wf(),
        ensures
            *final(self) == old(self).after_confirm_crop(),
            final(self).wf(),
    {
        if self.phase != SessionPhase::CroppingOverlay {
            return;
        }
        if let Some(o) = self.overlay {
            self.region = o.confirmed_region(self.monitor);
        }
        self.phase = SessionPhase::Editing;
        self.overlay = None;
        self.edge = ActiveEdge::NoEdge;
    }

    /// One frame of the overlay's drag gesture: a drag that starts at `started_at`
    /// takes hold of the edge there, the frame's movement `(dx, dy)` is applied to
    /// the edge held, and a release lets it go.
    pub fn drag(&mut self, started_at: Option<Point>, dx: i32, dy: i32, released: bool)
        requires
            old(self).wf(),
        ensures
            ({
                let held = match started_at {
                    Some(p) => old(self).after_edge_drag_start(p),
                    None => *old(self),
                };
                let moved = held.after_edge_drag(dx, dy);
                *final(self) == if released {
                    moved.after_edge_drag_end()
                } else {
                    moved
                }
            }),
            final(self).wf(),
    {
        if let Some(o) = self.overlay {
            if let Some(p) = started_at {
                self.edge = edge_at_drag_start(p, &o.outline(), EDGE_INSET);
            }
            let mut next = o;
            next.resize(self.edge, dx, dy);
            self.overlay = Some(next);
        }
        if released {
            self.edge = ActiveEdge::NoEdge;
        }
    }

    /// Acts on an action's shortcut.
    pub fn apply_shortcut(&mut self, action: Action) -> (a: SessionAction)
        requires
            old(self).wf(),
        ensures
            (*final(self), a) == old(self).after_shortcut(action),
            final(self).wf(),
    {
        match action {
            Action::Save => if self.phase == SessionPhase::Editing {
                SessionAction::Save
            } else {
                SessionAction::Nothing
            },
            Action::Clipboard => if self.phase == SessionPhase::Editing {
                SessionAction::CopyToClipboard
            } else {
                SessionAction::Nothing
            },
            Action::Cancel => {
                self.cancel_crop();
                SessionAction::Nothing
            },
            Action::Fullscreen => if self.phase == SessionPhase::Idle || self.phase
                == SessionPhase::Editing {
                self.handle_fullscreen_capture()
            } else {
                SessionAction::Nothing
            },
            Action::New => self.request_new_capture(),
            Action::Crop => {
                self.handle_crop_request();
                SessionAction::Nothing
            },
        }
    }

    /// A key event: a fresh Ctrl press of a bound key acts on its action; any other
    /// event changes nothing.
    pub fn check_shortcut_press(
        &mut self,
        bindings: &KeyBindings,
        key: crate::keys::Key,
        pressed: bool,
        repeat: bool,
        ctrl: bool,
    ) -> (a: SessionAction)
        requires
            old(self).wf(),
        ensures
            (*final(self), a) == (match bindings.spec_action_for(key, pressed, repeat, ctrl) {
                Some(action) => old(self).after_shortcut(action),
                None => (*old(self), SessionAction::Nothing),
            }),
            final(self).wf(),
    {
        match bindings.action_for(key, pressed, repeat, ctrl) {
            Some(action) => self.apply_shortcut(action),
            None => SessionAction::Nothing,
        }
    }

    /// The selection in texture coordinates of the capture.
    pub fn calculate_uv(&self) -> (t: UvRect)
        requires
            self.wf(),
        ensures
            t == spec_uv_of(self.region, self.monitor),
            t.in_unit_square(),
    {
        uv_of(&self.region, self.monitor)
    }

    /// Where the selected part of the capture is drawn inside `avail`: at its own
    /// size centred on the monitor's centre, or scaled down to fit. `None` where
    /// `avail` is not normalized or is too large for the coordinate range.
    pub fn calculate_space(&self, avail: &Rect) -> (r: Option<Rect>)
        requires
            self.wf(),
        ensures
            r is Some <==> avail.is_normalized() && centered_fits(
                self.monitor.width as int / 2,
                avail.spec_width(),
            ) && centered_fits(self.monitor.height as int / 2, avail.spec_height()),
            r matches Some(space) ==> space == spec_fit_rect(
                *avail,
                Size {
                    width: self.region.spec_width() as u32,
                    height: self.region.spec_height() as u32,
                },
                Point { x: (self.monitor.width / 2) as i32, y: (self.monitor.height / 2) as i32 },
            ),
    {
        if !(avail.min.x <= avail.max.x && avail.min.y <= avail.max.y) {
            return None;
        }
        let cx = (self.monitor.width / 2) as i64;
        let cy = (self.monitor.height / 2) as i64;
        let w = avail.width() as i64;
        let h = avail.height() as i64;
        let lo = i32::MIN as i64;
        let hi = i32::MAX as i64;
        if cx - w / 2 < lo || cx - w / 2 + w > hi || cy - h / 2 < lo || cy - h / 2 + h > hi {
            return None;
        }
        let anchor = Point { x: cx as i32, y: cy as i32 };
        Some(fit_rect(avail, self.region.size(), anchor))
    }

    /// The selected part of the capture, while editing.
    pub fn crop_image(&self) -> (r: Option<CaptureBuffer>)
        requires
            self.wf(),
        ensures
            (r is Some) == (self.phase == SessionPhase::Editing),
            r matches Some(b) ==> b.wf() && self.capture->0.is_crop(b, self.region, self.monitor),
    {
        if self.phase != SessionPhase::Editing {
            return None;
        }
        match &self.capture {
            Some(c) => Some(c.crop(&self.region, self.monitor)),
            None => None,
        }
    }
}

/// Outside crop editing there is no overlay and no edge is held: every way back
/// to choosing a capture mode or to editing drops the drag state.
pub proof fn no_drag_state_outside_cropping(s: CaptureSession)
    requires
        s.wf(),
        s.phase != SessionPhase::CroppingOverlay,
    ensures
        s.overlay is None,
        s.edge == ActiveEdge::NoEdge,
{
}

} // verus!
