//! Window geometry: which geometry is worth keeping, what is restored at
//! start, and when a change is written (once the window has been quiet for a
//! while, never while the start-up restore runs, and at once on a close that
//! ends the application).
use vstd::prelude::*;

verus! {

/// Quiet period after the last geometry change before the geometry is written.
pub const DEBOUNCE_MS: u64 = 2000;

pub const MIN_WIDTH: u32 = 400;
pub const MAX_WIDTH: u32 = 4000;
pub const MIN_HEIGHT: u32 = 400;
pub const MAX_HEIGHT: u32 = 3000;

/// Position and size of the main window, in physical pixels.
#[derive(PartialEq, Eq, Structural, Clone, Copy, Debug)]
pub struct WindowState {
    pub x: i32,
    pub y: i32,
    pub width: u32,
    pub height: u32,
    pub maximized: bool,
}

/// The geometry used where none can be trusted.
pub open spec fn default_window_state() -> WindowState {
    WindowState { x: 100, y: 100, width: 800, height: 600, maximized: false }
}

impl Default for WindowState {
    fn default() -> (r: WindowState)
        ensures
            r == default_window_state(),
    {
        WindowState { x: 100, y: 100, width: 800, height: 600, maximized: false }
    }
}

impl WindowState {
    /// On screen (not parked far away, as a hidden window is) and of a
    /// reasonable size; the size bounds are inclusive.
    pub open spec fn valid(&self) -> bool {
        &&& -1000 < self.x < 10000
        &&& -1000 < self.y < 10000
        &&& MIN_WIDTH <= self.width <= MAX_WIDTH
        &&& MIN_HEIGHT <= self.height <= MAX_HEIGHT
    }

    pub fn is_valid(&self) -> (r: bool)
        ensures
            r == self.valid(),
    {
        let position_valid = self.x > -1000 && self.x < 10000 && self.y > -1000 && self.y < 10000;
        let size_valid = self.width >= MIN_WIDTH && self.width <= MAX_WIDTH && self.height
            >= MIN_HEIGHT && self.height <= MAX_HEIGHT;
        position_valid && size_valid
    }
}

/// Writes `state` over the saved geometry `saved` where it is valid; an invalid
/// geometry leaves what was saved untouched. Returns whether it wrote.
pub fn save_window_state(state: WindowState, saved: &mut Option<WindowState>) -> (wrote: bool)
    ensures
        wrote == state.valid(),
        wrote ==> *final(saved) == Some(state),
        !wrote ==> *final(saved) == *old(saved),
{
    if !state.is_valid() {
        return false;
    }
    *saved = Some(state);
    true
}

/// The geometry to restore at start from what was saved: the default where
/// nothing was saved, it could not be read, or it is not valid.
pub fn load_window_state(saved: Option<WindowState>) -> (r: WindowState)
    ensures
        r.valid(),
        match saved {
            Some(s) => r == if s.valid() {
                s
            } else {
                default_window_state()
            },
            None => r == default_window_state(),
        },
{
    match saved {
        Some(s) => if s.is_valid() {
            s
        } else {
            WindowState::default()
        },
        None => WindowState::default(),
    }
}

/// What a close request of the main window leads to.
#[derive(PartialEq, Eq, Structural, Clone, Copy, Debug)]
pub enum CloseAction {
    /// Keep the application: hide the window in the tray, write nothing.
    HideToTray,
    /// Write the current geometry at once, then let the window close.
    SaveThenClose,
}

/// The state of the save discipline, as values: whether the geometry of the
/// last session is being restored, and the one pending save (when it comes
/// due, and the geometry it writes).
pub struct PersisterView {
    pub restoring: bool,
    pub pending: Option<(u64, WindowState)>,
}

/// When a save scheduled at `now` comes due: a quiet period later.
pub open spec fn due_after(now: u64) -> u64 {
    if now <= u64::MAX - DEBOUNCE_MS {
        (now + DEBOUNCE_MS) as u64
    } else {
        u64::MAX
    }
}

/// After a resize or a move at `now` to geometry `g`: any pending save is
/// superseded by one of `g`, due a quiet period later.
pub open spec fn scheduled(v: PersisterView, now: u64, g: WindowState) -> PersisterView {
    PersisterView { restoring: v.restoring, pending: Some((due_after(now), g)) }
}

/// A timer firing at `now`: the state after it, and the geometry to write.
/// A due save is taken off, and written unless the restore still runs.
pub open spec fn fired(v: PersisterView, now: u64) -> (PersisterView, Option<WindowState>) {
    match v.pending {
        Some(p) => if now >= p.0 {
            (
                PersisterView { restoring: v.restoring, pending: None },
                if v.restoring {
                    None
                } else {
                    Some(p.1)
                },
            )
        } else {
            (v, None)
        },
        None => (v, None),
    }
}

/// The save discipline of the main window: a guard that holds while the
/// geometry of the last session is being restored, and the one pending save.
pub struct WindowPersister {
    restoring: bool,
    pending: Option<(u64, WindowState)>,
}

impl View for WindowPersister {
    type V = PersisterView;

    closed spec fn view(&self) -> PersisterView {
        PersisterView { restoring: self.restoring, pending: self.pending }
    }
}

impl WindowPersister {
    /// A persister at start: restoring, with no save pending.
    pub fn new() -> (r: WindowPersister)
        ensures
            r@.restoring,
            r@.pending.is_none(),
    {
        WindowPersister { restoring: true, pending: None }
    }

    pub fn is_restoring(&self) -> (r: bool)
        ensures
            r == self@.restoring,
    {
        self.restoring
    }

    /// The start-up restore is over: changes are saved from now on.
    pub fn finish_restore(&mut self)
        ensures
            !final(self)@.restoring,
            final(self)@.pending == old(self)@.pending,
    {
        self.restoring = false;
    }

    /// A resize or a move at `now_ms` to `geometry`. Returns when the save
    /// that supersedes any pending one comes due.
    pub fn schedule_save(&mut self, now_ms: u64, geometry: WindowState) -> (due: u64)
        ensures
            due == due_after(now_ms),
            final(self)@ == scheduled(old(self)@, now_ms, geometry),
    {
        let due = now_ms.saturating_add(DEBOUNCE_MS);
        self.pending = Some((due, geometry));
        due
    }

    /// A timer fired at `now_ms`: the geometry to write, if a save is due and
    /// the restore is over. A timer of a superseded save finds nothing due.
    pub fn save_due(&mut self, now_ms: u64) -> (save: Option<WindowState>)
        ensures
            (final(self)@, save) == fired(old(self)@, now_ms),
    {
        match self.pending {
            Some(p) => if now_ms >= p.0 {
                self.pending = None;
                if self.restoring {
                    None
                } else {
                    Some(p.1)
                }
            } else {
                None
            },
            None => None,
        }
    }

    /// A close request: with a tray the window is only hidden; without one the
    /// geometry is written at once, since no later timer will.
    pub fn on_close_requested(&self, tray_enabled: bool) -> (r: CloseAction)
        ensures
            tray_enabled ==> r == CloseAction::HideToTray,
            !tray_enabled ==> r == CloseAction::SaveThenClose,
    {
        if tray_enabled {
            CloseAction::HideToTray
        } else {
            CloseAction::SaveThenClose
        }
    }
}

/// Three changes, each later than the one before by less than a quiet period, once
/// the restore is over: no timer writes before the third change has been
/// quiet for a whole period; then the geometry of the third change is written,
/// once, and nothing is left pending. The timers of the three changes, firing
/// in turn, give exactly that one write.
pub proof fn lemma_burst_writes_last(
    v: PersisterView,
    t1: u64,
    t2: u64,
    t3: u64,
    g1: WindowState,
    g2: WindowState,
    g3: WindowState,
)
    requires
        !v.restoring,
        t1 < t2 < t3,
        t2 - t1 < DEBOUNCE_MS,
        t3 - t2 < DEBOUNCE_MS,
        t3 <= u64::MAX - DEBOUNCE_MS,
    ensures
        ({
            let burst = scheduled(scheduled(scheduled(v, t1, g1), t2, g2), t3, g3);
            let first = fired(burst, due_after(t1));
            let second = fired(first.0, due_after(t2));
            let third = fired(second.0, due_after(t3));
            &&& forall|t: u64| t < due_after(t3) ==> (#[trigger] fired(burst, t)).1.is_none()
            &&& first.1.is_none()
            &&& second.1.is_none()
            &&& third.1 == Some(g3)
            &&& third.0.pending.is_none()
        }),
{
}

} // verus!
