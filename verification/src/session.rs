//! The terminal-mode lifecycle: raw input mode and the alternate screen
//! buffer form a process-wide resource that must be acquired once at
//! startup, held for the whole loop, and released on every exit path. This
//! module keeps the ledger of that resource and proves the discipline: a
//! complete run leaves the terminal restored whether the loop ended in a
//! normal quit, in a failure, or never started because setup failed.

use vstd::prelude::*;

use crate::input::Input;
use crate::state::App;
use crate::state::init_model;
use crate::state::run_script;
use crate::state::steps;

verus! {

/// The model of the terminal-mode resource: which of its two halves are
/// currently held.
pub struct SessionView {
    pub raw_mode: bool,
    pub alt_screen: bool,
}

impl SessionView {
    /// Neither half is held: the terminal is in its original mode.
    pub open spec fn inactive(self) -> bool {
        !self.raw_mode && !self.alt_screen
    }

    /// Both halves are held: the state required throughout the loop.
    pub open spec fn active(self) -> bool {
        self.raw_mode && self.alt_screen
    }
}

/// The ledger of the terminal-mode resource. The binary flips it in step
/// with the real terminal calls; the contracts force the acquire/release
/// discipline onto every caller.
pub struct Session {
    raw_mode: bool,
    alt_screen: bool,
}

impl View for Session {
    type V = SessionView;

    closed spec fn view(&self) -> SessionView {
        SessionView { raw_mode: self.raw_mode, alt_screen: self.alt_screen }
    }
}

impl Session {
    /// Before startup the terminal mode is inactive.
    pub fn new() -> (s: Session)
        ensures
            s@.inactive(),
    {
        Session { raw_mode: false, alt_screen: false }
    }

    /// Acquire raw input mode, the first half of startup.
    pub fn enable_raw_mode(&mut self)
        requires
            old(self)@.inactive(),
        ensures
            final(self)@.raw_mode,
            !final(self)@.alt_screen,
    {
        self.raw_mode = true;
    }

    /// Switch to the alternate screen buffer, the second half of startup.
    pub fn enter_alt_screen(&mut self)
        requires
            old(self)@.raw_mode,
            !old(self)@.alt_screen,
        ensures
            final(self)@.active(),
    {
        self.alt_screen = true;
    }

    /// Leave the alternate screen buffer. Release is unconditional: it must
    /// be possible on every exit path, whatever was acquired.
    pub fn leave_alt_screen(&mut self)
        ensures
            !final(self)@.alt_screen,
            final(self)@.raw_mode == old(self)@.raw_mode,
    {
        self.alt_screen = false;
    }

    /// Disable raw input mode. Release is unconditional.
    pub fn disable_raw_mode(&mut self)
        ensures
            !final(self)@.raw_mode,
            final(self)@.alt_screen == old(self)@.alt_screen,
    {
        self.raw_mode = false;
    }

    /// Whether both halves of the terminal mode are held.
    pub fn is_active(&self) -> (b: bool)
        ensures
            b == self@.active(),
    {
        self.raw_mode && self.alt_screen
    }

    /// Whether the terminal is in its original mode.
    pub fn is_inactive(&self) -> (b: bool)
        ensures
            b == self@.inactive(),
    {
        !self.raw_mode && !self.alt_screen
    }
}

/// What a complete run leaves behind: the terminal-mode ledger, the final
/// controller state, and whether startup succeeded.
pub struct RunReport {
    pub session: Session,
    pub app: App,
    pub setup_ok: bool,
}

/// One complete scripted run of the controller: acquire raw mode and the
/// alternate screen (releasing what was already acquired if a startup step
/// fails), feed the script to the loop, and restore the terminal. On every
/// path — startup failure, normal quit, failure during the loop, or an
/// exhausted script — the terminal mode ends inactive, and the counter is
/// exactly what the transition relation assigns to the script.
pub fn run_session(raw_ok: bool, alt_ok: bool, inputs: &Vec<Input>) -> (r: RunReport)
    requires
        inputs@.len() < i64::MAX,
    ensures
        r.session@.inactive(),
        r.setup_ok == (raw_ok && alt_ok),
        r.setup_ok ==> r.app@ == steps(init_model(), inputs@),
        !r.setup_ok ==> r.app@ == init_model(),
{
    let mut session = Session::new();
    if !raw_ok {
        return RunReport { session, app: App::new(), setup_ok: false };
    }
    session.enable_raw_mode();
    if !alt_ok {
        session.disable_raw_mode();
        return RunReport { session, app: App::new(), setup_ok: false };
    }
    session.enter_alt_screen();
    let app = run_script(inputs);
    session.leave_alt_screen();
    session.disable_raw_mode();
    RunReport { session, app, setup_ok: true }
}

} // verus!
