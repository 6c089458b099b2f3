use vstd::prelude::*;

verus! {

/// What the connection monitor does after looking at the number of open
/// windows.
#[derive(Debug, Clone, Copy, PartialEq, Eq)]
pub enum PollDecision {
    /// No window is open: signal the shutdown and stop watching.
    Shutdown,
    /// Look again after a pause.
    Wait,
}

/// Decides on one observation of the open window count, `None` when the
/// count could not be read at this moment.
pub fn poll_active_windows(observed: Option<usize>) -> (res: PollDecision)
    ensures
        res == (if observed == Some(0usize) { PollDecision::Shutdown } else { PollDecision::Wait }),
{
    match observed {
        Some(0) => PollDecision::Shutdown,
        _ => PollDecision::Wait,
    }
}

/// Whether a connection is still connected after its monitor saw `observed`
/// open windows.
pub open spec fn poll_step(connected: bool, observed: Option<usize>) -> bool {
    connected && observed != Some(0usize)
}

/// A subscription handed to Lua: connected when made, and switched off for
/// good by `disconnect` or once no window is open.
#[derive(Debug)]
pub struct LuaConnection {
    connected: bool,
}

impl View for LuaConnection {
    type V = bool;

    closed spec fn view(&self) -> bool {
        self.connected
    }
}

impl LuaConnection {
    /// A new, connected connection.
    pub fn new() -> (res: LuaConnection)
        ensures
            res@,
    {
        LuaConnection { connected: true }
    }

    /// Whether the connection is still connected.
    pub fn is_connected(&self) -> (res: bool)
        ensures
            res == self@,
    {
        self.connected
    }

    /// Switches the connection off.
    pub fn disconnect(&mut self)
        ensures
            !final(self)@,
    {
        self.connected = false;
    }

    /// One look of the monitor at the number of open windows: when none is
    /// open the connection is switched off and the monitor stops.
    pub fn observe_active_windows(&mut self, observed: Option<usize>) -> (res: PollDecision)
        ensures
            res == (if observed == Some(0usize) { PollDecision::Shutdown } else { PollDecision::Wait }),
            final(self)@ == poll_step(old(self)@, observed),
    {
        let decision = poll_active_windows(observed);
        match decision {
            PollDecision::Shutdown => self.connected = false,
            PollDecision::Wait => {},
        }
        decision
    }

    /// Whether a subscription fires for a value it observed: the connection
    /// is still connected and the value concerns the subscriber (`matches`).
    pub fn fires(&self, matches: bool) -> (res: bool)
        ensures
            res == (self@ && matches),
    {
        self.connected && matches
    }
}

/// Whether a connection is still connected after its monitor saw each of
/// `observations` in turn.
pub open spec fn poll_all(connected: bool, observations: Seq<Option<usize>>) -> bool
    decreases observations.len(),
{
    if observations.len() == 0 {
        connected
    } else {
        poll_step(poll_all(connected, observations.drop_last()), observations.last())
    }
}

/// A connection that was switched off stays off whatever its monitor sees
/// afterwards, so its subscription fires no more.
pub proof fn law_disconnected_stays_off(observations: Seq<Option<usize>>)
    ensures
        !poll_all(false, observations),
    decreases observations.len(),
{
    if observations.len() > 0 {
        law_disconnected_stays_off(observations.drop_last());
    }
}

/// A connected connection stays connected until its monitor sees no open
/// window.
pub proof fn law_connected_until_no_window(observed: Option<usize>)
    ensures
        poll_step(true, observed) <==> observed != Some(0usize),
{
}

} // verus!
