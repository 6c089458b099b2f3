use vstd::prelude::*;
use vstd::string::*;

use crate::connection::LuaConnection;

verus! {

/// A window event that is handed to Lua subscribers.
#[derive(Debug, Clone, Copy, PartialEq, Eq)]
pub enum LuaEvent {
    CloseRequested,
}

impl LuaEvent {
    /// The Lua string by which subscribers see the event.
    pub fn name(&self) -> (res: String)
        ensures
            res@ == "CloseRequested"@,
    {
        String::from_str("CloseRequested")
    }
}

/// What one turn of the event loop saw: the window of the last window event
/// and the Lua event it carried.
#[derive(Debug, Clone, Copy, PartialEq, Eq)]
pub struct EventLoopInfo {
    pub window_id: Option<u64>,
    pub lua_event: Option<LuaEvent>,
}

/// An event of the windowing system, as the event loop reads it.
#[derive(Debug, Clone, Copy, PartialEq, Eq)]
pub enum LoopEvent {
    /// An event of the window `window`; `close_requested` when the user asked
    /// to close it.
    Window { window: u64, close_requested: bool },
    /// All pending events were handled.
    MainEventsCleared,
    /// The event loop is being destroyed.
    LoopDestroyed,
    /// An event sent by the application.
    UserEvent,
    /// Any other event.
    Other,
}

/// Why the event loop could not be started.
#[derive(Debug, Clone, Copy, PartialEq, Eq)]
pub enum EventLoopError {
    /// The event loop runs already.
    AlreadyActive,
}

impl EventLoopError {
    /// The message that a Lua script sees for this error.
    pub fn message(&self) -> (res: String)
        ensures
            res@ == "Subscribing to the event loop for the first time will automatically create an event loop for you, if you're creating the event loop manually you should stop"@,
    {
        String::from_str(
            "Subscribing to the event loop for the first time will automatically create an event loop for you, if you're creating the event loop manually you should stop",
        )
    }
}

impl EventLoopInfo {
    /// A turn that saw no window event.
    pub fn new() -> (res: EventLoopInfo)
        ensures
            res.window_id is None,
            res.lua_event is None,
    {
        EventLoopInfo { window_id: None, lua_event: None }
    }

    /// Records one event of a turn of the event loop, and tells whether the
    /// turn may end: it ends after a window event, a user event, when all
    /// events were handled or the loop is destroyed, and whenever nobody
    /// listens (`listeners` is 0).
    pub fn observe(&mut self, event: LoopEvent, listeners: usize) -> (turn_ends: bool)
        ensures
            match event {
                LoopEvent::Window { window, close_requested } => {
                    &&& final(self).window_id == Some(window)
                    &&& final(self).lua_event == (if close_requested { Some(LuaEvent::CloseRequested) } else { None })
                },
                _ => *final(self) == *old(self),
            },
            turn_ends == (!(event is Other) || listeners == 0),
    {
        match event {
            LoopEvent::Window { window, close_requested } => {
                self.window_id = Some(window);
                self.lua_event = if close_requested {
                    Some(LuaEvent::CloseRequested)
                } else {
                    None
                };
            },
            _ => {},
        }
        let ends_turn = match event {
            LoopEvent::Other => false,
            _ => true,
        };
        ends_turn || listeners == 0
    }

    /// Whether a subscriber of the window `window` is called for this turn:
    /// the turn's last window event was for that window.
    pub fn concerns(&self, window: u64) -> (res: bool)
        ensures
            res == (self.window_id == Some(window)),
    {
        match self.window_id {
            Some(id) => id == window,
            None => false,
        }
    }
}

/// Whether the event loop runs.
pub struct EventLoopState {
    active: bool,
}

impl View for EventLoopState {
    type V = bool;

    closed spec fn view(&self) -> bool {
        self.active
    }
}

impl EventLoopState {
    /// An event loop that does not run.
    pub fn new() -> (res: EventLoopState)
        ensures
            !res@,
    {
        EventLoopState { active: false }
    }

    /// Whether the event loop runs.
    pub fn is_active(&self) -> (res: bool)
        ensures
            res == self@,
    {
        self.active
    }

    /// Starts the event loop; refused when it runs already.
    pub fn start(&mut self) -> (res: Result<(), EventLoopError>)
        ensures
            (final(self)@, res) == start_step(old(self)@),
    {
        if self.active {
            Err(EventLoopError::AlreadyActive)
        } else {
            self.active = true;
            Ok(())
        }
    }

    /// Records that the event loop stopped because nobody listens any more.
    pub fn stop(&mut self)
        ensures
            !final(self)@,
    {
        self.active = false;
    }

    /// Subscribes to the event loop: hands back a connected connection, and
    /// starts the loop when it does not run yet (`true` when it did so).
    pub fn subscribe(&mut self) -> (res: (LuaConnection, bool))
        ensures
            res.0@,
            res.1 == !old(self)@,
            final(self)@,
    {
        let starts = !self.active;
        if starts {
            self.active = true;
        }
        (LuaConnection::new(), starts)
    }

    /// Ends a turn of the event loop task after it published what it saw:
    /// the task goes on while its sender is open, and once the sender is
    /// closed it ends and the loop no longer runs. Returns whether the task
    /// goes on.
    pub fn finish_turn(&mut self, sender_closed: bool) -> (goes_on: bool)
        ensures
            (final(self)@, goes_on) == turn_step(old(self)@, sender_closed),
    {
        if sender_closed {
            self.active = false;
            false
        } else {
            true
        }
    }

    /// Whether a new subscription must start the event loop: it is started
    /// on the first subscription.
    pub fn subscription_starts_loop(&self) -> (res: bool)
        ensures
            res == !self@,
    {
        !self.active
    }
}

/// Starting the event loop when it runs (`active`) or not: it runs
/// afterwards, and the start is refused when it ran already.
pub open spec fn start_step(active: bool) -> (bool, Result<(), EventLoopError>) {
    if active {
        (true, Err(EventLoopError::AlreadyActive))
    } else {
        (true, Ok(()))
    }
}

/// The end of a turn of the event loop task, with the loop running or not:
/// the task ends, and the loop stops, exactly when the sender is closed.
pub open spec fn turn_step(active: bool, sender_closed: bool) -> (bool, bool) {
    if sender_closed {
        (false, false)
    } else {
        (active, true)
    }
}

/// The event loop task ends only once its sender is closed, and a loop that
/// ended can be started again.
pub proof fn law_loop_ends_when_sender_closes(active: bool, sender_closed: bool)
    ensures
        turn_step(active, sender_closed).1 == !sender_closed,
        sender_closed ==> start_step(turn_step(active, sender_closed).0).1 == Ok::<(), EventLoopError>(()),
        !sender_closed ==> turn_step(active, sender_closed).0 == active,
{
}

/// The event loop is started once: a second start is refused, and a start
/// after it stopped is accepted.
pub proof fn law_event_loop_starts_once(active: bool)
    ensures
        start_step(start_step(active).0).1 == Err::<(), EventLoopError>(EventLoopError::AlreadyActive),
        start_step(false).1 == Ok::<(), EventLoopError>(()),
{
}

} // verus!
