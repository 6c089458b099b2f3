use vstd::prelude::*;
use vstd::string::*;

use crate::windows::{all_hidden, WindowTable};

verus! {

/// The title of a window that was created without one.
pub const WINDOW_DEFAULT_TITLE: &'static str = "LuneWeb";

/// A Lua thread that the application runs: the thread, the arguments it is
/// resumed with, its result once it has finished, and the senders that
/// wait for that result. Threads, arguments, results and senders are
/// handles by which the application finds its Lua values again.
#[derive(Debug, Clone)]
pub struct LuaThread {
    pub result: Option<u64>,
    pub listeners: Vec<u64>,
    pub args: Option<u64>,
    pub thread: u64,
}

/// The value of a [`LuaThread`].
pub struct LuaThreadView {
    pub result: Option<u64>,
    pub listeners: Seq<u64>,
    pub args: Option<u64>,
    pub thread: u64,
}

impl View for LuaThread {
    type V = LuaThreadView;

    open spec fn view(&self) -> LuaThreadView {
        LuaThreadView {
            result: self.result,
            listeners: self.listeners@,
            args: self.args,
            thread: self.thread,
        }
    }
}

impl LuaThread {
    /// A thread that has already finished with `result`.
    pub fn new(thread: u64, result: u64) -> (res: LuaThread)
        ensures
            res@ == (LuaThreadView {
                result: Some(result),
                listeners: Seq::empty(),
                args: None,
                thread,
            }),
    {
        LuaThread { result: Some(result), listeners: Vec::new(), args: None, thread }
    }
}

/// A request sent to the application's event loop.
#[derive(Debug, Clone)]
pub enum AppEvent {
    /// Create a window with this title (the default title when none) and
    /// hand it to `sender`.
    CreateWindow { sender: u64, title: Option<String> },
    /// Run `thread`, resumed with `args` (no arguments when none).
    SpawnLuaThread { thread: u64, args: Option<u64> },
    /// Keep a thread record as it is.
    StoreLuaThread { thread: LuaThread },
    /// Hand the result of `thread` to `sender` once it has one.
    AwaitLuaThread { sender: u64, thread: u64 },
}

/// What the event loop must do after a request.
#[derive(Debug, Clone, PartialEq, Eq)]
pub enum AppAction {
    /// Nothing.
    Nothing,
    /// Create a window titled `title`, send it to `sender`, and report its id
    /// with `window_created`.
    CreateWindow { sender: u64, title: String },
    /// Send the thread result `result` to `sender`.
    Reply { sender: u64, result: u64 },
    /// Drop `sender`: the thread it waits for is unknown.
    Release { sender: u64 },
}

/// The value of an [`AppAction`].
pub enum AppActionView {
    Nothing,
    CreateWindow { sender: u64, title: Seq<char> },
    Reply { sender: u64, result: u64 },
    Release { sender: u64 },
}

impl View for AppAction {
    type V = AppActionView;

    open spec fn view(&self) -> AppActionView {
        match self {
            AppAction::Nothing => AppActionView::Nothing,
            AppAction::CreateWindow { sender, title } => AppActionView::CreateWindow {
                sender: *sender,
                title: title@,
            },
            AppAction::Reply { sender, result } => AppActionView::Reply {
                sender: *sender,
                result: *result,
            },
            AppAction::Release { sender } => AppActionView::Release { sender: *sender },
        }
    }
}

/// An event of the windowing system, for the window it names.
#[derive(Debug, Clone, Copy, PartialEq, Eq)]
pub enum WindowEvent {
    /// The window must be redrawn.
    RedrawRequested(u64),
    /// The user asked to close the window.
    CloseRequested(u64),
    /// Any other event.
    Other,
}

/// What must be done to a window after an event.
#[derive(Debug, Clone, Copy, PartialEq, Eq)]
pub enum WindowCommand {
    /// Nothing to do.
    Nothing,
    Redraw(u64),
    Hide(u64),
}

/// The outcome of a windowing event: a command for a window, and whether the
/// event loop must stop.
#[derive(Debug, Clone, Copy, PartialEq, Eq)]
pub struct TickOutcome {
    pub command: WindowCommand,
    pub exit: bool,
}

/// The title of a window created with `title`.
pub open spec fn window_title(title: Option<Seq<char>>) -> Seq<char> {
    match title {
        Some(t) => t,
        None => WINDOW_DEFAULT_TITLE@,
    }
}

/// The index of the first record of `thread` in `threads`, or -1.
pub open spec fn index_of_thread(threads: Seq<LuaThreadView>, thread: u64) -> int
    decreases threads.len(),
{
    if threads.len() == 0 {
        -1
    } else {
        let k = index_of_thread(threads.drop_last(), thread);
        if k >= 0 {
            k
        } else if threads.last().thread == thread {
            threads.len() - 1
        } else {
            -1
        }
    }
}

/// The record of a thread that has just been spawned.
pub open spec fn spawned(thread: u64, args: Option<u64>) -> LuaThreadView {
    LuaThreadView { result: None, listeners: Seq::empty(), args, thread }
}

/// The threads after `sender` asks for the result of `thread`, and the action
/// that follows: the result when the first record of the thread has one,
/// else `sender` waits on that record; a thread without record drops the
/// sender.
pub open spec fn await_step(threads: Seq<LuaThreadView>, sender: u64, thread: u64) -> (Seq<LuaThreadView>, AppActionView) {
    let i = index_of_thread(threads, thread);
    if i < 0 {
        (threads, AppActionView::Release { sender })
    } else {
        match threads[i].result {
            Some(r) => (threads, AppActionView::Reply { sender, result: r }),
            None => (
                threads.update(i, LuaThreadView { listeners: threads[i].listeners.push(sender), ..threads[i] }),
                AppActionView::Nothing,
            ),
        }
    }
}

/// Whether a thread record is kept by `prune`: it has not finished, or
/// someone still waits for it.
pub open spec fn kept(t: LuaThreadView) -> bool {
    t.result is None || t.listeners.len() > 0
}

/// The threads that `prune` keeps, in order.
pub open spec fn live_threads(threads: Seq<LuaThreadView>) -> Seq<LuaThreadView> {
    threads.filter(|t: LuaThreadView| kept(t))
}

/// The threads after the thread at `i` finished with `result`: the result is
/// stored and the listeners are handed the result and forgotten.
pub open spec fn complete_step(threads: Seq<LuaThreadView>, i: int, result: u64) -> Seq<LuaThreadView> {
    threads.update(i, LuaThreadView { result: Some(result), listeners: Seq::empty(), ..threads[i] })
}

/// Whether the application with `windows` must stop: it had windows and all
/// of them are hidden.
pub open spec fn handle_must_exit(windows: Map<u64, bool>) -> bool {
    windows != Map::<u64, bool>::empty() && all_hidden(windows)
}

/// The windows after a windowing event, and the command for a window.
pub open spec fn window_step(windows: Map<u64, bool>, event: WindowEvent) -> (Map<u64, bool>, WindowCommand) {
    match event {
        WindowEvent::RedrawRequested(id) => (
            windows,
            if windows.contains_key(id) { WindowCommand::Redraw(id) } else { WindowCommand::Nothing },
        ),
        WindowEvent::CloseRequested(id) => if windows.contains_key(id) {
            (windows.insert(id, false), WindowCommand::Hide(id))
        } else {
            (windows, WindowCommand::Nothing)
        },
        WindowEvent::Other => (windows, WindowCommand::Nothing),
    }
}

/// Finds the first record of `thread`.
fn find_thread(threads: &Vec<LuaThread>, thread: u64) -> (res: Option<usize>)
    ensures
        match res {
            Some(i) => i < threads.len() && index_of_thread(threads@.map_values(|t: LuaThread| t@), thread) == i,
            None => index_of_thread(threads@.map_values(|t: LuaThread| t@), thread) == -1,
        },
{
    let ghost s = threads@.map_values(|t: LuaThread| t@);
    let mut i: usize = 0;
    while i < threads.len()
        invariant
            i <= threads.len(),
            s == threads@.map_values(|t: LuaThread| t@),
            index_of_thread(s.take(i as int), thread) == -1,
        decreases threads.len() - i,
    {
        assert(s.take(i + 1).drop_last() =~= s.take(i as int));
        if threads[i].thread == thread {
            proof {
                lemma_index_of_thread_prefix(s, thread, i + 1);
            }
            return Some(i);
        }
        i = i + 1;
    }
    assert(s.take(i as int) =~= s);
    None
}

/// A record found in a prefix is the first record of the whole sequence.
proof fn lemma_index_of_thread_prefix(s: Seq<LuaThreadView>, thread: u64, n: int)
    requires
        0 <= n <= s.len(),
        index_of_thread(s.take(n), thread) >= 0,
    ensures
        index_of_thread(s, thread) == index_of_thread(s.take(n), thread),
    decreases s.len() - n,
{
    if n < s.len() {
        assert(s.take(n + 1).drop_last() =~= s.take(n));
        lemma_index_of_thread_prefix(s, thread, n + 1);
    } else {
        assert(s.take(n) =~= s);
    }
}

/// The index found by `index_of_thread` holds the thread, and no earlier
/// index does.
pub proof fn lemma_index_of_thread(s: Seq<LuaThreadView>, thread: u64)
    ensures
        -1 <= index_of_thread(s, thread) < s.len(),
        index_of_thread(s, thread) >= 0 ==> s[index_of_thread(s, thread)].thread == thread,
        forall|j: int| 0 <= j < s.len() && (index_of_thread(s, thread) < 0 || j < index_of_thread(s, thread))
            ==> s[j].thread != thread,
    decreases s.len(),
{
    if s.len() > 0 {
        lemma_index_of_thread(s.drop_last(), thread);
        assert forall|j: int| 0 <= j < s.len() - 1 implies s.drop_last()[j] == s[j] by {}
    }
}

/// The application state behind the event loop: its windows and the Lua
/// threads it runs.
pub struct AppHandle {
    windows: WindowTable,
    lua_threads: Vec<LuaThread>,
}

/// The value of an [`AppHandle`].
pub struct AppHandleView {
    pub windows: Map<u64, bool>,
    pub threads: Seq<LuaThreadView>,
}

impl View for AppHandle {
    type V = AppHandleView;

    closed spec fn view(&self) -> AppHandleView {
        AppHandleView {
            windows: self.windows@,
            threads: self.lua_threads@.map_values(|t: LuaThread| t@),
        }
    }
}

impl AppHandle {
    /// An application without windows or threads.
    pub fn new() -> (res: AppHandle)
        ensures
            res@.windows == Map::<u64, bool>::empty(),
            res@.threads == Seq::<LuaThreadView>::empty(),
    {
        let res = AppHandle { windows: WindowTable::new(), lua_threads: Vec::new() };
        assert(res@.threads =~= Seq::<LuaThreadView>::empty());
        res
    }

    /// The thread records, in the order they were added.
    pub fn threads(&self) -> (res: &Vec<LuaThread>)
        ensures
            res@.map_values(|t: LuaThread| t@) == self@.threads,
    {
        &self.lua_threads
    }

    /// Records the window `id` that was created for a `CreateWindow` request;
    /// a new window is visible.
    pub fn window_created(&mut self, id: u64)
        ensures
            final(self)@.windows == old(self)@.windows.insert(id, true),
            final(self)@.threads == old(self)@.threads,
    {
        self.windows.insert(id, true);
    }

    /// Records that the window `id` was shown or hidden.
    pub fn set_window_visible(&mut self, id: u64, visible: bool) -> (found: bool)
        ensures
            found == old(self)@.windows.contains_key(id),
            final(self)@.windows == (if found { old(self)@.windows.insert(id, visible) } else { old(self)@.windows }),
            final(self)@.threads == old(self)@.threads,
    {
        self.windows.set_visible(id, visible)
    }

    /// Handles a request sent to the event loop.
    pub fn process_app_event(&mut self, event: AppEvent) -> (action: AppAction)
        ensures
            final(self)@.windows == old(self)@.windows,
            match event {
                AppEvent::CreateWindow { sender, title } => {
                    &&& final(self)@.threads == old(self)@.threads
                    &&& action@ == (AppActionView::CreateWindow {
                        sender,
                        title: window_title(match title { Some(t) => Some(t@), None => None }),
                    })
                },
                AppEvent::SpawnLuaThread { thread, args } => {
                    &&& final(self)@.threads == old(self)@.threads.push(spawned(thread, args))
                    &&& action@ == AppActionView::Nothing
                },
                AppEvent::StoreLuaThread { thread } => {
                    &&& final(self)@.threads == old(self)@.threads.push(thread@)
                    &&& action@ == AppActionView::Nothing
                },
                AppEvent::AwaitLuaThread { sender, thread } => {
                    &&& final(self)@.threads == await_step(old(self)@.threads, sender, thread).0
                    &&& action@ == await_step(old(self)@.threads, sender, thread).1
                },
            },
    {
        let ghost old_threads = self@.threads;
        match event {
            AppEvent::CreateWindow { sender, title } => {
                let title = match title {
                    Some(t) => t,
                    None => String::from_str(WINDOW_DEFAULT_TITLE),
                };
                AppAction::CreateWindow { sender, title }
            },
            AppEvent::SpawnLuaThread { thread, args } => {
                self.lua_threads.push(LuaThread { result: None, listeners: Vec::new(), args, thread });
                assert(self@.threads =~= old_threads.push(spawned(thread, args)));
                AppAction::Nothing
            },
            AppEvent::StoreLuaThread { thread } => {
                let ghost tv = thread@;
                self.lua_threads.push(thread);
                assert(self@.threads =~= old_threads.push(tv));
                AppAction::Nothing
            },
            AppEvent::AwaitLuaThread { sender, thread } => {
                match find_thread(&self.lua_threads, thread) {
                    None => AppAction::Release { sender },
                    Some(i) => {
                        match self.lua_threads[i].result {
                            Some(r) => AppAction::Reply { sender, result: r },
                            None => {
                                let mut listeners = self.lua_threads[i].listeners.clone();
                                assert(listeners@ =~= old_threads[i as int].listeners);
                                listeners.push(sender);
                                let entry = LuaThread {
                                    result: None,
                                    listeners,
                                    args: self.lua_threads[i].args,
                                    thread: self.lua_threads[i].thread,
                                };
                                self.lua_threads.set(i, entry);
                                assert(self@.threads =~= await_step(old_threads, sender, thread).0);
                                AppAction::Nothing
                            },
                        }
                    },
                }
            },
        }
    }

    /// Forgets the threads that have finished and that nobody waits for,
    /// keeping the order of the others.
    pub fn prune(&mut self)
        ensures
            final(self)@.windows == old(self)@.windows,
            final(self)@.threads == live_threads(old(self)@.threads),
    {
        let ghost s = self@.threads;
        let mut kept_threads: Vec<LuaThread> = Vec::new();
        let n = self.lua_threads.len();
        let mut i: usize = 0;
        while i < n
            invariant
                n == self.lua_threads.len(),
                i <= n,
                s == self.lua_threads@.map_values(|t: LuaThread| t@),
                kept_threads@.map_values(|t: LuaThread| t@) == s.take(i as int).filter(|t: LuaThreadView| kept(t)),
            decreases n - i,
        {
            proof {
                reveal(Seq::filter);
                assert(s.take(i + 1).drop_last() =~= s.take(i as int));
            }
            let t = &self.lua_threads[i];
            if t.result.is_none() || t.listeners.len() > 0 {
                let listeners = t.listeners.clone();
                assert(listeners@ =~= t.listeners@);
                let ghost before = kept_threads@.map_values(|t: LuaThread| t@);
                kept_threads.push(LuaThread { result: t.result, listeners, args: t.args, thread: t.thread });
                assert(kept_threads@.map_values(|t: LuaThread| t@) =~= before.push(s[i as int]));
            }
            i = i + 1;
        }
        assert(s.take(n as int) =~= s);
        self.lua_threads = kept_threads;
    }

    /// The indices of the threads that have not finished, in order: the
    /// threads that must be resumed.
    pub fn pending(&self) -> (res: Vec<usize>)
        ensures
            forall|k: int| 0 <= k < res.len() ==> {
                &&& res[k] < self@.threads.len()
                &&& self@.threads[res[k] as int].result is None
            },
            forall|j: int| 0 <= j < self@.threads.len() && self@.threads[j].result is None
                ==> res@.contains(j as usize),
            forall|a: int, b: int| 0 <= a < b < res.len() ==> res[a] < res[b],
    {
        let mut res: Vec<usize> = Vec::new();
        let n = self.lua_threads.len();
        let mut i: usize = 0;
        while i < n
            invariant
                n == self.lua_threads.len(),
                i <= n,
                forall|k: int| 0 <= k < res.len() ==> {
                    &&& res[k] < i
                    &&& self@.threads[res[k] as int].result is None
                },
                forall|j: int| 0 <= j < i && self@.threads[j].result is None ==> res@.contains(j as usize),
                forall|a: int, b: int| 0 <= a < b < res.len() ==> res[a] < res[b],
            decreases n - i,
        {
            let ghost before = res@;
            if self.lua_threads[i].result.is_none() {
                res.push(i);
                assert(res@[res.len() - 1] == i);
                assert forall|j: int| 0 <= j < i && self@.threads[j].result is None implies res@.contains(j as usize) by {
                    let k = choose|k: int| 0 <= k < before.len() && before[k] == j as usize;
                    assert(res@[k] == j as usize);
                }
            }
            i = i + 1;
        }
        res
    }

    /// Stores the result of the thread at `index`, which has just finished,
    /// and hands back the senders that waited for it, in the order they are
    /// served (the last to ask first).
    pub fn complete(&mut self, index: usize, result: u64) -> (served: Vec<u64>)
        requires
            index < old(self)@.threads.len(),
        ensures
            final(self)@.windows == old(self)@.windows,
            final(self)@.threads == complete_step(old(self)@.threads, index as int, result),
            served@ == old(self)@.threads[index as int].listeners.reverse(),
    {
        let ghost s = self@.threads;
        let t = &self.lua_threads[index];
        let mut served: Vec<u64> = Vec::new();
        let n = t.listeners.len();
        let mut k: usize = n;
        while k > 0
            invariant
                k <= n,
                n == t.listeners.len(),
                served@ == t.listeners@.subrange(k as int, n as int).reverse(),
            decreases k,
        {
            k = k - 1;
            served.push(t.listeners[k]);
            assert(served@ =~= t.listeners@.subrange(k as int, n as int).reverse());
        }
        assert(t.listeners@.subrange(0, n as int) =~= t.listeners@);
        let entry = LuaThread { result: Some(result), listeners: Vec::new(), args: t.args, thread: t.thread };
        self.lua_threads.set(index, entry);
        assert(self@.threads =~= complete_step(s, index as int, result));
        served
    }

    /// Handles a windowing event: a known window is redrawn, or hidden when
    /// the user closes it; the event loop stops once the application has
    /// windows and all of them are hidden.
    pub fn process_tao_event(&mut self, event: WindowEvent) -> (outcome: TickOutcome)
        ensures
            final(self)@.threads == old(self)@.threads,
            final(self)@.windows == window_step(old(self)@.windows, event).0,
            outcome.command == window_step(old(self)@.windows, event).1,
            outcome.exit == handle_must_exit(final(self)@.windows),
    {
        let command = match event {
            WindowEvent::RedrawRequested(id) => {
                if self.windows.contains(id) {
                    WindowCommand::Redraw(id)
                } else {
                    WindowCommand::Nothing
                }
            },
            WindowEvent::CloseRequested(id) => {
                if self.windows.set_visible(id, false) {
                    WindowCommand::Hide(id)
                } else {
                    WindowCommand::Nothing
                }
            },
            WindowEvent::Other => WindowCommand::Nothing,
        };
        let exit = !self.windows.is_empty() && self.windows.all_hidden();
        TickOutcome { command, exit }
    }
}


/// The application as its own event loop sees it: its windows.
pub struct App {
    windows: WindowTable,
}

impl View for App {
    type V = Map<u64, bool>;

    closed spec fn view(&self) -> Map<u64, bool> {
        self.windows@
    }
}

impl App {
    /// An application without windows.
    pub fn new() -> (res: App)
        ensures
            res@ == Map::<u64, bool>::empty(),
    {
        App { windows: WindowTable::new() }
    }

    /// Whether the application must stop: none of its windows is visible
    /// (also when it has none).
    pub fn should_exit(&self) -> (res: bool)
        ensures
            res == all_hidden(self@),
    {
        self.windows.all_hidden()
    }

    /// Records the window `id` that was created for a request; a new window
    /// is visible.
    pub fn window_created(&mut self, id: u64)
        ensures
            final(self)@ == old(self)@.insert(id, true),
    {
        self.windows.insert(id, true);
    }

    /// Records that the window `id` was shown or hidden.
    pub fn set_window_visible(&mut self, id: u64, visible: bool) -> (found: bool)
        ensures
            found == old(self)@.contains_key(id),
            final(self)@ == (if found { old(self)@.insert(id, visible) } else { old(self)@ }),
    {
        self.windows.set_visible(id, visible)
    }

    /// Handles a windowing event: a known window is redrawn, or hidden when
    /// the user closes it; after a close request the event loop stops when no
    /// window is visible.
    pub fn process_event(&mut self, event: WindowEvent) -> (outcome: TickOutcome)
        ensures
            final(self)@ == window_step(old(self)@, event).0,
            outcome.command == window_step(old(self)@, event).1,
            outcome.exit == (event is CloseRequested && all_hidden(final(self)@)),
    {
        match event {
            WindowEvent::RedrawRequested(id) => {
                let command = if self.windows.contains(id) {
                    WindowCommand::Redraw(id)
                } else {
                    WindowCommand::Nothing
                };
                TickOutcome { command, exit: false }
            },
            WindowEvent::CloseRequested(id) => {
                let command = if self.windows.set_visible(id, false) {
                    WindowCommand::Hide(id)
                } else {
                    WindowCommand::Nothing
                };
                TickOutcome { command, exit: self.should_exit() }
            },
            WindowEvent::Other => TickOutcome { command: WindowCommand::Nothing, exit: false },
        }
    }
}


/// Records that keep their thread ids keep the first record of every thread.
proof fn lemma_index_of_thread_same_ids(a: Seq<LuaThreadView>, b: Seq<LuaThreadView>, thread: u64)
    requires
        a.len() == b.len(),
        forall|j: int| 0 <= j < a.len() ==> a[j].thread == b[j].thread,
    ensures
        index_of_thread(a, thread) == index_of_thread(b, thread),
    decreases a.len(),
{
    if a.len() > 0 {
        lemma_index_of_thread_same_ids(a.drop_last(), b.drop_last(), thread);
    }
}

/// Once the first record of a thread holds a result, a sender that asks for
/// the thread is answered with that result at once, and nothing changes.
pub proof fn law_finished_thread_answers(threads: Seq<LuaThreadView>, sender: u64, thread: u64, result: u64)
    requires
        index_of_thread(threads, thread) >= 0,
        threads[index_of_thread(threads, thread)].result == Some(result),
    ensures
        await_step(threads, sender, thread) == (threads, AppActionView::Reply { sender, result }),
{
}

/// A thread that finishes with a result gives that result to every sender
/// that asks for it afterwards: awaiting reads back what completing wrote.
pub proof fn law_await_after_complete(threads: Seq<LuaThreadView>, thread: u64, result: u64, sender: u64)
    requires
        index_of_thread(threads, thread) >= 0,
    ensures
        ({
            let done = complete_step(threads, index_of_thread(threads, thread), result);
            await_step(done, sender, thread) == (done, AppActionView::Reply { sender, result })
        }),
{
    lemma_index_of_thread(threads, thread);
    let i = index_of_thread(threads, thread);
    let done = complete_step(threads, i, result);
    lemma_index_of_thread_same_ids(threads, done, thread);
}

/// A sender that asks for a thread that has not finished waits on it, and is
/// among the senders served when the thread finishes.
pub proof fn law_waiting_sender_is_served(threads: Seq<LuaThreadView>, sender: u64, thread: u64)
    requires
        index_of_thread(threads, thread) >= 0,
        threads[index_of_thread(threads, thread)].result is None,
    ensures
        ({
            let i = index_of_thread(threads, thread);
            let (after, action) = await_step(threads, sender, thread);
            &&& action == AppActionView::Nothing
            &&& index_of_thread(after, thread) == i
            &&& after[i].result is None
            &&& after[i].listeners.reverse().contains(sender)
        }),
{
    lemma_index_of_thread(threads, thread);
    let i = index_of_thread(threads, thread);
    let after = await_step(threads, sender, thread).0;
    lemma_index_of_thread_same_ids(threads, after, thread);
    let l = after[i].listeners;
    assert(l.reverse()[0] == sender);
}

/// A thread spawned under a new id is found by the next sender that asks
/// for it, who then waits for its result.
pub proof fn law_spawned_thread_is_awaited(threads: Seq<LuaThreadView>, thread: u64, args: Option<u64>, sender: u64)
    requires
        index_of_thread(threads, thread) == -1,
    ensures
        ({
            let after = threads.push(spawned(thread, args));
            &&& index_of_thread(after, thread) == threads.len()
            &&& await_step(after, sender, thread).1 == AppActionView::Nothing
            &&& await_step(after, sender, thread).0[threads.len() as int].listeners == seq![sender]
        }),
{
    let after = threads.push(spawned(thread, args));
    assert(after.drop_last() =~= threads);
    assert(Seq::<u64>::empty().push(sender) =~= seq![sender]);
}

/// Pruning keeps exactly the threads that have not finished or that someone
/// waits for, in their order.
pub proof fn law_prune_keeps_live_threads(threads: Seq<LuaThreadView>)
    ensures
        forall|j: int| 0 <= j < threads.len() && (threads[j].result is None || threads[j].listeners.len() > 0)
            ==> live_threads(threads).contains(threads[j]),
        forall|j: int| 0 <= j < threads.len() && threads[j].result is None
            ==> live_threads(threads).contains(threads[j]),
        forall|k: int| 0 <= k < live_threads(threads).len()
            ==> (#[trigger] live_threads(threads)[k]).result is None || live_threads(threads)[k].listeners.len() > 0,
        forall|k: int| 0 <= k < live_threads(threads).len()
            ==> threads.contains(#[trigger] live_threads(threads)[k]),
        live_threads(threads).len() <= threads.len(),
{
    let p = |t: LuaThreadView| kept(t);
    assert(live_threads(threads) == threads.filter(p));
    assert forall|j: int| 0 <= j < threads.len() && (threads[j].result is None || threads[j].listeners.len() > 0)
        implies threads.filter(p).contains(threads[j]) by {
        threads.lemma_filter_contains(p, j);
    }
    assert forall|k: int| 0 <= k < threads.filter(p).len() implies
        (threads.filter(p)[k].result is None || threads.filter(p)[k].listeners.len() > 0) by {
        threads.lemma_filter_pred(p, k);
    }
    assert forall|k: int| 0 <= k < threads.filter(p).len() implies threads.contains(threads.filter(p)[k]) by {
        assert(threads.filter(p).contains(threads.filter(p)[k]));
        threads.lemma_filter_contains_rev(p, threads.filter(p)[k]);
    }
    threads.lemma_filter_len(p);
}

/// A close request hides the closed window and leaves every other window as
/// it was; a redraw request and any other event change no window.
pub proof fn law_close_hides_only_that_window(windows: Map<u64, bool>, id: u64)
    ensures
        ({
            let after = window_step(windows, WindowEvent::CloseRequested(id)).0;
            &&& after.dom() == windows.dom()
            &&& forall|k: u64| #[trigger] windows.contains_key(k) && k != id ==> after[k] == windows[k]
            &&& windows.contains_key(id) ==> !after[id]
        }),
        window_step(windows, WindowEvent::RedrawRequested(id)).0 == windows,
        window_step(windows, WindowEvent::Other).0 == windows,
        window_step(windows, WindowEvent::CloseRequested(id)).1 == (if windows.contains_key(id) {
            WindowCommand::Hide(id)
        } else {
            WindowCommand::Nothing
        }),
        window_step(windows, WindowEvent::RedrawRequested(id)).1 == (if windows.contains_key(id) {
            WindowCommand::Redraw(id)
        } else {
            WindowCommand::Nothing
        }),
{
    let after = window_step(windows, WindowEvent::CloseRequested(id)).0;
    if windows.contains_key(id) {
        assert(after.dom() =~= windows.dom());
    }
}

/// A window created with a title carries exactly that title; one created
/// without a title carries the default title `LuneWeb`.
pub proof fn law_window_title_kept(t: Seq<char>)
    ensures
        window_title(Some(t)) == t,
        window_title(None) == "LuneWeb"@,
{
}

/// Closing the last visible window of the application stops its event loop,
/// as seen by the application's own loop.
pub proof fn law_closing_last_visible_window_exits(windows: Map<u64, bool>, id: u64)
    requires
        windows.contains_key(id),
        forall|k: u64| #[trigger] windows.contains_key(k) && k != id ==> !windows[k],
    ensures
        all_hidden(window_step(windows, WindowEvent::CloseRequested(id)).0),
        handle_must_exit(window_step(windows, WindowEvent::CloseRequested(id)).0),
{
    let after = window_step(windows, WindowEvent::CloseRequested(id)).0;
    assert(after.contains_key(id));
}

/// While some window is visible the event loop never stops, and an
/// application that never had a window is not stopped by the handle.
pub proof fn law_visible_window_keeps_running(windows: Map<u64, bool>, id: u64)
    requires
        windows.contains_key(id),
        windows[id],
    ensures
        !all_hidden(windows),
        !handle_must_exit(windows),
        !handle_must_exit(Map::<u64, bool>::empty()),
{
}

/// Whether no finished thread record keeps a listener: every sender waiting
/// on a thread waits on one that has not finished.
pub open spec fn no_stale_listeners(threads: Seq<LuaThreadView>) -> bool {
    forall|i: int| 0 <= i < threads.len() && (#[trigger] threads[i]).result is Some
        ==> threads[i].listeners.len() == 0
}

/// No listener is ever left waiting on a finished thread: every request, a
/// pruning pass, and the completion of a thread keep finished records free
/// of listeners (a stored record must be free of them itself).
pub proof fn law_finished_threads_keep_no_listeners(
    threads: Seq<LuaThreadView>,
    sender: u64,
    thread: u64,
    args: Option<u64>,
    stored: LuaThreadView,
)
    requires
        no_stale_listeners(threads),
        stored.result is Some ==> stored.listeners.len() == 0,
    ensures
        no_stale_listeners(await_step(threads, sender, thread).0),
        no_stale_listeners(threads.push(spawned(thread, args))),
        no_stale_listeners(threads.push(stored)),
        no_stale_listeners(live_threads(threads)),
{
    lemma_index_of_thread(threads, thread);
    let after = await_step(threads, sender, thread).0;
    assert forall|i: int| 0 <= i < after.len() && (#[trigger] after[i]).result is Some
        implies after[i].listeners.len() == 0 by {
        assert(threads[i].result is Some);
    }
    let pushed = threads.push(spawned(thread, args));
    assert forall|i: int| 0 <= i < pushed.len() && (#[trigger] pushed[i]).result is Some
        implies pushed[i].listeners.len() == 0 by {
        if i < threads.len() {
            assert(pushed[i] == threads[i]);
        }
    }
    let stored_after = threads.push(stored);
    assert forall|i: int| 0 <= i < stored_after.len() && (#[trigger] stored_after[i]).result is Some
        implies stored_after[i].listeners.len() == 0 by {
        if i < threads.len() {
            assert(stored_after[i] == threads[i]);
        }
    }
    let p = |t: LuaThreadView| kept(t);
    let live = live_threads(threads);
    assert(live == threads.filter(p));
    assert forall|k: int| 0 <= k < live.len() && (#[trigger] live[k]).result is Some
        implies live[k].listeners.len() == 0 by {
        threads.lemma_filter_pred(p, k);
        assert(live.contains(live[k]));
        threads.lemma_filter_contains_rev(p, live[k]);
        let j = choose|j: int| 0 <= j < threads.len() && threads[j] == live[k];
        assert(threads[j].result is Some);
    }
}

/// Completing an unfinished thread hands its listeners over and leaves no
/// finished record with listeners.
pub proof fn law_completion_keeps_no_listeners(threads: Seq<LuaThreadView>, index: int, result: u64)
    requires
        no_stale_listeners(threads),
        0 <= index < threads.len(),
    ensures
        no_stale_listeners(complete_step(threads, index, result)),
{
    let after = complete_step(threads, index, result);
    assert forall|i: int| 0 <= i < after.len() && (#[trigger] after[i]).result is Some
        implies after[i].listeners.len() == 0 by {
        if i != index {
            assert(after[i] == threads[i]);
        }
    }
}

} // verus!
