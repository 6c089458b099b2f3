use luneweb::app::{
    App, AppAction, AppEvent, AppHandle, LuaThread, TickOutcome, WindowCommand, WindowEvent,
    WINDOW_DEFAULT_TITLE,
};

#[test]
fn create_window_uses_default_title() {
    let mut h = AppHandle::new();
    let a = h.process_app_event(AppEvent::CreateWindow { sender: 7, title: None });
    assert_eq!(a, AppAction::CreateWindow { sender: 7, title: WINDOW_DEFAULT_TITLE.to_string() });
    assert_eq!(WINDOW_DEFAULT_TITLE, "LuneWeb");
    let a = h.process_app_event(AppEvent::CreateWindow { sender: 8, title: Some("T".to_string()) });
    assert_eq!(a, AppAction::CreateWindow { sender: 8, title: "T".to_string() });
}

#[test]
fn await_unknown_thread_releases_sender() {
    let mut h = AppHandle::new();
    assert_eq!(
        h.process_app_event(AppEvent::AwaitLuaThread { sender: 1, thread: 42 }),
        AppAction::Release { sender: 1 }
    );
}

#[test]
fn await_then_complete_serves_listeners_last_first() {
    let mut h = AppHandle::new();
    assert_eq!(h.process_app_event(AppEvent::SpawnLuaThread { thread: 5, args: Some(3) }), AppAction::Nothing);
    assert_eq!(h.process_app_event(AppEvent::AwaitLuaThread { sender: 10, thread: 5 }), AppAction::Nothing);
    assert_eq!(h.process_app_event(AppEvent::AwaitLuaThread { sender: 11, thread: 5 }), AppAction::Nothing);
    assert_eq!(h.pending(), vec![0]);
    assert_eq!(h.threads()[0].args, Some(3));
    let served = h.complete(0, 99);
    assert_eq!(served, vec![11, 10]);
    assert!(h.pending().is_empty());
    assert_eq!(
        h.process_app_event(AppEvent::AwaitLuaThread { sender: 12, thread: 5 }),
        AppAction::Reply { sender: 12, result: 99 }
    );
    // finished and nobody waits: pruned
    h.prune();
    assert!(h.threads().is_empty());
}

#[test]
fn prune_keeps_unfinished_and_awaited_threads() {
    let mut h = AppHandle::new();
    h.process_app_event(AppEvent::SpawnLuaThread { thread: 1, args: None });
    h.process_app_event(AppEvent::StoreLuaThread { thread: LuaThread::new(2, 20) });
    h.process_app_event(AppEvent::StoreLuaThread {
        thread: LuaThread { result: Some(30), listeners: vec![4], args: None, thread: 3 },
    });
    h.prune();
    let ids: Vec<u64> = h.threads().iter().map(|t| t.thread).collect();
    assert_eq!(ids, vec![1, 3]);
}

#[test]
fn await_uses_first_record() {
    let mut h = AppHandle::new();
    h.process_app_event(AppEvent::StoreLuaThread { thread: LuaThread::new(9, 1) });
    h.process_app_event(AppEvent::StoreLuaThread { thread: LuaThread::new(9, 2) });
    assert_eq!(
        h.process_app_event(AppEvent::AwaitLuaThread { sender: 0, thread: 9 }),
        AppAction::Reply { sender: 0, result: 1 }
    );
}

#[test]
fn handle_exits_when_all_windows_hidden() {
    let mut h = AppHandle::new();
    assert_eq!(
        h.process_tao_event(WindowEvent::Other),
        TickOutcome { command: WindowCommand::Nothing, exit: false }
    );
    h.window_created(1);
    h.window_created(2);
    assert_eq!(
        h.process_tao_event(WindowEvent::RedrawRequested(1)),
        TickOutcome { command: WindowCommand::Redraw(1), exit: false }
    );
    assert_eq!(
        h.process_tao_event(WindowEvent::CloseRequested(1)),
        TickOutcome { command: WindowCommand::Hide(1), exit: false }
    );
    assert_eq!(
        h.process_tao_event(WindowEvent::CloseRequested(3)),
        TickOutcome { command: WindowCommand::Nothing, exit: false }
    );
    assert_eq!(
        h.process_tao_event(WindowEvent::CloseRequested(2)),
        TickOutcome { command: WindowCommand::Hide(2), exit: true }
    );
    assert!(h.set_window_visible(2, true));
    assert_eq!(
        h.process_tao_event(WindowEvent::Other),
        TickOutcome { command: WindowCommand::Nothing, exit: false }
    );
}

#[test]
fn app_should_exit_without_windows() {
    let app = App::new();
    assert!(app.should_exit());
}

#[test]
fn app_exits_on_close_of_last_window() {
    let mut app = App::new();
    app.window_created(1);
    assert!(!app.should_exit());
    assert_eq!(
        app.process_event(WindowEvent::RedrawRequested(1)),
        TickOutcome { command: WindowCommand::Redraw(1), exit: false }
    );
    assert_eq!(
        app.process_event(WindowEvent::RedrawRequested(2)),
        TickOutcome { command: WindowCommand::Nothing, exit: false }
    );
    assert_eq!(
        app.process_event(WindowEvent::CloseRequested(1)),
        TickOutcome { command: WindowCommand::Hide(1), exit: true }
    );
    assert!(app.should_exit());
    assert!(!app.set_window_visible(5, true));
}

#[test]
fn completed_thread_keeps_no_listeners() {
    let mut h = AppHandle::new();
    h.process_app_event(AppEvent::SpawnLuaThread { thread: 1, args: None });
    h.process_app_event(AppEvent::AwaitLuaThread { sender: 2, thread: 1 });
    assert_eq!(h.threads()[0].listeners, vec![2]);
    h.complete(0, 5);
    assert_eq!(h.threads()[0].result, Some(5));
    assert!(h.threads()[0].listeners.is_empty());
    h.process_app_event(AppEvent::AwaitLuaThread { sender: 3, thread: 1 });
    assert!(h.threads()[0].listeners.is_empty());
}
