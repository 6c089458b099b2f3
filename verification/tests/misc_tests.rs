use luneweb::ctx::ContextBuilder;
use luneweb::config::{app_title, plan_run, wrap_init_script, LunewebConfig, LunewebConfigApp, LunewebConfigDev, QueuedThread};
use luneweb::connection::{poll_active_windows, LuaConnection, PollDecision};
use luneweb::event_loop::{EventLoopError, EventLoopInfo, EventLoopState, LoopEvent, LuaEvent};
use luneweb::libraries::{LuneWebLibraries, StandardLibrary};
use luneweb::message::{share_message, MessageError};
use luneweb::scheduler::{runs_single_threaded, thread_count};
use luneweb::webview::{
    delivers_to, initialization_script, route_ipc, validate_protocol_name, webview_url,
    eval_outcome, print_text, route_protocol_request, EvalOutcome, ForwardAction, IpcPool, IpcRoute,
    LuaWebViewBuilder, ProtocolRequestRoute,
};

#[test]
fn library_names() {
    let names: Vec<String> = LuneWebLibraries::all().iter().map(|l| l.name()).collect();
    assert_eq!(names, vec!["webview", "window", "event_loop"]);
    assert_eq!(StandardLibrary::Task.global_name(), "task");
    assert_eq!(StandardLibrary::Web.global_name(), "web");
}

#[test]
fn thread_counts() {
    assert_eq!(thread_count(None), 1);
    assert_eq!(thread_count(Some(0)), 1);
    assert_eq!(thread_count(Some(4)), 4);
    assert_eq!(thread_count(Some(64)), 8);
    assert!(runs_single_threaded(1, false));
    assert!(runs_single_threaded(4, true));
    assert!(!runs_single_threaded(4, false));
}

#[test]
fn connection_poll() {
    assert_eq!(poll_active_windows(Some(0)), PollDecision::Shutdown);
    assert_eq!(poll_active_windows(Some(2)), PollDecision::Wait);
    assert_eq!(poll_active_windows(None), PollDecision::Wait);
}

#[test]
fn event_loop_turns() {
    let mut info = EventLoopInfo::new();
    assert!(!info.observe(LoopEvent::Other, 1));
    assert!(info.observe(LoopEvent::Other, 0));
    assert!(info.observe(LoopEvent::Window { window: 3, close_requested: true }, 1));
    assert_eq!(info.window_id, Some(3));
    assert_eq!(info.lua_event, Some(LuaEvent::CloseRequested));
    assert!(info.concerns(3));
    assert!(!info.concerns(4));
    assert!(info.observe(LoopEvent::Window { window: 4, close_requested: false }, 1));
    assert_eq!(info.lua_event, None);
    assert!(info.observe(LoopEvent::MainEventsCleared, 1));
    assert_eq!(info.window_id, Some(4));
    assert_eq!(LuaEvent::CloseRequested.name(), "CloseRequested");
}

#[test]
fn event_loop_starts_once() {
    let mut s = EventLoopState::new();
    assert!(s.subscription_starts_loop());
    assert_eq!(s.start(), Ok(()));
    assert!(s.is_active());
    assert_eq!(s.start(), Err(EventLoopError::AlreadyActive));
    assert!(!s.subscription_starts_loop());
    s.stop();
    assert_eq!(s.start(), Ok(()));
    assert!(EventLoopError::AlreadyActive.message().starts_with("Subscribing to the event loop"));
}

#[test]
fn config_defaults() {
    let c = LunewebConfig::from_parsed(None);
    assert!(c.dev.is_none() && c.app.is_none());
    let plan = plan_run(&c, None, "js();");
    assert_eq!(plan.title, "LuneWeb");
    assert_eq!(plan.url, "http://localhost:5173/");
    assert_eq!(plan.queue, vec![QueuedThread::Logic]);
    assert!(plan.install.is_none());
    assert!(plan.luau.is_none());
    assert_eq!(plan.init_script, "{ js(); }");
}

#[test]
fn config_values() {
    let c = LunewebConfig {
        dev: Some(LunewebConfigDev {
            url: Some("http://x/".to_string()),
            pkg_manager: Some("npm".to_string()),
            pkg_install: Some("install".to_string()),
        }),
        app: Some(LunewebConfigApp { luau: Some("init.luau".to_string()) }),
    };
    let plan = plan_run(&c, Some("proj".to_string()), "");
    assert_eq!(plan.title, "proj");
    assert_eq!(plan.url, "http://x/");
    assert_eq!(plan.queue, vec![QueuedThread::Logic, QueuedThread::Script("init.luau".to_string())]);
    assert_eq!(plan.install, Some(("npm".to_string(), Some("install".to_string()))));
    assert_eq!(plan.luau.as_deref(), Some("init.luau"));
    assert_eq!(app_title(None), "LuneWeb");
    assert_eq!(wrap_init_script("a"), "{ a }");
}

#[test]
fn protocol_names() {
    assert!(validate_protocol_name("app").is_ok());
    let e = validate_protocol_name("App").unwrap_err();
    assert_eq!(e.name, "App");
    assert_eq!(
        e.message(),
        "Custom protocol name 'App' is not valid, only the first character is allowed to be uppercased"
    );
    assert!(validate_protocol_name("my-proto2").is_ok());
    assert!(validate_protocol_name("protÉ").is_err());
}

#[test]
fn webview_scripts() {
    assert_eq!(initialization_script("a()", None), "window.onload = () => { a() }");
    assert_eq!(initialization_script("a()", Some("b()")), "window.onload = () => { a()\nb() }");
    assert_eq!(webview_url(None), "about:blank");
    assert_eq!(webview_url(Some("http://y".to_string())), "http://y");
}

#[test]
fn ipc_routing() {
    assert_eq!(route_ipc(Some("print".to_string()), true), IpcRoute::Print);
    assert_eq!(route_ipc(Some("eval".to_string()), false), IpcRoute::Unsupported);
    assert_eq!(route_ipc(None, true), IpcRoute::Queue);
    assert_eq!(route_ipc(None, false), IpcRoute::Ignore);
    assert!(delivers_to(&"a".to_string(), &"a".to_string()));
    assert!(!delivers_to(&"a".to_string(), &"b".to_string()));
}

#[test]
fn ipc_pool_is_last_in_first_out() {
    let mut pool = IpcPool::new();
    assert_eq!(pool.forward(1), ForwardAction::Idle);
    pool.push(1);
    pool.push(2);
    assert_eq!(pool.forward(0), ForwardAction::Stop);
    assert_eq!(pool.forward(1), ForwardAction::Send(2));
    assert_eq!(pool.forward(1), ForwardAction::Send(1));
    assert_eq!(pool.forward(1), ForwardAction::Idle);
}

#[test]
fn share_message_script() {
    assert_eq!(
        share_message("{\"a\":1}", true),
        Ok("window.luneweb.shareMessage({\"a\":1})".to_string())
    );
    assert_eq!(share_message("1", false), Err(MessageError::WebViewUnavailable));
    assert_eq!(MessageError::WebViewUnavailable.message(), "WebView not available");
}

#[test]
fn context_builder_sets_parts() {
    let b: ContextBuilder<u32> = ContextBuilder::new();
    assert!(b.lune_ctx_builder.is_none() && b.luau_input.is_none());
    let b = b.with_luau_input("main.luau".to_string()).with_lune_ctx(7);
    assert_eq!(b.lune_ctx_builder, Some(7));
    assert_eq!(b.luau_input.as_deref(), Some("main.luau"));
}

#[test]
fn webview_builder_registers_protocols() {
    let mut b = LuaWebViewBuilder::new();
    assert_eq!(b.page_url(), "about:blank");
    assert_eq!(b.start_script("init()"), "window.onload = () => { init() }");
    b.with_url("http://localhost/".to_string());
    b.with_initialization_script("user()".to_string());
    assert_eq!(b.page_url(), "http://localhost/");
    assert_eq!(b.start_script("init()"), "window.onload = () => { init()\nuser() }");
    assert!(b.with_custom_protocol("app".to_string(), 1).is_ok());
    assert!(b.with_custom_protocol("api".to_string(), 2).is_ok());
    assert!(b.with_custom_protocol("app".to_string(), 3).is_ok());
    assert_eq!(b.with_custom_protocol("Bad".to_string(), 4).unwrap_err().name, "Bad");
    assert_eq!(
        b.custom_protocols(),
        &vec![("app".to_string(), 3), ("api".to_string(), 2)]
    );
}

#[test]
fn protocol_name_with_inner_capital_is_refused() {
    assert!(validate_protocol_name("myApp").is_err());
    assert!(validate_protocol_name("myapp").is_ok());
}

#[test]
fn connection_lifecycle() {
    let mut c = LuaConnection::new();
    assert!(c.is_connected());
    assert!(c.fires(true));
    assert!(!c.fires(false));
    assert_eq!(c.observe_active_windows(Some(2)), PollDecision::Wait);
    assert!(c.is_connected());
    assert_eq!(c.observe_active_windows(None), PollDecision::Wait);
    assert_eq!(c.observe_active_windows(Some(0)), PollDecision::Shutdown);
    assert!(!c.is_connected());
    assert!(!c.fires(true));
    let mut d = LuaConnection::new();
    d.disconnect();
    assert_eq!(d.observe_active_windows(Some(3)), PollDecision::Wait);
    assert!(!d.is_connected());
}

#[test]
fn event_loop_subscription_and_end() {
    let mut s = EventLoopState::new();
    let (c, starts) = s.subscribe();
    assert!(c.is_connected());
    assert!(starts);
    assert!(s.is_active());
    let (_, starts_again) = s.subscribe();
    assert!(!starts_again);
    assert!(s.finish_turn(false));
    assert!(s.is_active());
    assert!(!s.finish_turn(true));
    assert!(!s.is_active());
    assert_eq!(s.start(), Ok(()));
}

#[test]
fn protocol_requests_and_connections() {
    assert_eq!(route_protocol_request(0), ProtocolRequestRoute::AnswerEmpty);
    assert_eq!(route_protocol_request(1), ProtocolRequestRoute::Forward);
    let mut b = LuaWebViewBuilder::new();
    assert!(b.with_custom_protocol("app".to_string(), 1).unwrap().is_connected());
}

#[test]
fn evaluated_answers() {
    assert_eq!(eval_outcome("null"), EvalOutcome::Nil);
    assert_eq!(eval_outcome("{\"a\": 1}"), EvalOutcome::Value);
    assert_eq!(eval_outcome("\"text\""), EvalOutcome::Value);
    assert_eq!(eval_outcome("undefined"), EvalOutcome::Invalid);
    assert_eq!(eval_outcome(""), EvalOutcome::Invalid);
}

#[test]
fn print_action_text() {
    assert_eq!(print_text("\"hi\\n\""), Some("hi\n".to_string()));
    assert_eq!(print_text("12"), None);
}
