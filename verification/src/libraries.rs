use vstd::prelude::*;
use vstd::string::*;

verus! {

/// The Lua libraries that LuneWeb provides.
#[derive(Debug, Clone, Copy, PartialEq, Eq)]
pub enum LuneWebLibraries {
    WebView,
    Window,
    EventLoop,
}

/// The name under which a library is required.
pub open spec fn library_name(lib: LuneWebLibraries) -> Seq<char> {
    match lib {
        LuneWebLibraries::WebView => "webview"@,
        LuneWebLibraries::Window => "window"@,
        LuneWebLibraries::EventLoop => "event_loop"@,
    }
}

impl LuneWebLibraries {
    /// Every library, in the order they are registered.
    pub fn all() -> (res: Vec<LuneWebLibraries>)
        ensures
            res@ == seq![LuneWebLibraries::WebView, LuneWebLibraries::Window, LuneWebLibraries::EventLoop],
    {
        vec![LuneWebLibraries::WebView, LuneWebLibraries::Window, LuneWebLibraries::EventLoop]
    }

    /// The name under which the library is required.
    pub fn name(&self) -> (res: String)
        ensures
            res@ == library_name(*self),
    {
        match self {
            LuneWebLibraries::WebView => String::from_str("webview"),
            LuneWebLibraries::Window => String::from_str("window"),
            LuneWebLibraries::EventLoop => String::from_str("event_loop"),
        }
    }
}

/// Distinct libraries have distinct names, so a name finds one library.
pub proof fn law_library_names_distinct(a: LuneWebLibraries, b: LuneWebLibraries)
    ensures
        library_name(a) == library_name(b) ==> a == b,
{
    reveal_strlit("webview");
    reveal_strlit("window");
    reveal_strlit("event_loop");
    if a != b {
        assert(library_name(a) != library_name(b)) by {
            assert(library_name(a).len() != library_name(b).len() || library_name(a)[1] != library_name(b)[1]);
        }
    }
}

/// The standard libraries that are injected as Lua globals.
#[derive(Debug, Clone, Copy, PartialEq, Eq)]
pub enum StandardLibrary {
    Task,
    Web,
}

impl StandardLibrary {
    /// The name of the Lua global that holds the library.
    pub fn global_name(&self) -> (res: String)
        ensures
            res@ == match self {
                StandardLibrary::Task => "task"@,
                StandardLibrary::Web => "web"@,
            },
    {
        match self {
            StandardLibrary::Task => String::from_str("task"),
            StandardLibrary::Web => String::from_str("web"),
        }
    }
}

} // verus!
