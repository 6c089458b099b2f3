use vstd::prelude::*;
use vstd::string::*;

verus! {

/// The `[dev]` table of `luneweb.toml`.
#[derive(Debug, Clone)]
pub struct LunewebConfigDev {
    pub url: Option<String>,
    pub pkg_manager: Option<String>,
    pub pkg_install: Option<String>,
}

/// The `[app]` table of `luneweb.toml`: the Luau script to run.
#[derive(Debug, Clone)]
pub struct LunewebConfigApp {
    pub luau: Option<String>,
}

/// The contents of `luneweb.toml`.
#[derive(Debug, Clone)]
pub struct LunewebConfig {
    pub dev: Option<LunewebConfigDev>,
    pub app: Option<LunewebConfigApp>,
}

/// The name of the configuration file in a project directory.
pub const CONFIG_FILE_NAME: &'static str = "luneweb.toml";

/// The development server that a project without a `[dev]` table uses.
pub const DEFAULT_DEV_URL: &'static str = "http://localhost:5173/";

/// The title of the window of a project whose directory has no name.
pub const DEFAULT_TITLE: &'static str = "LuneWeb";

/// The view of an optional string.
pub open spec fn opt_view(s: Option<String>) -> Option<Seq<char>> {
    match s {
        Some(v) => Some(v@),
        None => None,
    }
}

/// What `luneweb run` does for a project, decided from its configuration.
#[derive(Debug, Clone)]
pub struct RunPlan {
    /// The title of the window.
    pub title: String,
    /// The URL that the web view loads.
    pub url: String,
    /// The package manager command to run first, and its argument.
    pub install: Option<(String, Option<String>)>,
    /// The Luau script to run, if any.
    pub luau: Option<String>,
    /// The script that the web view runs at start.
    pub init_script: String,
    /// The Lua threads to queue, in the order the scheduler resumes them.
    pub queue: Vec<QueuedThread>,
}

/// A Lua thread that `luneweb run` queues.
#[derive(Debug, Clone, PartialEq, Eq)]
pub enum QueuedThread {
    /// The thread that drives the window and web view.
    Logic,
    /// The thread that runs the Luau script at this path.
    Script(String),
}

impl LunewebConfig {
    /// A configuration with neither table.
    pub fn empty() -> (res: LunewebConfig)
        ensures
            res.dev is None,
            res.app is None,
    {
        LunewebConfig { dev: None, app: None }
    }

    /// The configuration read from `luneweb.toml`: the parsed file, or an
    /// empty configuration when the file did not parse.
    pub fn from_parsed(parsed: Option<LunewebConfig>) -> (res: LunewebConfig)
        ensures
            match parsed {
                Some(c) => res == c,
                None => res.dev is None && res.app is None,
            },
    {
        match parsed {
            Some(c) => c,
            None => LunewebConfig::empty(),
        }
    }

    /// The `[dev]` table, or the default one: the local development server
    /// and no package manager.
    pub fn dev_or_default(&self) -> (res: LunewebConfigDev)
        ensures
            match self.dev {
                Some(d) => {
                    &&& opt_view(res.url) == opt_view(d.url)
                    &&& opt_view(res.pkg_manager) == opt_view(d.pkg_manager)
                    &&& opt_view(res.pkg_install) == opt_view(d.pkg_install)
                },
                None => {
                    &&& opt_view(res.url) == Some(DEFAULT_DEV_URL@)
                    &&& res.pkg_manager is None
                    &&& res.pkg_install is None
                },
            },
    {
        match &self.dev {
            Some(d) => LunewebConfigDev {
                url: clone_opt(&d.url),
                pkg_manager: clone_opt(&d.pkg_manager),
                pkg_install: clone_opt(&d.pkg_install),
            },
            None => LunewebConfigDev {
                url: Some(String::from_str(DEFAULT_DEV_URL)),
                pkg_manager: None,
                pkg_install: None,
            },
        }
    }

    /// The Luau script of the `[app]` table, if any.
    pub fn luau_script(&self) -> (res: Option<String>)
        ensures
            opt_view(res) == match self.app {
                Some(a) => opt_view(a.luau),
                None => None,
            },
    {
        match &self.app {
            Some(a) => clone_opt(&a.luau),
            None => None,
        }
    }
}

/// A copy of an optional string.
fn clone_opt(s: &Option<String>) -> (res: Option<String>)
    ensures
        opt_view(res) == opt_view(*s),
{
    match s {
        Some(v) => Some(v.clone()),
        None => None,
    }
}

impl LunewebConfigDev {
    /// The package manager to run before the application, with its
    /// argument; none when no package manager is configured.
    pub fn install_command(&self) -> (res: Option<(String, Option<String>)>)
        ensures
            match self.pkg_manager {
                Some(m) => res matches Some((c, a)) && c@ == m@ && opt_view(a) == opt_view(self.pkg_install),
                None => res is None,
            },
    {
        match &self.pkg_manager {
            Some(m) => Some((m.clone(), clone_opt(&self.pkg_install))),
            None => None,
        }
    }
}

/// The title of the application window: the name of the project directory,
/// or the default title.
pub fn app_title(dir_name: Option<String>) -> (res: String)
    ensures
        res@ == match dir_name {
            Some(n) => n@,
            None => DEFAULT_TITLE@,
        },
{
    match dir_name {
        Some(n) => n,
        None => String::from_str(DEFAULT_TITLE),
    }
}

/// The start script of the web view: the messaging script in a block.
pub fn wrap_init_script(js: &str) -> (res: String)
    ensures
        res@ == "{ "@ + js@ + " }"@,
{
    let s = String::from_str("{ ");
    let s = s.concat(js);
    s.concat(" }")
}

/// Decides what `luneweb run` does for a project: the window title from the
/// project directory, the development server and package manager from the
/// `[dev]` table (or its defaults), the start script that wraps the
/// messaging script `js`, and the threads to queue: the logic thread first,
/// then the Luau script of the `[app]` table, if any. A `[dev]` table must
/// name its URL.
pub fn plan_run(config: &LunewebConfig, dir_name: Option<String>, js: &str) -> (res: RunPlan)
    requires
        match config.dev {
            Some(d) => d.url is Some,
            None => true,
        },
    ensures
        res.title@ == match dir_name {
            Some(n) => n@,
            None => DEFAULT_TITLE@,
        },
        res.url@ == match config.dev {
            Some(d) => d.url->0@,
            None => DEFAULT_DEV_URL@,
        },
        match config.dev {
            Some(d) => match d.pkg_manager {
                Some(m) => res.install matches Some((c, a)) && c@ == m@ && opt_view(a) == opt_view(d.pkg_install),
                None => res.install is None,
            },
            None => res.install is None,
        },
        opt_view(res.luau) == match config.app {
            Some(a) => opt_view(a.luau),
            None => None,
        },
        res.init_script@ == "{ "@ + js@ + " }"@,
        res.queue@.len() == (if res.luau is Some { 2int } else { 1int }),
        res.queue@[0] == QueuedThread::Logic,
        res.luau matches Some(p) ==> res.queue@[1] matches QueuedThread::Script(q) && q@ == p@,
{
    let dev = config.dev_or_default();
    let install = dev.install_command();
    let url = match dev.url {
        Some(u) => u,
        None => String::new(),
    };
    let luau = config.luau_script();
    let mut queue: Vec<QueuedThread> = Vec::new();
    queue.push(QueuedThread::Logic);
    match &luau {
        Some(p) => queue.push(QueuedThread::Script(p.clone())),
        None => {},
    }
    RunPlan {
        title: app_title(dir_name),
        url,
        install,
        luau,
        init_script: wrap_init_script(js),
        queue,
    }
}

} // verus!
