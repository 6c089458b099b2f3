use vstd::prelude::*;
use vstd::string::*;

use crate::connection::LuaConnection;

verus! {

/// Whether `char::is_uppercase` holds of `c` (the Unicode `Uppercase`
/// property).
pub uninterp spec fn is_uppercase_char(c: char) -> bool;

/// Tests a character with `char::is_uppercase`.
///
/// Trusted: the result is `is_uppercase_char` of the character, which
/// depends on the character alone; as the documentation's examples show,
/// `A` to `Z` are uppercase and `a` to `z` are not. Which other characters
/// are uppercase is left to the name.
#[verifier::external_body]
fn char_is_uppercase(c: char) -> (res: bool)
    ensures
        res == is_uppercase_char(c),
        'A' <= c <= 'Z' ==> res,
        'a' <= c <= 'z' ==> !res,
{
    c.is_uppercase()
}

/// Whether a custom protocol name is accepted: it holds no uppercase
/// character.
pub open spec fn valid_protocol_name(name: Seq<char>) -> bool {
    forall|i: int| 0 <= i < name.len() ==> !is_uppercase_char(#[trigger] name[i])
}

/// Whether `name` holds a capital letter `A` to `Z`.
pub open spec fn has_ascii_capital(name: Seq<char>) -> bool {
    exists|i: int| 0 <= i < name.len() && 'A' <= #[trigger] name[i] <= 'Z'
}

/// Whether `name` holds only small letters `a` to `z`.
pub open spec fn all_ascii_small(name: Seq<char>) -> bool {
    forall|i: int| 0 <= i < name.len() ==> 'a' <= #[trigger] name[i] <= 'z'
}

/// A custom protocol name that was refused.
#[derive(Debug, Clone)]
pub struct ProtocolNameError {
    pub name: String,
}

impl ProtocolNameError {
    /// The message that a Lua script sees for this error.
    pub fn message(&self) -> (res: String)
        ensures
            res@ == "Custom protocol name '"@ + self.name@
                + "' is not valid, only the first character is allowed to be uppercased"@,
    {
        let s = String::from_str("Custom protocol name '");
        let s = s.concat(self.name.as_str());
        s.concat("' is not valid, only the first character is allowed to be uppercased")
    }
}

/// Checks the name of a custom protocol before it is registered: a name with
/// an uppercase character is refused.
pub fn validate_protocol_name(name: &str) -> (res: Result<(), ProtocolNameError>)
    ensures
        res is Ok <==> valid_protocol_name(name@),
        res matches Err(e) ==> e.name@ == name@,
        has_ascii_capital(name@) ==> res is Err,
        all_ascii_small(name@) ==> res is Ok,
{
    let n = name.unicode_len();
    let mut i: usize = 0;
    while i < n
        invariant
            n == name@.len(),
            i <= n,
            forall|j: int| 0 <= j < i ==> !is_uppercase_char(#[trigger] name@[j]),
            forall|j: int| 0 <= j < i ==> !('A' <= #[trigger] name@[j] <= 'Z'),
        decreases n - i,
    {
        let c = name.get_char(i);
        if char_is_uppercase(c) {
            assert(!('a' <= name@[i as int] <= 'z'));
            return Err(ProtocolNameError { name: String::from_str(name) });
        }
        i = i + 1;
    }
    Ok(())
}

/// The script that a web view runs once its page has loaded: the built-in
/// script, then the user's script on a line of its own, inside an
/// `onload` handler.
pub open spec fn onload_script(base: Seq<char>, addon: Option<Seq<char>>) -> Seq<char> {
    let src = match addon {
        Some(a) => base + "\n"@ + a,
        None => base,
    };
    "window.onload = () => { "@ + src + " }"@
}

/// Builds the start script of a web view from the built-in script and the
/// user's script, if any.
pub fn initialization_script(base: &str, addon: Option<&str>) -> (res: String)
    ensures
        res@ == onload_script(base@, match addon { Some(a) => Some(a@), None => None }),
{
    let src = String::from_str(base);
    let src = match addon {
        Some(a) => src.concat("\n").concat(a),
        None => src,
    };
    let s = String::from_str("window.onload = () => { ");
    let s = s.concat(src.as_str());
    s.concat(" }")
}

/// The page that a web view opens: its URL, or a blank page.
pub fn webview_url(url: Option<String>) -> (res: String)
    ensures
        res@ == match url {
            Some(u) => u@,
            None => "about:blank"@,
        },
{
    match url {
        Some(u) => u,
        None => String::from_str("about:blank"),
    }
}

/// What happens to a message that the page posts to the application.
#[derive(Debug, Clone, Copy, PartialEq, Eq)]
pub enum IpcRoute {
    /// An internal `print` message: print its text.
    Print,
    /// An internal message with an action that is not implemented.
    Unsupported,
    /// A channel message: queue it for the Lua subscribers.
    Queue,
    /// Neither: ignore it.
    Ignore,
}

/// Routes a message from the page: `internal_action` is the action of an
/// internal message, when the message reads as one, and `is_channel_message`
/// tells whether it reads as a channel message. Internal messages win.
pub fn route_ipc(internal_action: Option<String>, is_channel_message: bool) -> (res: IpcRoute)
    ensures
        res == match internal_action {
            Some(a) => if a@ == "print"@ { IpcRoute::Print } else { IpcRoute::Unsupported },
            None => if is_channel_message { IpcRoute::Queue } else { IpcRoute::Ignore },
        },
{
    match internal_action {
        Some(a) => {
            let print = String::from_str("print");
            if a == print {
                IpcRoute::Print
            } else {
                IpcRoute::Unsupported
            }
        },
        None => if is_channel_message {
            IpcRoute::Queue
        } else {
            IpcRoute::Ignore
        },
    }
}

/// Whether a channel message is handed to a subscriber of `subscribed`.
pub fn delivers_to(channel: &String, subscribed: &String) -> (res: bool)
    ensures
        res == (channel@ == subscribed@),
{
    channel.eq(subscribed)
}

/// What happens to a request for a custom protocol.
#[derive(Debug, Clone, Copy, PartialEq, Eq)]
pub enum ProtocolRequestRoute {
    /// The protocol's handler has ended: answer at once with an empty
    /// response of status 200.
    AnswerEmpty,
    /// Hand the request to the handler and answer with its response.
    Forward,
}

/// Routes a request for a custom protocol whose handler has `listeners`
/// receivers.
pub fn route_protocol_request(listeners: usize) -> (res: ProtocolRequestRoute)
    ensures
        res == (if listeners == 0 { ProtocolRequestRoute::AnswerEmpty } else { ProtocolRequestRoute::Forward }),
{
    if listeners == 0 {
        ProtocolRequestRoute::AnswerEmpty
    } else {
        ProtocolRequestRoute::Forward
    }
}

/// What the forwarding task does on one turn.
#[derive(Debug, Clone, Copy, PartialEq, Eq)]
pub enum ForwardAction {
    /// Nobody listens: the task ends.
    Stop,
    /// Hand this queued message to the subscribers.
    Send(u64),
    /// Nothing is queued.
    Idle,
}

/// The messages from the page that wait to be handed to Lua, by handle.
/// The last message queued is handed over first.
pub struct IpcPool {
    messages: Vec<u64>,
}

impl View for IpcPool {
    type V = Seq<u64>;

    closed spec fn view(&self) -> Seq<u64> {
        self.messages@
    }
}

impl IpcPool {
    /// An empty queue.
    pub fn new() -> (res: IpcPool)
        ensures
            res@ == Seq::<u64>::empty(),
    {
        IpcPool { messages: Vec::new() }
    }

    /// Queues a message.
    pub fn push(&mut self, message: u64)
        ensures
            final(self)@ == old(self)@.push(message),
    {
        self.messages.push(message);
    }

    /// One turn of the forwarding task, with `listeners` subscribers.
    pub fn forward(&mut self, listeners: usize) -> (res: ForwardAction)
        ensures
            (final(self)@, res) == forward_step(old(self)@, listeners),
    {
        if listeners == 0 {
            return ForwardAction::Stop;
        }
        match self.messages.pop() {
            Some(m) => ForwardAction::Send(m),
            None => ForwardAction::Idle,
        }
    }
}

/// One turn of the forwarding task over the queued messages `pool`: stop when
/// nobody listens, else hand over the message queued last, if any.
pub open spec fn forward_step(pool: Seq<u64>, listeners: usize) -> (Seq<u64>, ForwardAction) {
    if listeners == 0 {
        (pool, ForwardAction::Stop)
    } else if pool.len() == 0 {
        (pool, ForwardAction::Idle)
    } else {
        (pool.drop_last(), ForwardAction::Send(pool.last()))
    }
}

/// The queue hands out the message queued last: a message queued and then
/// forwarded to listeners comes straight back, leaving the queue as it was.
pub proof fn law_pool_last_in_first_out(pool: Seq<u64>, message: u64, listeners: usize)
    requires
        listeners > 0,
    ensures
        forward_step(pool.push(message), listeners) == (pool, ForwardAction::Send(message)),
{
    assert(pool.push(message).drop_last() =~= pool);
}

/// Nothing is handed out or lost while nobody listens.
pub proof fn law_pool_kept_without_listeners(pool: Seq<u64>)
    ensures
        forward_step(pool, 0) == (pool, ForwardAction::Stop),
{
}

/// The index of the protocol named `name` in `entries`, or -1.
pub open spec fn index_of_protocol(entries: Seq<(Seq<char>, u64)>, name: Seq<char>) -> int
    decreases entries.len(),
{
    if entries.len() == 0 {
        -1
    } else {
        let k = index_of_protocol(entries.drop_last(), name);
        if k >= 0 {
            k
        } else if entries.last().0 == name {
            entries.len() - 1
        } else {
            -1
        }
    }
}

/// Whether no protocol name occurs twice in `entries`.
pub open spec fn names_unique(entries: Seq<(Seq<char>, u64)>) -> bool {
    forall|i: int, j: int| 0 <= i < j < entries.len() ==> entries[i].0 != entries[j].0
}

/// The protocols after registering `name` with the handler `handler`: a
/// protocol of that name gets the new handler, else it is added at the end.
pub open spec fn register_step(entries: Seq<(Seq<char>, u64)>, name: Seq<char>, handler: u64) -> Seq<(Seq<char>, u64)> {
    let i = index_of_protocol(entries, name);
    if i >= 0 {
        entries.update(i, (name, handler))
    } else {
        entries.push((name, handler))
    }
}

/// The index found by `index_of_protocol` holds the name, and no other
/// index before it does.
pub proof fn lemma_index_of_protocol(entries: Seq<(Seq<char>, u64)>, name: Seq<char>)
    ensures
        -1 <= index_of_protocol(entries, name) < entries.len(),
        index_of_protocol(entries, name) >= 0 ==> entries[index_of_protocol(entries, name)].0 == name,
        index_of_protocol(entries, name) < 0 ==> forall|j: int| 0 <= j < entries.len() ==> entries[j].0 != name,
    decreases entries.len(),
{
    if entries.len() > 0 {
        lemma_index_of_protocol(entries.drop_last(), name);
        assert forall|j: int| 0 <= j < entries.len() - 1 implies entries.drop_last()[j] == entries[j] by {}
    }
}

/// A record found in a prefix is the first record of the whole sequence.
proof fn lemma_index_of_protocol_prefix(s: Seq<(Seq<char>, u64)>, name: Seq<char>, n: int)
    requires
        0 <= n <= s.len(),
        index_of_protocol(s.take(n), name) >= 0,
    ensures
        index_of_protocol(s, name) == index_of_protocol(s.take(n), name),
    decreases s.len() - n,
{
    if n < s.len() {
        assert(s.take(n + 1).drop_last() =~= s.take(n));
        lemma_index_of_protocol_prefix(s, name, n + 1);
    } else {
        assert(s.take(n) =~= s);
    }
}

/// What a web view is built from: its page, the user's start script, and
/// the custom protocols with the handle of each one's request handler.
pub struct LuaWebViewBuilder {
    url: Option<String>,
    initialization_script: Option<String>,
    custom_protocols: Vec<(String, u64)>,
}

/// The value of a [`LuaWebViewBuilder`].
pub struct LuaWebViewBuilderView {
    pub url: Option<Seq<char>>,
    pub initialization_script: Option<Seq<char>>,
    pub custom_protocols: Seq<(Seq<char>, u64)>,
}

impl View for LuaWebViewBuilder {
    type V = LuaWebViewBuilderView;

    closed spec fn view(&self) -> LuaWebViewBuilderView {
        LuaWebViewBuilderView {
            url: crate::config::opt_view(self.url),
            initialization_script: crate::config::opt_view(self.initialization_script),
            custom_protocols: self.custom_protocols.deep_view(),
        }
    }
}

impl LuaWebViewBuilder {
    /// Every protocol name occurs once.
    pub closed spec fn well_formed(&self) -> bool {
        names_unique(self@.custom_protocols)
    }

    /// A builder without page, script or protocols.
    pub fn new() -> (res: LuaWebViewBuilder)
        ensures
            res.well_formed(),
            res@.url is None,
            res@.initialization_script is None,
            res@.custom_protocols == Seq::<(Seq<char>, u64)>::empty(),
    {
        let res = LuaWebViewBuilder { url: None, initialization_script: None, custom_protocols: Vec::new() };
        assert(res@.custom_protocols =~= Seq::<(Seq<char>, u64)>::empty());
        res
    }

    /// Sets the page to open.
    pub fn with_url(&mut self, url: String)
        requires
            old(self).well_formed(),
        ensures
            final(self).well_formed(),
            final(self)@.url == Some(url@),
            final(self)@.initialization_script == old(self)@.initialization_script,
            final(self)@.custom_protocols == old(self)@.custom_protocols,
    {
        self.url = Some(url);
    }

    /// Sets the user's start script.
    pub fn with_initialization_script(&mut self, script: String)
        requires
            old(self).well_formed(),
        ensures
            final(self).well_formed(),
            final(self)@.url == old(self)@.url,
            final(self)@.initialization_script == Some(script@),
            final(self)@.custom_protocols == old(self)@.custom_protocols,
    {
        self.initialization_script = Some(script);
    }

    /// Registers a custom protocol and the handle of its request handler; a
    /// name with an uppercase character is refused and changes nothing, and
    /// a name registered before gets the new handler.
    pub fn with_custom_protocol(&mut self, name: String, handler: u64) -> (res: Result<LuaConnection, ProtocolNameError>)
        requires
            old(self).well_formed(),
        ensures
            final(self).well_formed(),
            final(self)@.url == old(self)@.url,
            final(self)@.initialization_script == old(self)@.initialization_script,
            res is Ok <==> valid_protocol_name(name@),
            has_ascii_capital(name@) ==> res is Err,
            all_ascii_small(name@) ==> res is Ok,
            res matches Err(e) ==> e.name@ == name@ && final(self)@.custom_protocols == old(self)@.custom_protocols,
            res is Ok ==> final(self)@.custom_protocols == register_step(old(self)@.custom_protocols, name@, handler),
            res matches Ok(c) ==> c@,
    {
        validate_protocol_name(name.as_str())?;
        let ghost s = self@.custom_protocols;
        let n = self.custom_protocols.len();
        let mut i: usize = 0;
        while i < n
            invariant
                n == self.custom_protocols.len(),
                i <= n,
                s == self.custom_protocols.deep_view(),
                s == old(self)@.custom_protocols,
                self.url == old(self).url,
                self.initialization_script == old(self).initialization_script,
                valid_protocol_name(name@),
                !has_ascii_capital(name@),
                names_unique(s),
                index_of_protocol(s.take(i as int), name@) == -1,
            decreases n - i,
        {
            assert(s.take(i + 1).drop_last() =~= s.take(i as int));
            assert(s[i as int] == (self.custom_protocols[i as int].0@, self.custom_protocols[i as int].1));
            if self.custom_protocols[i].0 == name {
                proof {
                    lemma_index_of_protocol_prefix(s, name@, i + 1);
                }
                self.custom_protocols.set(i, (name, handler));
                proof {
                    assert(self.custom_protocols.deep_view() =~= register_step(s, name@, handler));
                    assert forall|a: int, b: int| 0 <= a < b < s.len() implies
                        self@.custom_protocols[a].0 != self@.custom_protocols[b].0 by {
                        assert(s[a].0 != s[b].0);
                    }
                }
                return Ok(LuaConnection::new());
            }
            i = i + 1;
        }
        assert(s.take(n as int) =~= s);
        proof {
            lemma_index_of_protocol(s, name@);
        }
        let ghost nv = name@;
        self.custom_protocols.push((name, handler));
        proof {
            assert(self.custom_protocols.deep_view() =~= s.push((nv, handler)));
            assert forall|a: int, b: int| 0 <= a < b < self@.custom_protocols.len() implies
                self@.custom_protocols[a].0 != self@.custom_protocols[b].0 by {
                if b == s.len() {
                    assert(s[a].0 != nv);
                }
            }
        }
        Ok(LuaConnection::new())
    }

    /// The custom protocols, each with the handle of its handler.
    pub fn custom_protocols(&self) -> (res: &Vec<(String, u64)>)
        ensures
            res.deep_view() == self@.custom_protocols,
    {
        &self.custom_protocols
    }

    /// The page the web view opens: the one set, or a blank page.
    pub fn page_url(&self) -> (res: String)
        ensures
            res@ == match self@.url {
                Some(u) => u,
                None => "about:blank"@,
            },
    {
        let url = match &self.url {
            Some(u) => Some(u.clone()),
            None => None,
        };
        webview_url(url)
    }

    /// The start script of the web view: the built-in script `base`, then the
    /// user's script, inside an `onload` handler.
    pub fn start_script(&self, base: &str) -> (res: String)
        ensures
            res@ == onload_script(base@, self@.initialization_script),
    {
        match &self.initialization_script {
            Some(s) => initialization_script(base, Some(s.as_str())),
            None => initialization_script(base, None),
        }
    }
}

/// Registering a protocol name that is already registered replaces its
/// handler and keeps one entry per name; a new name is added at the end.
pub proof fn law_register_replaces(entries: Seq<(Seq<char>, u64)>, name: Seq<char>, first: u64, second: u64)
    requires
        names_unique(entries),
    ensures
        register_step(register_step(entries, name, first), name, second)
            == register_step(entries, name, second),
        names_unique(register_step(entries, name, first)),
{
    lemma_index_of_protocol(entries, name);
    let once = register_step(entries, name, first);
    let i = index_of_protocol(entries, name);
    if i >= 0 {
        lemma_same_names(entries, once, name);
        assert(register_step(once, name, second) =~= register_step(entries, name, second));
    } else {
        lemma_index_of_protocol(once, name);
        assert(once.drop_last() =~= entries);
        assert(index_of_protocol(once, name) == entries.len());
        assert(register_step(once, name, second) =~= register_step(entries, name, second));
    }
}

/// Entries with the same names find a name at the same index.
proof fn lemma_same_names(a: Seq<(Seq<char>, u64)>, b: Seq<(Seq<char>, u64)>, name: Seq<char>)
    requires
        a.len() == b.len(),
        forall|j: int| 0 <= j < a.len() ==> a[j].0 == b[j].0,
    ensures
        index_of_protocol(a, name) == index_of_protocol(b, name),
    decreases a.len(),
{
    if a.len() > 0 {
        lemma_same_names(a.drop_last(), b.drop_last(), name);
    }
}

/// What `serde_json::from_str::<serde_json::Value>` makes of `text`: `None`
/// when it is not JSON, `Some(true)` when it is `null`, `Some(false)` for any
/// other value.
pub uninterp spec fn json_null_kind(text: Seq<char>) -> Option<bool>;

/// Parses `text` with `serde_json::from_str::<serde_json::Value>` and tells
/// whether it is `null`.
///
/// Trusted: the result is `json_null_kind` of the text, which depends on the
/// text alone; the text `null` parses as `Value::Null`. Which other texts are
/// JSON is left to the name.
#[verifier::external_body]
fn json_is_null(text: &str) -> (res: Option<bool>)
    ensures
        res == json_null_kind(text@),
        text@ == "null"@ ==> res == Some(true),
{
    match serde_json::from_str::<serde_json::Value>(text) {
        Ok(v) => Some(v.is_null()),
        Err(_) => None,
    }
}

/// What the answer of a script evaluated in the page becomes for Lua.
#[derive(Debug, Clone, Copy, PartialEq, Eq)]
pub enum EvalOutcome {
    /// The answer is JSON `null`: Lua gets `nil`.
    Nil,
    /// Another JSON value: Lua gets that value.
    Value,
    /// The answer is not JSON: the call fails.
    Invalid,
}

/// Decides what the answer text of an evaluated script becomes for Lua.
pub fn eval_outcome(text: &str) -> (res: EvalOutcome)
    ensures
        res == match json_null_kind(text@) {
            None => EvalOutcome::Invalid,
            Some(true) => EvalOutcome::Nil,
            Some(false) => EvalOutcome::Value,
        },
        text@ == "null"@ ==> res == EvalOutcome::Nil,
{
    match json_is_null(text) {
        None => EvalOutcome::Invalid,
        Some(true) => EvalOutcome::Nil,
        Some(false) => EvalOutcome::Value,
    }
}

/// The string that `serde_json::from_str::<String>` reads from the JSON text
/// `text`, or `None` when `text` is not a JSON string.
pub uninterp spec fn json_string_value(text: Seq<char>) -> Option<Seq<char>>;

/// Reads a JSON string with `serde_json::from_str::<String>`.
///
/// Trusted: the result is `json_string_value` of the text, which depends on
/// the text alone. How escapes are read is left to the name.
#[verifier::external_body]
fn json_string(text: &str) -> (res: Option<String>)
    ensures
        match res {
            Some(s) => json_string_value(text@) == Some(s@),
            None => json_string_value(text@) is None,
        },
{
    serde_json::from_str::<String>(text).ok()
}

/// The text that an internal `print` message prints: its data, which must be
/// a JSON string (`data` is that data as JSON text); `None` when it is not.
pub fn print_text(data: &str) -> (res: Option<String>)
    ensures
        match res {
            Some(s) => json_string_value(data@) == Some(s@),
            None => json_string_value(data@) is None,
        },
{
    json_string(data)
}

} // verus!
