use vstd::prelude::*;
use vstd::string::*;

verus! {

/// Why a message could not be sent to the page.
#[derive(Debug, Clone, Copy, PartialEq, Eq)]
pub enum MessageError {
    /// There is no web view to send it to.
    WebViewUnavailable,
}

impl MessageError {
    /// The message that a Lua script sees for this error.
    pub fn message(&self) -> (res: String)
        ensures
            res@ == "WebView not available"@,
    {
        String::from_str("WebView not available")
    }
}

/// The script that hands the JSON message `json` to the page.
pub open spec fn share_script(json: Seq<char>) -> Seq<char> {
    "window.luneweb.shareMessage("@ + json + ")"@
}

/// Builds the script that sends a message, already encoded as JSON, to the
/// page; refused when there is no web view.
pub fn share_message(json: &str, webview_available: bool) -> (res: Result<String, MessageError>)
    ensures
        webview_available ==> (res matches Ok(s) && s@ == share_script(json@)),
        !webview_available ==> res == Err::<String, MessageError>(MessageError::WebViewUnavailable),
{
    if !webview_available {
        return Err(MessageError::WebViewUnavailable);
    }
    let s = String::from_str("window.luneweb.shareMessage(");
    let s = s.concat(json);
    Ok(s.concat(")"))
}

} // verus!
