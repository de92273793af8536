//! The system-automation scripts that the driver runs: asking which
//! application has the focus, bringing one back to the front, and showing a
//! notification.

use crate::launch::{escape_quotes, escape_quotes_in};
use crate::text::opt_text;
use vstd::prelude::*;

verus! {

/// The script that asks for the identifier of the application that has the
/// focus.
pub const FRONTMOST_QUERY: &'static str =
    "tell application \"System Events\" to get bundle identifier of first application process whose frontmost is true";

/// How long the driver waits after it has brought an application to the
/// front, in milliseconds.
pub const ACTIVATE_SETTLE_MS: u64 = 100;

/// The script that brings the application with a given identifier to the
/// front. The identifier is put between the quotes as it is.
pub open spec fn activation_script_of(bundle_id: Seq<char>) -> Seq<char> {
    "tell application id \""@ + bundle_id + "\" to activate"@
}

/// The script that shows a notification; the double quotes of the message
/// and of the title are escaped.
pub open spec fn notification_script_of(title: Seq<char>, message: Seq<char>) -> Seq<char> {
    "display notification \""@ + escape_quotes(message) + "\" with title \""@ + escape_quotes(
        title,
    ) + "\""@
}

/// The application that has the focus, from what the query gave: the
/// identifier where the query succeeded and gave one, after the white space
/// around it is taken off.
pub open spec fn frontmost_of(succeeded: bool, trimmed_output: Seq<char>) -> Option<Seq<char>> {
    if succeeded && trimmed_output.len() > 0 {
        Some(trimmed_output)
    } else {
        None
    }
}

/// The script that brings the application with a given identifier to the
/// front.
pub fn activation_script(bundle_id: &str) -> (script: String)
    ensures
        script@ == activation_script_of(bundle_id@),
{
    let mut script = "tell application id \"".to_owned();
    script.append(bundle_id);
    script.append("\" to activate");
    script
}

/// The script that shows a notification with a title and a message.
pub fn notification_script(title: &str, message: &str) -> (script: String)
    ensures
        script@ == notification_script_of(title@, message@),
{
    let message_escaped = escape_quotes_in(message);
    let title_escaped = escape_quotes_in(title);
    let mut script = "display notification \"".to_owned();
    script.append(message_escaped.as_str());
    script.append("\" with title \"");
    script.append(title_escaped.as_str());
    script.append("\"");
    script
}

/// The application that has the focus, from whether the query succeeded and
/// what it printed, without the white space around it.
pub fn frontmost_app(succeeded: bool, trimmed_output: &str) -> (app: Option<String>)
    ensures
        opt_text(app) == frontmost_of(succeeded, trimmed_output@),
{
    if succeeded && !trimmed_output.is_empty() {
        Some(trimmed_output.to_owned())
    } else {
        None
    }
}

} // verus!
