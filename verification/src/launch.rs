//! How each terminal is asked to open the editor on the scratch file: the
//! command line, and for some terminals a script or a second request.

use crate::edit_session::SessionError;
use crate::terminal::Terminal;
use crate::text::{decimal, decimal_string};
use vstd::prelude::*;

verus! {

/// The program that opens an application bundle.
pub const OPEN: &'static str = "open";

/// The program that runs a system-automation script.
pub const OSASCRIPT: &'static str = "osascript";

/// The command-line program inside the WezTerm bundle.
pub const WEZTERM_CLI: &'static str = "/Applications/WezTerm.app/Contents/MacOS/wezterm";

/// The command-line program inside the Kitty bundle.
pub const KITTY_CLI: &'static str = "/Applications/kitty.app/Contents/MacOS/kitty";

/// The command-line program inside the Alacritty bundle.
pub const ALACRITTY_CLI: &'static str = "/Applications/Alacritty.app/Contents/MacOS/alacritty";

/// The script that brings WezTerm to the front.
pub const WEZTERM_ACTIVATE: &'static str = "tell application \"WezTerm\" to activate";

/// How long after its start WezTerm is brought to the front, in milliseconds.
pub const WEZTERM_ACTIVATE_DELAY_MS: u64 = 200;

/// The permissions of a launcher script: the owner may write it, everybody
/// may read and run it.
pub const SCRIPT_MODE: u32 = 0o755;

/// The extension of a launcher script. The script lies beside the scratch
/// file, under the scratch file's name with this extension in place of its
/// own.
pub const SCRIPT_EXTENSION: &'static str = "sh";

/// A path with the extension of its last part replaced, as
/// `std::path::Path::with_extension` of the standard library gives it.
/// Nothing more is claimed of it than that it depends on the path and the
/// extension alone.
pub uninterp spec fn extension_replaced(path: Seq<char>, extension: Seq<char>) -> Seq<char>;

/// Whether a text holds no path separator.
pub open spec fn separator_free(text: Seq<char>) -> bool {
    forall|i: int| 0 <= i < text.len() ==> text[i] != '/' && text[i] != '\\'
}

/// `std::path::Path::with_extension`: the result is the path with the
/// extension of its last part replaced, a function of the path and the
/// extension alone. The standard library panics on an extension that holds
/// a path separator, so such an extension is not accepted.
#[verifier::external_body]
fn path_with_extension(path: &str, extension: &str) -> (changed: String)
    requires
        separator_free(extension@),
    ensures
        changed@ == extension_replaced(path@, extension@),
{
    std::path::Path::new(path).with_extension(extension).to_string_lossy().into_owned()
}

/// A program and its arguments.
#[derive(Debug, PartialEq, Eq)]
pub struct Command {
    pub program: String,
    pub args: Vec<String>,
}

/// A script to write before the launch.
#[derive(Debug, PartialEq, Eq)]
pub struct ScriptFile {
    pub path: String,
    pub content: String,
    pub mode: u32,
}

/// A request to make some time after the launch; its failure does not fail
/// the launch.
#[derive(Debug, PartialEq, Eq)]
pub struct FollowUp {
    pub delay_ms: u64,
    pub command: Command,
}

/// All that a launch does: it writes the script, if there is one, and makes
/// it runnable, starts the command, and makes the later request, if there is
/// one.
#[derive(Debug, PartialEq, Eq)]
pub struct LaunchPlan {
    pub script: Option<ScriptFile>,
    pub command: Command,
    pub follow_up: Option<FollowUp>,
}

/// What a `Command` holds, as mathematical values.
pub struct CommandView {
    pub program: Seq<char>,
    pub args: Seq<Seq<char>>,
}

/// What a `ScriptFile` holds, as mathematical values.
pub struct ScriptFileView {
    pub path: Seq<char>,
    pub content: Seq<char>,
    pub mode: u32,
}

/// What a `FollowUp` holds, as mathematical values.
pub struct FollowUpView {
    pub delay_ms: u64,
    pub command: CommandView,
}

/// What a `LaunchPlan` holds, as mathematical values.
pub struct LaunchPlanView {
    pub script: Option<ScriptFileView>,
    pub command: CommandView,
    pub follow_up: Option<FollowUpView>,
}

impl View for Command {
    type V = CommandView;

    open spec fn view(&self) -> CommandView {
        CommandView { program: self.program@, args: self.args.deep_view() }
    }
}

impl View for ScriptFile {
    type V = ScriptFileView;

    open spec fn view(&self) -> ScriptFileView {
        ScriptFileView { path: self.path@, content: self.content@, mode: self.mode }
    }
}

impl View for FollowUp {
    type V = FollowUpView;

    open spec fn view(&self) -> FollowUpView {
        FollowUpView { delay_ms: self.delay_ms, command: self.command@ }
    }
}

impl View for LaunchPlan {
    type V = LaunchPlanView;

    open spec fn view(&self) -> LaunchPlanView {
        LaunchPlanView {
            script: match self.script {
                Some(script) => Some(script@),
                None => None,
            },
            command: self.command@,
            follow_up: match self.follow_up {
                Some(follow_up) => Some(follow_up@),
                None => None,
            },
        }
    }
}

/// A text with a backslash put before each of its double quotes, so that it
/// can stand inside a quoted string of an automation script.
pub open spec fn escape_quotes(text: Seq<char>) -> Seq<char>
    decreases text.len(),
{
    if text.len() == 0 {
        Seq::empty()
    } else if text.last() == '"' {
        escape_quotes(text.drop_last()) + "\\\""@
    } else {
        escape_quotes(text.drop_last()).push(text.last())
    }
}

/// The launcher script for Ghostty: a shell script that runs the editor on
/// the file, both in double quotes.
pub open spec fn ghostty_script(editor: Seq<char>, file: Seq<char>) -> Seq<char> {
    "#!/bin/bash\n\""@ + editor + "\" \""@ + file + "\"\n"@
}

/// The automation script for iTerm: a new window that runs the editor on
/// the file.
pub open spec fn iterm_script(editor: Seq<char>, file: Seq<char>) -> Seq<char> {
    "\n                    tell application \"iTerm\"\n                        activate\n                        create window with default profile command \""@
        + escape_quotes(editor) + " "@ + escape_quotes(file)
        + "\"\n                    end tell\n                    "@
}

/// The automation script for Terminal.app: a new window that runs the
/// editor on the file and then closes its shell.
pub open spec fn terminal_app_script(editor: Seq<char>, file: Seq<char>) -> Seq<char> {
    "\n                    tell application \"Terminal\"\n                        activate\n                        do script \""@
        + escape_quotes(editor) + " "@ + escape_quotes(file)
        + "; exit\"\n                    end tell\n                    "@
}

/// All that the launch of a terminal does, given the path of the editor, the
/// path of the scratch file, the path at which a launcher script may be
/// written, and the window size asked for in columns and rows. Only Kitty
/// and Alacritty take the size; only Ghostty takes a script; only WezTerm is
/// brought to the front by a second request.
pub open spec fn launch_plan_of(
    terminal: Terminal,
    editor: Seq<char>,
    file: Seq<char>,
    script_path: Seq<char>,
    width: u32,
    height: u32,
) -> LaunchPlanView {
    match terminal {
        Terminal::Ghostty => LaunchPlanView {
            script: Some(
                ScriptFileView {
                    path: script_path,
                    content: ghostty_script(editor, file),
                    mode: SCRIPT_MODE,
                },
            ),
            command: CommandView {
                program: OPEN@,
                args: seq!["-na"@, "/Applications/Ghostty.app"@, "--args"@, "-e"@, script_path],
            },
            follow_up: None,
        },
        Terminal::WezTerm => LaunchPlanView {
            script: None,
            command: CommandView {
                program: WEZTERM_CLI@,
                args: seq!["start"@, "--always-new-process"@, "--"@, editor, file],
            },
            follow_up: Some(
                FollowUpView {
                    delay_ms: WEZTERM_ACTIVATE_DELAY_MS,
                    command: CommandView { program: OSASCRIPT@, args: seq!["-e"@, WEZTERM_ACTIVATE@] },
                },
            ),
        },
        Terminal::Kitty => LaunchPlanView {
            script: None,
            command: CommandView {
                program: KITTY_CLI@,
                args: seq![
                    "--override"@,
                    "initial_window_width="@ + decimal(width as nat) + "c"@,
                    "--override"@,
                    "initial_window_height="@ + decimal(height as nat) + "c"@,
                    editor,
                    file,
                ],
            },
            follow_up: None,
        },
        Terminal::Alacritty => LaunchPlanView {
            script: None,
            command: CommandView {
                program: ALACRITTY_CLI@,
                args: seq![
                    "-o"@,
                    "window.dimensions.columns="@ + decimal(width as nat),
                    "-o"@,
                    "window.dimensions.lines="@ + decimal(height as nat),
                    "-e"@,
                    editor,
                    file,
                ],
            },
            follow_up: None,
        },
        Terminal::ITerm => LaunchPlanView {
            script: None,
            command: CommandView { program: OSASCRIPT@, args: seq!["-e"@, iterm_script(editor, file)] },
            follow_up: None,
        },
        Terminal::TerminalApp => LaunchPlanView {
            script: None,
            command: CommandView {
                program: OSASCRIPT@,
                args: seq!["-e"@, terminal_app_script(editor, file)],
            },
            follow_up: None,
        },
    }
}

/// The path at which the launcher script for a scratch file is written.
pub fn script_path_for(file: &str) -> (path: String)
    ensures
        path@ == extension_replaced(file@, SCRIPT_EXTENSION@),
{
    proof {
        reveal_strlit("sh");
        assert(SCRIPT_EXTENSION@.len() == 2 && SCRIPT_EXTENSION@[0] == 's' && SCRIPT_EXTENSION@[1]
            == 'h');
    }
    path_with_extension(file, SCRIPT_EXTENSION)
}

/// Puts a backslash before each double quote of a text.
pub fn escape_quotes_in(text: &str) -> (escaped: String)
    ensures
        escaped@ == escape_quotes(text@),
{
    let n = text.unicode_len();
    let mut escaped = String::new();
    let mut i: usize = 0;
    while i < n
        invariant
            i <= n,
            n == text@.len(),
            escaped@ == escape_quotes(text@.take(i as int)),
        decreases n - i,
    {
        proof {
            assert(text@.take(i as int + 1).drop_last() =~= text@.take(i as int));
        }
        if text.get_char(i) == '"' {
            escaped.append("\\\"");
        } else {
            escaped.append(text.substring_char(i, i + 1));
            assert(text@.subrange(i as int, i as int + 1) =~= seq![text@[i as int]]);
            assert(escaped@ =~= escape_quotes(text@.take(i as int)).push(text@[i as int]));
        }
        i += 1;
    }
    assert(text@.take(n as int) =~= text@);
    escaped
}

/// A text made of three parts.
fn join3(a: &str, b: &str, c: &str) -> (joined: String)
    ensures
        joined@ == a@ + b@ + c@,
{
    let mut joined = a.to_owned();
    joined.append(b);
    joined.append(c);
    joined
}

/// A text made of five parts.
fn join5(a: &str, b: &str, c: &str, d: &str, e: &str) -> (joined: String)
    ensures
        joined@ == a@ + b@ + c@ + d@ + e@,
{
    let mut joined = a.to_owned();
    joined.append(b);
    joined.append(c);
    joined.append(d);
    joined.append(e);
    joined
}

impl Terminal {
    /// All that the launch of this terminal does, given the editor that was
    /// found, if one was. Without an editor there is no launch: the session
    /// fails with `EditorNotFound`.
    pub fn plan_launch(
        &self,
        editor: Option<&str>,
        file: &str,
        script_path: &str,
        width: u32,
        height: u32,
    ) -> (planned: Result<LaunchPlan, SessionError>)
        ensures
            match planned {
                Ok(plan) => editor matches Some(path) && plan@ == launch_plan_of(
                    *self,
                    path@,
                    file@,
                    script_path@,
                    width,
                    height,
                ),
                Err(error) => editor is None && error == SessionError::EditorNotFound,
            },
    {
        match editor {
            Some(path) => Ok(self.launch_plan(path, file, script_path, width, height)),
            None => Err(SessionError::EditorNotFound),
        }
    }

    /// All that the launch of this terminal does. `editor` is the path of
    /// the editor, `file` the path of the scratch file, `script_path` the
    /// path at which a launcher script may be written, `width` and `height`
    /// the window size asked for in columns and rows.
    pub fn launch_plan(
        &self,
        editor: &str,
        file: &str,
        script_path: &str,
        width: u32,
        height: u32,
    ) -> (plan: LaunchPlan)
        ensures
            plan@ == launch_plan_of(*self, editor@, file@, script_path@, width, height),
    {
        let mut args: Vec<String> = Vec::new();
        match self {
            Terminal::Ghostty => {
                let content = join5("#!/bin/bash\n\"", editor, "\" \"", file, "\"\n");
                args.push("-na".to_owned());
                args.push("/Applications/Ghostty.app".to_owned());
                args.push("--args".to_owned());
                args.push("-e".to_owned());
                args.push(script_path.to_owned());
                let plan = LaunchPlan {
                    script: Some(
                        ScriptFile { path: script_path.to_owned(), content, mode: SCRIPT_MODE },
                    ),
                    command: Command { program: OPEN.to_owned(), args },
                    follow_up: None,
                };
                assert(plan@.command.args =~= launch_plan_of(
                    *self,
                    editor@,
                    file@,
                    script_path@,
                    width,
                    height,
                ).command.args);
                plan
            },
            Terminal::WezTerm => {
                args.push("start".to_owned());
                args.push("--always-new-process".to_owned());
                args.push("--".to_owned());
                args.push(editor.to_owned());
                args.push(file.to_owned());
                let mut activate: Vec<String> = Vec::new();
                activate.push("-e".to_owned());
                activate.push(WEZTERM_ACTIVATE.to_owned());
                let plan = LaunchPlan {
                    script: None,
                    command: Command { program: WEZTERM_CLI.to_owned(), args },
                    follow_up: Some(
                        FollowUp {
                            delay_ms: WEZTERM_ACTIVATE_DELAY_MS,
                            command: Command { program: OSASCRIPT.to_owned(), args: activate },
                        },
                    ),
                };
                let ghost want = launch_plan_of(*self, editor@, file@, script_path@, width, height);
                assert(plan@.command.args =~= want.command.args);
                assert(plan@.follow_up->0.command.args =~= want.follow_up->0.command.args);
                plan
            },
            Terminal::Kitty => {
                let columns = decimal_string(width);
                let rows = decimal_string(height);
                args.push("--override".to_owned());
                args.push(join3("initial_window_width=", columns.as_str(), "c"));
                args.push("--override".to_owned());
                args.push(join3("initial_window_height=", rows.as_str(), "c"));
                args.push(editor.to_owned());
                args.push(file.to_owned());
                let plan = LaunchPlan {
                    script: None,
                    command: Command { program: KITTY_CLI.to_owned(), args },
                    follow_up: None,
                };
                assert(plan@.command.args =~= launch_plan_of(
                    *self,
                    editor@,
                    file@,
                    script_path@,
                    width,
                    height,
                ).command.args);
                plan
            },
            Terminal::Alacritty => {
                let columns = decimal_string(width);
                let rows = decimal_string(height);
                let mut columns_arg = "window.dimensions.columns=".to_owned();
                columns_arg.append(columns.as_str());
                let mut rows_arg = "window.dimensions.lines=".to_owned();
                rows_arg.append(rows.as_str());
                args.push("-o".to_owned());
                args.push(columns_arg);
                args.push("-o".to_owned());
                args.push(rows_arg);
                args.push("-e".to_owned());
                args.push(editor.to_owned());
                args.push(file.to_owned());
                let plan = LaunchPlan {
                    script: None,
                    command: Command { program: ALACRITTY_CLI.to_owned(), args },
                    follow_up: None,
                };
                assert(plan@.command.args =~= launch_plan_of(
                    *self,
                    editor@,
                    file@,
                    script_path@,
                    width,
                    height,
                ).command.args);
                plan
            },
            Terminal::ITerm => {
                let editor_escaped = escape_quotes_in(editor);
                let file_escaped = escape_quotes_in(file);
                let script = join5(
                    "\n                    tell application \"iTerm\"\n                        activate\n                        create window with default profile command \"",
                    editor_escaped.as_str(),
                    " ",
                    file_escaped.as_str(),
                    "\"\n                    end tell\n                    ",
                );
                args.push("-e".to_owned());
                args.push(script);
                let plan = LaunchPlan {
                    script: None,
                    command: Command { program: OSASCRIPT.to_owned(), args },
                    follow_up: None,
                };
                assert(plan@.command.args =~= launch_plan_of(
                    *self,
                    editor@,
                    file@,
                    script_path@,
                    width,
                    height,
                ).command.args);
                plan
            },
            Terminal::TerminalApp => {
                let editor_escaped = escape_quotes_in(editor);
                let file_escaped = escape_quotes_in(file);
                let script = join5(
                    "\n                    tell application \"Terminal\"\n                        activate\n                        do script \"",
                    editor_escaped.as_str(),
                    " ",
                    file_escaped.as_str(),
                    "; exit\"\n                    end tell\n                    ",
                );
                args.push("-e".to_owned());
                args.push(script);
                let plan = LaunchPlan {
                    script: None,
                    command: Command { program: OSASCRIPT.to_owned(), args },
                    follow_up: None,
                };
                assert(plan@.command.args =~= launch_plan_of(
                    *self,
                    editor@,
                    file@,
                    script_path@,
                    width,
                    height,
                ).command.args);
                plan
            },
        }
    }
}

/// A text without double quotes is left as it is.
pub proof fn lemma_escape_without_quotes(text: Seq<char>)
    requires
        forall|i: int| 0 <= i < text.len() ==> text[i] != '"',
    ensures
        escape_quotes(text) == text,
    decreases text.len(),
{
    if text.len() > 0 {
        lemma_escape_without_quotes(text.drop_last());
        assert(text.drop_last().push(text.last()) =~= text);
    }
}

/// In an escaped text every double quote follows a backslash.
pub proof fn lemma_escaped_quotes_follow_backslash(text: Seq<char>, i: int)
    requires
        0 <= i < escape_quotes(text).len(),
        escape_quotes(text)[i] == '"',
    ensures
        i > 0,
        escape_quotes(text)[i - 1] == '\\',
    decreases text.len(),
{
    reveal_strlit("\\\"");
    if text.len() > 0 {
        let front = escape_quotes(text.drop_last());
        if i < front.len() {
            lemma_escaped_quotes_follow_backslash(text.drop_last(), i);
        } else if text.last() == '"' {
            assert(escape_quotes(text)[front.len() as int] == '\\');
        }
    }
}

} // verus!
