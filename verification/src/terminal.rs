//! The supported terminals: their names, where they are installed, how the
//! end of an edit is detected in each, and how each is asked to open the
//! editor on a file.

use crate::text::{lowercase, opt_text, str_eq};
use vstd::prelude::*;

verus! {

/// A terminal that can host the editor.
#[derive(Debug, Clone, Copy, PartialEq, Eq, Structural)]
pub enum Terminal {
    Ghostty,
    WezTerm,
    Kitty,
    Alacritty,
    ITerm,
    TerminalApp,
}

/// How the end of an edit is detected.
#[derive(Debug, Clone, Copy, PartialEq, Eq, Structural)]
pub enum Completion {
    /// The process that the launch started is waited for.
    ProcessExit,
    /// The scratch file is watched for a save.
    FileChange,
}

/// The terminal that a lower-case name stands for, if it stands for one.
pub open spec fn terminal_of(name: Seq<char>) -> Option<Terminal> {
    if name == "ghostty"@ {
        Some(Terminal::Ghostty)
    } else if name == "wezterm"@ {
        Some(Terminal::WezTerm)
    } else if name == "kitty"@ {
        Some(Terminal::Kitty)
    } else if name == "alacritty"@ {
        Some(Terminal::Alacritty)
    } else if name == "iterm"@ || name == "iterm2"@ {
        Some(Terminal::ITerm)
    } else if name == "terminal"@ || name == "terminal.app"@ {
        Some(Terminal::TerminalApp)
    } else {
        None
    }
}

/// The terminals that the menu offers, in the order of the menu.
pub open spec fn offered_terminals() -> Seq<Terminal> {
    seq![Terminal::Ghostty, Terminal::WezTerm]
}

/// The path at which the editor is looked for in a directory: the directory,
/// a separator unless the directory is empty or ends in one, and `hx`.
pub open spec fn editor_in(dir: Seq<char>) -> Seq<char> {
    if dir.len() == 0 || dir.last() == '/' {
        dir + "hx"@
    } else {
        dir + "/hx"@
    }
}

/// The places where the editor is usually installed, in the order in which
/// they are tried; the third lies under the user's home directory.
pub open spec fn editor_candidates_of(home: Seq<char>) -> Seq<Seq<char>> {
    seq!["/opt/homebrew/bin/hx"@, "/usr/local/bin/hx"@, home + "/.cargo/bin/hx"@, "/usr/bin/hx"@]
}

/// The paths at which the editor is looked for in the directories of a
/// search path, in the order of the search path.
pub open spec fn editor_in_each(dirs: Seq<Seq<char>>) -> Seq<Seq<char>> {
    dirs.map_values(|dir: Seq<char>| editor_in(dir))
}

/// The first path of a list that is marked: `marks` says of each path, at the
/// path's place in the list, whether it is; a path without a mark counts as
/// unmarked.
pub open spec fn first_marked(paths: Seq<Seq<char>>, marks: Seq<bool>) -> Option<Seq<char>>
    decreases paths.len(),
{
    if paths.len() == 0 || marks.len() == 0 {
        None
    } else if marks[0] {
        Some(paths[0])
    } else {
        first_marked(paths.drop_first(), marks.drop_first())
    }
}

/// The editor that is chosen among the usual places and the places in the
/// search path, given what was found at each: the first of the usual places
/// at which something was found; failing that, the first place in the search
/// path at which a regular file was found. A hit at a usual place wins over
/// every hit in the search path.
pub open spec fn editor_chosen(
    candidates: Seq<Seq<char>>,
    found: Seq<bool>,
    places: Seq<Seq<char>>,
    files: Seq<bool>,
) -> Option<Seq<char>> {
    match first_marked(candidates, found) {
        Some(path) => Some(path),
        None => first_marked(places, files),
    }
}

/// Where the editor is found, given the user's home directory, the search
/// path, and what the file system says of each place.
pub open spec fn editor_found(
    home: Seq<char>,
    found: Seq<bool>,
    search_path: Seq<Seq<char>>,
    files: Seq<bool>,
) -> Option<Seq<char>> {
    editor_chosen(editor_candidates_of(home), found, editor_in_each(search_path), files)
}

/// The terminals of a list that are present, in the order of the list:
/// `present` says of each terminal, at the terminal's place in the list,
/// whether it is; a terminal without an answer counts as absent.
pub open spec fn present_among(terminals: Seq<Terminal>, present: Seq<bool>) -> Seq<Terminal>
    decreases terminals.len(),
{
    if terminals.len() == 0 {
        Seq::empty()
    } else {
        let before = present_among(terminals.drop_last(), present);
        let place = terminals.len() - 1;
        if place < present.len() && present[place] {
            before.push(terminals.last())
        } else {
            before
        }
    }
}

/// `std::path::Path::exists`: whether something is found at the path now.
/// The answer depends on the disk, so nothing is claimed of it.
#[verifier::external_body]
fn path_exists(path: &str) -> bool {
    std::path::Path::new(path).exists()
}

/// `std::path::Path::is_file`: whether a regular file is found at the path
/// now. The answer depends on the disk, so nothing is claimed of it.
#[verifier::external_body]
fn path_is_file(path: &str) -> bool {
    std::path::Path::new(path).is_file()
}

impl Terminal {
    /// The name that the menu shows.
    pub open spec fn display_name_of(self) -> Seq<char> {
        match self {
            Terminal::Ghostty => "Ghostty"@,
            Terminal::WezTerm => "WezTerm"@,
            Terminal::Kitty => "Kitty"@,
            Terminal::Alacritty => "Alacritty"@,
            Terminal::ITerm => "iTerm2"@,
            Terminal::TerminalApp => "Terminal.app"@,
        }
    }

    /// The name that the settings write.
    pub open spec fn config_name_of(self) -> Seq<char> {
        match self {
            Terminal::Ghostty => "ghostty"@,
            Terminal::WezTerm => "wezterm"@,
            Terminal::Kitty => "kitty"@,
            Terminal::Alacritty => "alacritty"@,
            Terminal::ITerm => "iterm"@,
            Terminal::TerminalApp => "terminal"@,
        }
    }

    /// The path of the application bundle, whose presence says that the
    /// terminal is installed.
    pub open spec fn bundle_path_of(self) -> Seq<char> {
        match self {
            Terminal::Ghostty => "/Applications/Ghostty.app"@,
            Terminal::WezTerm => "/Applications/WezTerm.app"@,
            Terminal::Kitty => "/Applications/kitty.app"@,
            Terminal::Alacritty => "/Applications/Alacritty.app"@,
            Terminal::ITerm => "/Applications/iTerm.app"@,
            Terminal::TerminalApp => "/System/Applications/Utilities/Terminal.app"@,
        }
    }

    /// Whether the end of an edit shows only on the scratch file: these
    /// terminals are started through a request that returns at once, so
    /// there is no process to wait for.
    pub open spec fn polls(self) -> bool {
        self == Terminal::Ghostty || self == Terminal::ITerm || self == Terminal::TerminalApp
    }

    /// How the end of an edit in this terminal is detected.
    pub open spec fn completion_of(self) -> Completion {
        if self.polls() {
            Completion::FileChange
        } else {
            Completion::ProcessExit
        }
    }

    /// The terminal that a lower-case name stands for.
    pub fn from_lowercase_name(name: &str) -> (terminal: Option<Self>)
        ensures
            terminal == terminal_of(name@),
    {
        if str_eq(name, "ghostty") {
            Some(Terminal::Ghostty)
        } else if str_eq(name, "wezterm") {
            Some(Terminal::WezTerm)
        } else if str_eq(name, "kitty") {
            Some(Terminal::Kitty)
        } else if str_eq(name, "alacritty") {
            Some(Terminal::Alacritty)
        } else if str_eq(name, "iterm") || str_eq(name, "iterm2") {
            Some(Terminal::ITerm)
        } else if str_eq(name, "terminal") || str_eq(name, "terminal.app") {
            Some(Terminal::TerminalApp)
        } else {
            None
        }
    }

    /// The terminal that the settings name; the name is read without regard
    /// to case. `None` for a name that stands for no terminal.
    pub fn from_name(name: &str) -> (terminal: Option<Self>)
        ensures
            terminal == terminal_of(lowercase(name@)),
    {
        let lowered = name.to_lowercase();
        Self::from_lowercase_name(lowered.as_str())
    }

    /// The terminals that the menu offers, in the order of the menu.
    pub fn all() -> (terminals: Vec<Terminal>)
        ensures
            terminals@ == offered_terminals(),
    {
        let mut terminals: Vec<Terminal> = Vec::new();
        terminals.push(Terminal::Ghostty);
        terminals.push(Terminal::WezTerm);
        assert(terminals@ =~= offered_terminals());
        terminals
    }

    /// The name that the menu shows.
    pub fn display_name(&self) -> (name: &'static str)
        ensures
            name@ == self.display_name_of(),
    {
        match self {
            Terminal::Ghostty => "Ghostty",
            Terminal::WezTerm => "WezTerm",
            Terminal::Kitty => "Kitty",
            Terminal::Alacritty => "Alacritty",
            Terminal::ITerm => "iTerm2",
            Terminal::TerminalApp => "Terminal.app",
        }
    }

    /// The name that the settings write.
    pub fn config_name(&self) -> (name: &'static str)
        ensures
            name@ == self.config_name_of(),
    {
        match self {
            Terminal::Ghostty => "ghostty",
            Terminal::WezTerm => "wezterm",
            Terminal::Kitty => "kitty",
            Terminal::Alacritty => "alacritty",
            Terminal::ITerm => "iterm",
            Terminal::TerminalApp => "terminal",
        }
    }

    /// The path of the application bundle.
    pub fn bundle_path(&self) -> (path: &'static str)
        ensures
            path@ == self.bundle_path_of(),
    {
        match self {
            Terminal::Ghostty => "/Applications/Ghostty.app",
            Terminal::WezTerm => "/Applications/WezTerm.app",
            Terminal::Kitty => "/Applications/kitty.app",
            Terminal::Alacritty => "/Applications/Alacritty.app",
            Terminal::ITerm => "/Applications/iTerm.app",
            Terminal::TerminalApp => "/System/Applications/Utilities/Terminal.app",
        }
    }

    /// Whether the terminal's application bundle is found on this machine
    /// now. The answer is that of the file system for `bundle_path`.
    pub fn is_installed(&self) -> bool {
        path_exists(self.bundle_path())
    }

    /// Whether the end of an edit is detected by watching the scratch file
    /// instead of waiting for a process.
    pub fn needs_polling(&self) -> (polling: bool)
        ensures
            polling == self.polls(),
    {
        match self {
            Terminal::Ghostty => true,
            Terminal::ITerm => true,
            Terminal::TerminalApp => true,
            _ => false,
        }
    }

    /// How the end of an edit in this terminal is detected.
    pub fn completion(&self) -> (completion: Completion)
        ensures
            completion == self.completion_of(),
    {
        if self.needs_polling() {
            Completion::FileChange
        } else {
            Completion::ProcessExit
        }
    }
}

/// The terminals of a list that are present, in the order of the list:
/// `present` says of each terminal, at the terminal's place in the list,
/// whether it is; a terminal without an answer counts as absent.
pub fn keep_present(terminals: &Vec<Terminal>, present: &Vec<bool>) -> (kept: Vec<Terminal>)
    ensures
        kept@ == present_among(terminals@, present@),
{
    let mut kept: Vec<Terminal> = Vec::new();
    let mut i: usize = 0;
    while i < terminals.len()
        invariant
            i <= terminals.len(),
            kept@ == present_among(terminals@.take(i as int), present@),
        decreases terminals.len() - i,
    {
        proof {
            assert(terminals@.take(i as int + 1).drop_last() =~= terminals@.take(i as int));
        }
        if i < present.len() && present[i] {
            kept.push(terminals[i]);
        }
        i += 1;
    }
    proof {
        assert(terminals@.take(i as int) =~= terminals@);
    }
    kept
}

/// The offered terminals that are installed on this machine now, in the
/// order of the menu. Which of them are installed is the file system's
/// answer; the terminals returned are offered ones, each at most once.
pub fn get_installed_terminals() -> (installed: Vec<Terminal>)
    ensures
        exists|present: Seq<bool>| installed@ == present_among(offered_terminals(), present),
{
    let terminals = Terminal::all();
    let mut present: Vec<bool> = Vec::new();
    let mut i: usize = 0;
    while i < terminals.len()
        invariant
            i <= terminals.len(),
            present.len() == i,
        decreases terminals.len() - i,
    {
        present.push(terminals[i].is_installed());
        i += 1;
    }
    keep_present(&terminals, &present)
}

/// The path at which the editor is looked for in a directory.
pub fn editor_path_in(dir: &str) -> (path: String)
    ensures
        path@ == editor_in(dir@),
{
    let n = dir.unicode_len();
    let mut path = dir.to_owned();
    if n == 0 || dir.get_char(n - 1) == '/' {
        path.append("hx");
    } else {
        path.append("/hx");
    }
    path
}

/// The places where the editor is usually installed, in the order in which
/// they are tried.
pub fn editor_candidates(home: &str) -> (candidates: Vec<String>)
    ensures
        candidates.deep_view() == editor_candidates_of(home@),
{
    let mut under_home = home.to_owned();
    under_home.append("/.cargo/bin/hx");
    let mut candidates: Vec<String> = Vec::new();
    candidates.push("/opt/homebrew/bin/hx".to_owned());
    candidates.push("/usr/local/bin/hx".to_owned());
    candidates.push(under_home);
    candidates.push("/usr/bin/hx".to_owned());
    assert(candidates.deep_view() =~= editor_candidates_of(home@));
    candidates
}

/// The first path of a list that is marked.
pub fn pick_first(paths: &Vec<String>, marks: &Vec<bool>) -> (picked: Option<String>)
    ensures
        opt_text(picked) == first_marked(paths.deep_view(), marks@),
{
    let mut i: usize = 0;
    proof {
        assert(paths.deep_view().skip(0) =~= paths.deep_view());
        assert(marks@.skip(0) =~= marks@);
    }
    while i < paths.len() && i < marks.len()
        invariant
            i <= paths.len(),
            i <= marks.len(),
            first_marked(paths.deep_view(), marks@) == first_marked(
                paths.deep_view().skip(i as int),
                marks@.skip(i as int),
            ),
        decreases paths.len() - i,
    {
        proof {
            let rest = paths.deep_view().skip(i as int);
            let rest_marks = marks@.skip(i as int);
            assert(rest.drop_first() =~= paths.deep_view().skip(i as int + 1));
            assert(rest_marks.drop_first() =~= marks@.skip(i as int + 1));
            assert(rest[0] == paths@[i as int]@);
            assert(rest_marks[0] == marks@[i as int]);
        }
        if marks[i] {
            return Some(paths[i].clone());
        }
        i += 1;
    }
    proof {
        assert(paths.deep_view().skip(i as int).len() == 0 || marks@.skip(i as int).len() == 0);
    }
    None
}

/// The editor that is chosen among the usual places and the places in the
/// search path, given what was found at each.
pub fn choose_editor(
    candidates: &Vec<String>,
    found: &Vec<bool>,
    places: &Vec<String>,
    files: &Vec<bool>,
) -> (path: Option<String>)
    ensures
        opt_text(path) == editor_chosen(
            candidates.deep_view(),
            found@,
            places.deep_view(),
            files@,
        ),
{
    match pick_first(candidates, found) {
        Some(path) => Some(path),
        None => pick_first(places, files),
    }
}

/// The paths at which the editor is looked for in the directories of a
/// search path, in the order of the search path.
pub fn editor_places(search_path: &Vec<String>) -> (places: Vec<String>)
    ensures
        places.deep_view() == editor_in_each(search_path.deep_view()),
{
    let mut places: Vec<String> = Vec::new();
    let mut i: usize = 0;
    while i < search_path.len()
        invariant
            i <= search_path.len(),
            places.len() == i,
            forall|j: int| 0 <= j < i ==> places@[j]@ == editor_in(search_path@[j]@),
        decreases search_path.len() - i,
    {
        places.push(editor_path_in(search_path[i].as_str()));
        i += 1;
    }
    assert(places.deep_view() =~= editor_in_each(search_path.deep_view()));
    places
}

/// Asks the file system of each path whether anything is found at it.
fn probe_exists(paths: &Vec<String>) -> (found: Vec<bool>)
    ensures
        found.len() == paths.len(),
{
    let mut found: Vec<bool> = Vec::new();
    let mut i: usize = 0;
    while i < paths.len()
        invariant
            i <= paths.len(),
            found.len() == i,
        decreases paths.len() - i,
    {
        found.push(path_exists(paths[i].as_str()));
        i += 1;
    }
    found
}

/// Asks the file system of each path whether a regular file is found at it.
fn probe_files(paths: &Vec<String>) -> (files: Vec<bool>)
    ensures
        files.len() == paths.len(),
{
    let mut files: Vec<bool> = Vec::new();
    let mut i: usize = 0;
    while i < paths.len()
        invariant
            i <= paths.len(),
            files.len() == i,
        decreases paths.len() - i,
    {
        files.push(path_is_file(paths[i].as_str()));
        i += 1;
    }
    files
}

/// Looks for the editor: at the usual places, where anything found counts,
/// and in the directories of the search path, where a regular file counts.
/// `home` is the user's home directory, empty where it is unknown. What is
/// found at each place is the file system's answer, one for each of the four
/// usual places and one for each directory of the search path; the path
/// that is returned is the one that `choose_editor` chooses for these
/// answers.
pub fn find_helix(home: &str, search_path: &Vec<String>) -> (path: Option<String>)
    ensures
        exists|found: Seq<bool>, files: Seq<bool>|
            found.len() == 4 && files.len() == search_path.len() && opt_text(path)
                == #[trigger] editor_found(home@, found, search_path.deep_view(), files),
{
    let candidates = editor_candidates(home);
    let found = probe_exists(&candidates);
    let places = editor_places(search_path);
    let files = probe_files(&places);
    proof {
        assert(candidates.deep_view().len() == 4);
        assert(places.deep_view().len() == search_path.deep_view().len());
    }
    let path = choose_editor(&candidates, &found, &places, &files);
    assert(opt_text(path) == editor_found(home@, found@, search_path.deep_view(), files@));
    path
}

/// The path that is marked first is a marked path of the list, and no path
/// before it is marked; where no path is picked, no path with a mark is
/// marked.
pub proof fn lemma_first_marked_is_first(paths: Seq<Seq<char>>, marks: Seq<bool>)
    ensures
        match first_marked(paths, marks) {
            Some(path) => exists|i: int|
                {
                    &&& 0 <= i < paths.len()
                    &&& i < marks.len()
                    &&& #[trigger] paths[i] == path
                    &&& marks[i]
                    &&& forall|j: int| 0 <= j < i ==> !#[trigger] marks[j]
                },
            None => forall|j: int| 0 <= j < paths.len() && j < marks.len() ==> !#[trigger] marks[j],
        },
    decreases paths.len(),
{
    if paths.len() > 0 && marks.len() > 0 && !marks[0] {
        let rest = paths.drop_first();
        let rest_marks = marks.drop_first();
        lemma_first_marked_is_first(rest, rest_marks);
        match first_marked(rest, rest_marks) {
            Some(path) => {
                let i = choose|i: int|
                    {
                        &&& 0 <= i < rest.len()
                        &&& i < rest_marks.len()
                        &&& #[trigger] rest[i] == path
                        &&& rest_marks[i]
                        &&& forall|j: int| 0 <= j < i ==> !#[trigger] rest_marks[j]
                    };
                assert(paths[i + 1] == path);
                assert(marks[i + 1]);
                assert forall|j: int| 0 <= j < i + 1 implies !#[trigger] marks[j] by {
                    if j > 0 {
                        assert(!rest_marks[j - 1]);
                    }
                }
            },
            None => {
                assert forall|j: int| 0 <= j < paths.len() && j < marks.len() implies !#[trigger] marks[j] by {
                    if j > 0 {
                        assert(!rest_marks[j - 1]);
                    }
                }
            },
        }
    } else if paths.len() > 0 && marks.len() > 0 {
        assert(paths[0] == first_marked(paths, marks)->0);
    }
}

/// A hit at a usual place wins over every hit in the search path, and the
/// search path is looked at only where no usual place has a hit.
pub proof fn lemma_usual_place_wins(
    candidates: Seq<Seq<char>>,
    found: Seq<bool>,
    places: Seq<Seq<char>>,
    files: Seq<bool>,
)
    ensures
        first_marked(candidates, found) is Some ==> editor_chosen(candidates, found, places, files)
            == first_marked(candidates, found),
        first_marked(candidates, found) is None ==> editor_chosen(candidates, found, places, files)
            == first_marked(places, files),
{
}

/// The name that the settings write for a terminal stands for that terminal.
pub proof fn lemma_config_name_round_trip(terminal: Terminal)
    ensures
        terminal_of(terminal.config_name_of()) == Some(terminal),
{
    reveal_strlit("ghostty");
    reveal_strlit("wezterm");
    reveal_strlit("kitty");
    reveal_strlit("alacritty");
    reveal_strlit("iterm");
    reveal_strlit("iterm2");
    reveal_strlit("terminal");
    reveal_strlit("terminal.app");
    assert("ghostty"@.len() == 7 && "ghostty"@[0] == 'g');
    assert("wezterm"@.len() == 7 && "wezterm"@[0] == 'w');
    assert("kitty"@.len() == 5 && "kitty"@[0] == 'k');
    assert("alacritty"@.len() == 9 && "alacritty"@[0] == 'a');
    assert("iterm"@.len() == 5 && "iterm"@[0] == 'i');
    assert("iterm2"@.len() == 6);
    assert("terminal"@.len() == 8 && "terminal"@[0] == 't');
    assert("terminal.app"@.len() == 12);
}

/// The terminals kept as present are among those of the list, and no more
/// than the list holds.
pub proof fn lemma_present_are_listed(terminals: Seq<Terminal>, present: Seq<bool>, k: int)
    requires
        0 <= k < present_among(terminals, present).len(),
    ensures
        terminals.contains(present_among(terminals, present)[k]),
        present_among(terminals, present).len() <= terminals.len(),
    decreases terminals.len(),
{
    if terminals.len() > 0 {
        let before = present_among(terminals.drop_last(), present);
        lemma_present_length(terminals.drop_last(), present);
        if k < before.len() {
            lemma_present_are_listed(terminals.drop_last(), present, k);
            let t = before[k];
            let i = choose|i: int| 0 <= i < terminals.drop_last().len() && terminals.drop_last()[i] == t;
            assert(terminals[i] == t);
        } else {
            assert(terminals[terminals.len() - 1] == terminals.last());
        }
    }
}

/// No more terminals are kept than the list holds.
pub proof fn lemma_present_length(terminals: Seq<Terminal>, present: Seq<bool>)
    ensures
        present_among(terminals, present).len() <= terminals.len(),
    decreases terminals.len(),
{
    if terminals.len() > 0 {
        lemma_present_length(terminals.drop_last(), present);
    }
}

} // verus!
