//! The commands that a second instance hands to the running one, how the
//! running one decodes and answers them, and the same answers for the
//! tray menu.

use vstd::prelude::*;
use crate::text::{trim, trim_whitespace, all_whitespace, lemma_trim_ignores_surrounding_whitespace};

verus! {

/// How long the command listener waits between two looks at the command
/// file, in milliseconds.
pub const LISTENER_INTERVAL_MS: u64 = 180;

/// A command of the desktop protocol.
#[derive(Clone, Copy, Debug, PartialEq, Eq, Structural)]
pub enum DesktopCommand {
    Show,
    Organize,
    NewCategory,
    Quit,
}

impl DesktopCommand {
    /// The word that stands for the command in the command file and on the
    /// command line.
    pub open spec fn word(self) -> Seq<char> {
        match self {
            DesktopCommand::Show => "show"@,
            DesktopCommand::Organize => "organize"@,
            DesktopCommand::NewCategory => "new-category"@,
            DesktopCommand::Quit => "quit"@,
        }
    }

    /// The word that stands for the command.
    pub fn name(&self) -> (r: String)
        ensures
            r@ == self.word(),
    {
        match self {
            DesktopCommand::Show => String::from_str("show"),
            DesktopCommand::Organize => String::from_str("organize"),
            DesktopCommand::NewCategory => String::from_str("new-category"),
            DesktopCommand::Quit => String::from_str("quit"),
        }
    }
}

/// The command that a command text stands for, once surrounding
/// whitespace is trimmed; `None` for any other text.
pub open spec fn decode_spec(text: Seq<char>) -> Option<DesktopCommand> {
    let t = trim(text);
    if t == "show"@ {
        Some(DesktopCommand::Show)
    } else if t == "organize"@ {
        Some(DesktopCommand::Organize)
    } else if t == "new-category"@ {
        Some(DesktopCommand::NewCategory)
    } else if t == "quit"@ {
        Some(DesktopCommand::Quit)
    } else {
        None
    }
}

/// Decodes the text of a command file.
pub fn decode_command(text: &str) -> (r: Option<DesktopCommand>)
    ensures
        r == decode_spec(text@),
{
    let t = trim_whitespace(text);
    if t == String::from_str("show") {
        Some(DesktopCommand::Show)
    } else if t == String::from_str("organize") {
        Some(DesktopCommand::Organize)
    } else if t == String::from_str("new-category") {
        Some(DesktopCommand::NewCategory)
    } else if t == String::from_str("quit") {
        Some(DesktopCommand::Quit)
    } else {
        None
    }
}

/// Decoding ignores whitespace around the command word.
pub proof fn law_decode_ignores_surrounding_whitespace(w1: Seq<char>, s: Seq<char>, w2: Seq<char>)
    requires
        all_whitespace(w1),
        all_whitespace(w2),
    ensures
        decode_spec(w1 + s + w2) == decode_spec(s),
{
    lemma_trim_ignores_surrounding_whitespace(w1, s, w2);
}

/// Every command's word decodes to that command.
pub proof fn law_decode_word(c: DesktopCommand)
    ensures
        decode_spec(c.word()) == Some(c),
{
    reveal_strlit("show");
    reveal_strlit("organize");
    reveal_strlit("new-category");
    reveal_strlit("quit");
    let w = c.word();
    assert(trim(w) == w) by {
        reveal_with_fuel(crate::text::trim_start, 2);
        reveal_with_fuel(crate::text::trim_end, 2);
    }
}

/// An event that the window's page is told of.
#[derive(Clone, Copy, Debug, PartialEq, Eq, Structural)]
pub enum UiEvent {
    /// Organise the desktop now.
    OrganizeNow,
    /// Open the dialog for a new category.
    AddCategoryRequest,
    /// Putting the managed shortcuts back on the desktop failed.
    RestoreFailed,
}

impl UiEvent {
    /// The event's name on the page's side.
    pub open spec fn event_name(self) -> Seq<char> {
        match self {
            UiEvent::OrganizeNow => "organize-now"@,
            UiEvent::AddCategoryRequest => "add-category-request"@,
            UiEvent::RestoreFailed => "restore-failed"@,
        }
    }

    /// The event's name on the page's side.
    pub fn name(&self) -> (r: String)
        ensures
            r@ == self.event_name(),
    {
        match self {
            UiEvent::OrganizeNow => String::from_str("organize-now"),
            UiEvent::AddCategoryRequest => String::from_str("add-category-request"),
            UiEvent::RestoreFailed => String::from_str("restore-failed"),
        }
    }
}

/// What the running instance does in answer to a command or a menu entry.
#[derive(Clone, Copy, Debug, PartialEq, Eq, Structural)]
pub enum Reaction {
    /// Nothing.
    Ignore,
    /// Show, unminimise and focus the main window.
    ShowWindow,
    /// Show the main window, then send `event` to the page: to the main
    /// window alone when `to_window`, to the whole application otherwise.
    ShowAndEmit { event: UiEvent, to_window: bool },
    /// Put the managed shortcuts back, then act on the outcome as
    /// `after_restore` says.
    AttemptQuit,
}

/// The answer to a decoded command file.
pub open spec fn command_reaction_spec(c: Option<DesktopCommand>) -> Reaction {
    match c {
        Some(DesktopCommand::Show) => Reaction::ShowWindow,
        Some(DesktopCommand::Organize) => Reaction::ShowAndEmit { event: UiEvent::OrganizeNow, to_window: false },
        Some(DesktopCommand::NewCategory) => Reaction::ShowAndEmit { event: UiEvent::AddCategoryRequest, to_window: false },
        Some(DesktopCommand::Quit) => Reaction::AttemptQuit,
        None => Reaction::Ignore,
    }
}

/// The answer to a decoded command file.
pub fn command_reaction(c: Option<DesktopCommand>) -> (r: Reaction)
    ensures
        r == command_reaction_spec(c),
{
    match c {
        Some(DesktopCommand::Show) => Reaction::ShowWindow,
        Some(DesktopCommand::Organize) => Reaction::ShowAndEmit { event: UiEvent::OrganizeNow, to_window: false },
        Some(DesktopCommand::NewCategory) => Reaction::ShowAndEmit { event: UiEvent::AddCategoryRequest, to_window: false },
        Some(DesktopCommand::Quit) => Reaction::AttemptQuit,
        None => Reaction::Ignore,
    }
}

/// One turn of the command listener, given what reading the command file
/// gave.
#[derive(Clone, Copy, Debug, PartialEq, Eq, Structural)]
pub enum ListenerStep {
    /// The file could not be read: try again on the next turn.
    Wait,
    /// Remove the command file, then answer as the reaction says.
    Consume(Reaction),
}

/// One turn of the command listener: `None` when the command file could
/// not be read, else its text.
pub fn listener_step(content: Option<&str>) -> (r: ListenerStep)
    ensures
        match content {
            None => r == ListenerStep::Wait,
            Some(text) => r == ListenerStep::Consume(command_reaction_spec(decode_spec(text@))),
        },
{
    match content {
        None => ListenerStep::Wait,
        Some(text) => ListenerStep::Consume(command_reaction(decode_command(text))),
    }
}

/// What follows an attempt to quit.
#[derive(Clone, Copy, Debug, PartialEq, Eq, Structural)]
pub enum AfterRestore {
    /// Exit the application (and stop listening for commands).
    Exit,
    /// Stay: show the main window and tell the page `restore-failed`.
    ReportFailure,
}

/// The application exits only once every managed shortcut is back.
pub fn after_restore(restored: bool) -> (r: AfterRestore)
    ensures
        r == (if restored { AfterRestore::Exit } else { AfterRestore::ReportFailure }),
{
    if restored {
        AfterRestore::Exit
    } else {
        AfterRestore::ReportFailure
    }
}

/// The answer to a tray menu entry, by its identifier.
pub open spec fn tray_reaction_spec(id: Seq<char>) -> Reaction {
    if id == "show"@ {
        Reaction::ShowWindow
    } else if id == "organize"@ {
        Reaction::ShowAndEmit { event: UiEvent::OrganizeNow, to_window: true }
    } else if id == "quit"@ {
        Reaction::AttemptQuit
    } else {
        Reaction::Ignore
    }
}

/// The answer to a tray menu entry, by its identifier.
pub fn tray_menu_reaction(id: &str) -> (r: Reaction)
    ensures
        r == tray_reaction_spec(id@),
{
    let id = String::from_str(id);
    if id == String::from_str("show") {
        Reaction::ShowWindow
    } else if id == String::from_str("organize") {
        Reaction::ShowAndEmit { event: UiEvent::OrganizeNow, to_window: true }
    } else if id == String::from_str("quit") {
        Reaction::AttemptQuit
    } else {
        Reaction::Ignore
    }
}

/// A click on the tray icon shows the main window when it is the release
/// of the left button.
pub fn tray_click_reaction(left_button: bool, released: bool) -> (r: Reaction)
    ensures
        r == (if left_button && released { Reaction::ShowWindow } else { Reaction::Ignore }),
{
    if left_button && released {
        Reaction::ShowWindow
    } else {
        Reaction::Ignore
    }
}

/// The views of a list of strings.
pub open spec fn string_views(v: Seq<String>) -> Seq<Seq<char>> {
    v.map_values(|s: String| s@)
}

/// The value after the first `--command` among the program's arguments;
/// `None` where there is no `--command`, or nothing after the first one.
pub open spec fn command_argument_spec(args: Seq<Seq<char>>) -> Option<Seq<char>>
    decreases args.len(),
{
    if args.len() == 0 {
        None
    } else if args[0] == "--command"@ {
        if args.len() >= 2 {
            Some(args[1])
        } else {
            None
        }
    } else {
        command_argument_spec(args.drop_first())
    }
}

/// The value after the first `--command` among the program's arguments.
pub fn command_argument(args: &Vec<String>) -> (r: Option<String>)
    ensures
        match r {
            Some(v) => command_argument_spec(string_views(args@)) == Some(v@),
            None => command_argument_spec(string_views(args@)) is None,
        },
{
    let flag = String::from_str("--command");
    let n: usize = args.len();
    let mut i: usize = 0;
    assert(string_views(args@).skip(0) =~= string_views(args@));
    while i < n
        invariant
            i <= n,
            n == args@.len(),
            flag@ == "--command"@,
            command_argument_spec(string_views(args@)) == command_argument_spec(string_views(args@).skip(i as int)),
        decreases n - i,
    {
        let ghost rest = string_views(args@).skip(i as int);
        assert(rest[0] == args@[i as int]@);
        if args[i] == flag {
            if i + 1 < n {
                assert(rest[1] == args@[i + 1]@);
                return Some(args[i + 1].clone());
            } else {
                return None;
            }
        }
        assert(rest.drop_first() =~= string_views(args@).skip(i + 1));
        i = i + 1;
    }
    None
}

/// A second instance that handed its command over ends there, and so does
/// one asked to quit, handed over or not; any other starts the application.
pub fn finishes_after_send(handled: bool, command: &str) -> (r: bool)
    ensures
        r == (handled || command@ == "quit"@),
{
    handled || String::from_str(command) == String::from_str("quit")
}

} // verus!
