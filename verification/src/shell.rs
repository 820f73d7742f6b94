//! What the shell does on each event of its tray, its menu and its window.
//!
//! The window system calls the shell back with an event; the shell asks
//! `on_event` what to do and does it. Only a request to quit or to exit
//! touches the supervisor: it takes the backend's handle out, and the shell
//! then signals the process.

use crate::supervisor::{release, ProcessHandle, ProcessSupervisor};
use vstd::prelude::*;

verus! {

/// The entries of the tray menu.
#[derive(Clone, Copy, Debug, PartialEq, Eq, Structural)]
pub enum MenuEntry {
    /// Opens the main window.
    Show,
    /// The daily brief. Selecting it does nothing yet.
    Brief,
    /// Stops the backend and leaves.
    Quit,
}

/// The mouse button of a click on the tray icon.
#[derive(Clone, Copy, Debug, PartialEq, Eq, Structural)]
pub enum MouseButton {
    Left,
    Right,
    Middle,
}

/// An event the window system calls the shell back with.
#[derive(Debug, PartialEq, Eq)]
pub enum ShellEvent {
    /// The tray icon was clicked.
    TrayClicked(MouseButton),
    /// The menu entry with this identifier was selected.
    MenuSelected(String),
    /// The user asked to close the main window.
    CloseRequested,
    /// The application is about to exit.
    ExitRequested,
}

/// A `ShellEvent` as plain mathematical values.
pub enum ShellEventView {
    TrayClicked(MouseButton),
    MenuSelected(Seq<char>),
    CloseRequested,
    ExitRequested,
}

impl View for ShellEvent {
    type V = ShellEventView;

    open spec fn view(&self) -> ShellEventView {
        match self {
            ShellEvent::TrayClicked(button) => ShellEventView::TrayClicked(*button),
            ShellEvent::MenuSelected(id) => ShellEventView::MenuSelected(id@),
            ShellEvent::CloseRequested => ShellEventView::CloseRequested,
            ShellEvent::ExitRequested => ShellEventView::ExitRequested,
        }
    }
}

/// What the shell is to do on an event.
#[derive(Debug, PartialEq, Eq)]
pub enum ShellAction<H> {
    /// Nothing.
    Ignore,
    /// Show the main window and give it the focus.
    ShowWindow,
    /// Hide the main window and keep the application running.
    HideWindow,
    /// Signal the released process, if there is one, then leave with the exit
    /// status.
    Quit { released: Option<ProcessHandle<H>>, exit_status: i32 },
    /// Signal the released process, if there is one; the application is
    /// leaving by itself.
    Release { released: Option<ProcessHandle<H>> },
}

/// The exit status of a shell that was asked to quit.
pub const QUIT_STATUS: i32 = 0;

impl MenuEntry {
    /// The identifier under which the entry is registered with the menu.
    pub open spec fn id_of(self) -> Seq<char> {
        match self {
            MenuEntry::Show => "show"@,
            MenuEntry::Brief => "brief"@,
            MenuEntry::Quit => "quit"@,
        }
    }

    /// The identifier under which the entry is registered with the menu.
    pub fn id(self) -> (id: &'static str)
        ensures
            id@ == self.id_of(),
    {
        match self {
            MenuEntry::Show => "show",
            MenuEntry::Brief => "brief",
            MenuEntry::Quit => "quit",
        }
    }

    /// The entries in the order in which the menu lists them.
    pub fn all() -> (entries: Vec<MenuEntry>)
        ensures
            entries@ == seq![MenuEntry::Show, MenuEntry::Brief, MenuEntry::Quit],
    {
        let mut entries: Vec<MenuEntry> = Vec::new();
        entries.push(MenuEntry::Show);
        entries.push(MenuEntry::Brief);
        entries.push(MenuEntry::Quit);
        entries
    }

    /// The entry registered under an identifier, if there is one.
    pub fn from_id(id: &str) -> (entry: Option<MenuEntry>)
        ensures
            entry == entry_of(id@),
    {
        let given = id.to_owned();
        if given == MenuEntry::Show.id().to_owned() {
            Some(MenuEntry::Show)
        } else if given == MenuEntry::Brief.id().to_owned() {
            Some(MenuEntry::Brief)
        } else if given == MenuEntry::Quit.id().to_owned() {
            Some(MenuEntry::Quit)
        } else {
            None
        }
    }
}

/// The entry registered under an identifier, if there is one.
pub open spec fn entry_of(id: Seq<char>) -> Option<MenuEntry> {
    if id == MenuEntry::Show.id_of() {
        Some(MenuEntry::Show)
    } else if id == MenuEntry::Brief.id_of() {
        Some(MenuEntry::Brief)
    } else if id == MenuEntry::Quit.id_of() {
        Some(MenuEntry::Quit)
    } else {
        None
    }
}

/// Every entry is found again under its own identifier: no two entries share
/// one.
pub proof fn lemma_entry_ids_are_distinct(entry: MenuEntry)
    ensures
        entry_of(entry.id_of()) == Some(entry),
{
    reveal_strlit("show");
    reveal_strlit("brief");
    reveal_strlit("quit");
    assert("show"@[0] == 's' && "quit"@[0] == 'q');
}

/// What a supervisor that holds `held` holds after an event, and what the
/// shell is to do.
pub open spec fn react<H>(held: Option<ProcessHandle<H>>, event: ShellEventView) -> (
    Option<ProcessHandle<H>>,
    ShellAction<H>,
) {
    match event {
        ShellEventView::TrayClicked(button) => (
            held,
            if button == MouseButton::Left {
                ShellAction::ShowWindow
            } else {
                ShellAction::Ignore
            },
        ),
        ShellEventView::MenuSelected(id) => match entry_of(id) {
            Some(MenuEntry::Show) => (held, ShellAction::ShowWindow),
            Some(MenuEntry::Quit) => (
                release(held).0,
                ShellAction::Quit { released: release(held).1, exit_status: QUIT_STATUS },
            ),
            _ => (held, ShellAction::Ignore),
        },
        ShellEventView::CloseRequested => (held, ShellAction::HideWindow),
        ShellEventView::ExitRequested => (
            release(held).0,
            ShellAction::Release { released: release(held).1 },
        ),
    }
}

/// Decides what the shell does on an event. A left click on the tray icon
/// and the menu's first entry bring the window up; closing the window only
/// hides it; quitting and exiting stop the supervisor and hand out the
/// process to signal. Nothing else touches the supervisor.
pub fn on_event<H>(
    supervisor: &mut ProcessSupervisor<H>,
    event: &ShellEvent,
) -> (action: ShellAction<H>)
    ensures
        (final(supervisor)@, action) == react(old(supervisor)@, event@),
{
    match event {
        ShellEvent::TrayClicked(button) => match button {
            MouseButton::Left => ShellAction::ShowWindow,
            _ => ShellAction::Ignore,
        },
        ShellEvent::MenuSelected(id) => match MenuEntry::from_id(id.as_str()) {
            Some(MenuEntry::Show) => ShellAction::ShowWindow,
            Some(MenuEntry::Quit) => {
                let released = supervisor.stop();
                ShellAction::Quit { released, exit_status: QUIT_STATUS }
            },
            _ => ShellAction::Ignore,
        },
        ShellEvent::CloseRequested => ShellAction::HideWindow,
        ShellEvent::ExitRequested => {
            let released = supervisor.stop();
            ShellAction::Release { released }
        },
    }
}

/// The process that an action tells the shell to signal, if any.
pub open spec fn released_by<H>(action: ShellAction<H>) -> Option<ProcessHandle<H>> {
    match action {
        ShellAction::Quit { released, .. } => released,
        ShellAction::Release { released } => released,
        _ => None,
    }
}

/// A request to quit and the application's own exit may come in either
/// order. Whichever is first releases the process that was held; the other
/// finds the supervisor idle and releases nothing, so the process is
/// signalled once.
pub proof fn lemma_quit_and_exit_release_once<H>(
    held: Option<ProcessHandle<H>>,
    quit_first: bool,
)
    ensures
        ({
            let quit = ShellEventView::MenuSelected(MenuEntry::Quit.id_of());
            let exit = ShellEventView::ExitRequested;
            let first = react(
                held,
                if quit_first {
                    quit
                } else {
                    exit
                },
            );
            let second = react(
                first.0,
                if quit_first {
                    exit
                } else {
                    quit
                },
            );
            &&& released_by(first.1) == held
            &&& released_by(second.1) is None
            &&& second.0 is None
        }),
{
    lemma_entry_ids_are_distinct(MenuEntry::Quit);
}

} // verus!
