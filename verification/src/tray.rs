//! The tray: what its icon shows and what its menu does.

use vstd::prelude::*;
use vstd::string::*;

use crate::state::AppStatus;
use crate::text;

verus! {

/// The name of the tray icon.
pub const TRAY_ID: &'static str = "devvoice-tray";

/// A colour: red, green, blue and opacity.
#[derive(Debug, Clone, Copy, PartialEq, Eq, Structural)]
pub struct Rgba {
    pub r: u8,
    pub g: u8,
    pub b: u8,
    pub a: u8,
}

/// A colour from its parts.
pub open spec fn color(r: u8, g: u8, b: u8, a: u8) -> Rgba {
    Rgba { r, g, b, a }
}

/// A colour from its parts.
pub fn rgba(r: u8, g: u8, b: u8, a: u8) -> (res: Rgba)
    ensures
        res == color(r, g, b, a),
{
    Rgba { r, g, b, a }
}

/// The colour of the icon, and whether the system may recolour it: black at rest, green
/// while it speaks, red for an error, yellow while it works.
pub open spec fn icon(status: AppStatus) -> (Rgba, bool) {
    match status {
        AppStatus::Idle | AppStatus::Ready => (color(0, 0, 0, 255), true),
        AppStatus::Speaking => (color(34, 197, 94, 255), false),
        AppStatus::Error => (color(239, 68, 68, 255), false),
        AppStatus::LoadingModel
        | AppStatus::CapturingSelection
        | AppStatus::RewritingText
        | AppStatus::Synthesizing => (color(250, 204, 21, 255), false),
    }
}

/// The colour of the icon, and whether the system may recolour it.
pub fn tray_icon(status: AppStatus) -> (res: (Rgba, bool))
    ensures
        res == icon(status),
{
    match status {
        AppStatus::Idle | AppStatus::Ready => (rgba(0, 0, 0, 255), true),
        AppStatus::Speaking => (rgba(34, 197, 94, 255), false),
        AppStatus::Error => (rgba(239, 68, 68, 255), false),
        AppStatus::LoadingModel
        | AppStatus::CapturingSelection
        | AppStatus::RewritingText
        | AppStatus::Synthesizing => (rgba(250, 204, 21, 255), false),
    }
}

/// What a choice in the menu does.
#[derive(Debug, Clone, Copy, PartialEq, Eq, Structural)]
pub enum MenuCommand {
    Show,
    QueueSelection,
    SkipNext,
    Pause,
    Stop,
    OpenLog,
    Quit,
}

/// The name by which a choice is reported.
pub open spec fn command_id(command: MenuCommand) -> Seq<char> {
    match command {
        MenuCommand::Show => "show"@,
        MenuCommand::QueueSelection => "queue-selection"@,
        MenuCommand::SkipNext => "skip-next"@,
        MenuCommand::Pause => "pause"@,
        MenuCommand::Stop => "stop"@,
        MenuCommand::OpenLog => "open-log"@,
        MenuCommand::Quit => "quit"@,
    }
}

/// What a choice is called in the menu.
pub open spec fn command_label(command: MenuCommand) -> Seq<char> {
    match command {
        MenuCommand::Show => "Show DevVoice"@,
        MenuCommand::QueueSelection => "Queue Selection"@,
        MenuCommand::SkipNext => "Skip to Next Item"@,
        MenuCommand::Pause => "Pause/Resume"@,
        MenuCommand::Stop => "Stop"@,
        MenuCommand::OpenLog => "Open Log File"@,
        MenuCommand::Quit => "Quit"@,
    }
}

/// The choices of the menu, in order.
pub open spec fn menu_commands() -> Seq<MenuCommand> {
    seq![
        MenuCommand::Show,
        MenuCommand::QueueSelection,
        MenuCommand::SkipNext,
        MenuCommand::Pause,
        MenuCommand::Stop,
        MenuCommand::OpenLog,
        MenuCommand::Quit,
    ]
}

/// The choices of the menu, in order.
pub fn build_tray() -> (res: Vec<MenuCommand>)
    ensures
        res@ == menu_commands(),
{
    let mut menu: Vec<MenuCommand> = Vec::new();
    menu.push(MenuCommand::Show);
    menu.push(MenuCommand::QueueSelection);
    menu.push(MenuCommand::SkipNext);
    menu.push(MenuCommand::Pause);
    menu.push(MenuCommand::Stop);
    menu.push(MenuCommand::OpenLog);
    menu.push(MenuCommand::Quit);
    assert(menu@ =~= menu_commands());
    menu
}

/// Whether a line stands before a choice in the menu: it divides off the last one.
pub open spec fn follows_line(command: MenuCommand) -> bool {
    command == MenuCommand::Quit
}

impl MenuCommand {
    /// Whether a line stands before the choice in the menu.
    pub fn is_behind_line(self) -> (res: bool)
        ensures
            res == follows_line(self),
    {
        match self {
            MenuCommand::Quit => true,
            _ => false,
        }
    }

    /// The name by which the choice is reported.
    pub fn id(self) -> (res: &'static str)
        ensures
            res@ == command_id(self),
    {
        match self {
            MenuCommand::Show => "show",
            MenuCommand::QueueSelection => "queue-selection",
            MenuCommand::SkipNext => "skip-next",
            MenuCommand::Pause => "pause",
            MenuCommand::Stop => "stop",
            MenuCommand::OpenLog => "open-log",
            MenuCommand::Quit => "quit",
        }
    }

    /// What the choice is called in the menu.
    pub fn label(self) -> (res: &'static str)
        ensures
            res@ == command_label(self),
    {
        match self {
            MenuCommand::Show => "Show DevVoice",
            MenuCommand::QueueSelection => "Queue Selection",
            MenuCommand::SkipNext => "Skip to Next Item",
            MenuCommand::Pause => "Pause/Resume",
            MenuCommand::Stop => "Stop",
            MenuCommand::OpenLog => "Open Log File",
            MenuCommand::Quit => "Quit",
        }
    }
}

/// The choice that was reported by a name; an unknown name stands for none.
pub fn menu_event(id: &str) -> (res: Option<MenuCommand>)
    ensures
        match res {
            Some(command) => command_id(command) == id@,
            None => forall|command: MenuCommand| #[trigger] command_id(command) != id@,
        },
{
    let menu = build_tray();
    let mut i: usize = 0;
    while i < menu.len()
        invariant
            i <= menu@.len(),
            menu@ == menu_commands(),
            forall|j: int| 0 <= j < i ==> command_id(#[trigger] menu@[j]) != id@,
        decreases menu@.len() - i,
    {
        if text::same_text(menu[i].id(), id) {
            return Some(menu[i]);
        }
        i = i + 1;
    }
    proof {
        lemma_every_command_is_in_the_menu();
        assert forall|command: MenuCommand| #[trigger] command_id(command) != id@ by {
            assert(menu_commands().contains(command));
            let j = choose|j: int| 0 <= j < menu_commands().len() && menu_commands()[j] == command;
            assert(command_id(menu@[j]) != id@);
        }
    }
    None
}

proof fn lemma_every_command_is_in_the_menu()
    ensures
        forall|command: MenuCommand| #[trigger] menu_commands().contains(command),
{
    assert forall|command: MenuCommand| #[trigger] menu_commands().contains(command) by {
        let menu = menu_commands();
        match command {
            MenuCommand::Show => assert(menu[0] == command),
            MenuCommand::QueueSelection => assert(menu[1] == command),
            MenuCommand::SkipNext => assert(menu[2] == command),
            MenuCommand::Pause => assert(menu[3] == command),
            MenuCommand::Stop => assert(menu[4] == command),
            MenuCommand::OpenLog => assert(menu[5] == command),
            MenuCommand::Quit => assert(menu[6] == command),
        }
    }
}

/// Every choice of the menu is known again by the name under which it is reported.
pub proof fn law_menu_names_are_distinct(a: MenuCommand, b: MenuCommand)
    requires
        command_id(a) == command_id(b),
    ensures
        a == b,
{
    reveal_strlit("show");
    reveal_strlit("queue-selection");
    reveal_strlit("skip-next");
    reveal_strlit("pause");
    reveal_strlit("stop");
    reveal_strlit("open-log");
    reveal_strlit("quit");
    assert("show"@[1] == 'h' && "stop"@[1] == 't' && "quit"@[1] == 'u');
    assert("show"@.len() == 4 && "stop"@.len() == 4 && "quit"@.len() == 4);
    assert("queue-selection"@.len() == 15 && "skip-next"@.len() == 9);
    assert("pause"@.len() == 5 && "open-log"@.len() == 8);
    assert(command_id(a)[1] == command_id(b)[1]);
}

} // verus!
