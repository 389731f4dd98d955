//! The tray agent's control logic: the menu it shows, and how each event of
//! the tray icon changes the agent's state and what the agent then does.
//!
//! The agent's event loop reads one event at a time, in the order the message
//! pump produced them, and hands each to [`handle_event`]; it then carries out
//! the returned [`TrayReaction`].

use vstd::prelude::*;

verus! {

/// An event of the tray icon or of its menu.
#[derive(Clone, Copy, Debug, PartialEq, Eq, Structural)]
pub enum TrayEvent {
    RightClick,
    LeftClick,
    DoubleClick,
    Exit,
    OpenEditor,
    ToggleStartup,
}

/// One line of the tray menu.
#[derive(Clone, Copy, Debug, PartialEq, Eq, Structural)]
pub enum MenuEntry {
    /// A line with a check mark that sends `event` when chosen.
    Checkable { event: TrayEvent, checked: bool },
    Separator,
    /// A plain line that sends `event` when chosen.
    Item { event: TrayEvent },
}

/// The state the tray agent keeps between events.
#[derive(Clone, Copy, Debug, PartialEq, Eq, Structural)]
pub struct TrayState {
    /// Whether the agent is registered to start with the user's session, as
    /// last set or observed.
    pub startup_enabled: bool,
}

/// What the tray agent does after one event, in this order: persist the
/// startup registration, install a new menu, show the menu, start the editor
/// process, end the process.
#[derive(Clone, Copy, Debug, PartialEq, Eq, Structural)]
pub struct TrayReaction {
    /// `Some(b)`: register (`true`) or unregister (`false`) startup with the session.
    pub persist_startup: Option<bool>,
    /// `Some(b)`: install the menu built by `build_menu(b)`.
    pub install_menu: Option<bool>,
    pub show_menu: bool,
    pub spawn_editor: bool,
    pub exit: bool,
}

/// The menu for a given startup registration: the startup toggle, a
/// separator, the entry that opens the editor, a separator, and the exit entry.
pub open spec fn menu_for(run_at_startup: bool) -> Seq<MenuEntry> {
    seq![
        MenuEntry::Checkable { event: TrayEvent::ToggleStartup, checked: run_at_startup },
        MenuEntry::Separator,
        MenuEntry::Item { event: TrayEvent::OpenEditor },
        MenuEntry::Separator,
        MenuEntry::Item { event: TrayEvent::Exit },
    ]
}

/// The text shown for the menu entry that sends `event`, if there is one.
pub open spec fn label_of(event: TrayEvent) -> Option<Seq<char>> {
    match event {
        TrayEvent::ToggleStartup => Some("Run at Startup"@),
        TrayEvent::OpenEditor => Some("Open GUI"@),
        TrayEvent::Exit => Some("Exit"@),
        _ => None,
    }
}

/// A reaction that does nothing.
pub open spec fn idle() -> TrayReaction {
    TrayReaction {
        persist_startup: None,
        install_menu: None,
        show_menu: false,
        spawn_editor: false,
        exit: false,
    }
}

/// The transition of the tray agent on `event`, where `observed` is what the
/// startup-registration collaborator reports at the time of the event. It is
/// only consulted on a left or right click: the registration may have changed
/// out of band, so the click takes it as the new state and shows it.
pub open spec fn transition(state: TrayState, event: TrayEvent, observed: bool) -> (TrayState, TrayReaction) {
    match event {
        TrayEvent::ToggleStartup => {
            let flipped = !state.startup_enabled;
            (
                TrayState { startup_enabled: flipped },
                TrayReaction { persist_startup: Some(flipped), install_menu: Some(flipped), ..idle() },
            )
        },
        TrayEvent::OpenEditor => (state, TrayReaction { spawn_editor: true, ..idle() }),
        TrayEvent::RightClick | TrayEvent::LeftClick => (
            TrayState { startup_enabled: observed },
            TrayReaction { install_menu: Some(observed), show_menu: true, ..idle() },
        ),
        TrayEvent::DoubleClick => (state, idle()),
        TrayEvent::Exit => (state, TrayReaction { exit: true, ..idle() }),
    }
}

/// Whether handling `event` needs the startup registration as it stands now.
pub fn needs_registration_query(event: TrayEvent) -> (r: bool)
    ensures
        r == (event == TrayEvent::RightClick || event == TrayEvent::LeftClick),
{
    match event {
        TrayEvent::RightClick | TrayEvent::LeftClick => true,
        _ => false,
    }
}

/// Builds the tray menu for a given startup registration.
pub fn build_menu(run_at_startup: bool) -> (r: Vec<MenuEntry>)
    ensures
        r@ == menu_for(run_at_startup),
{
    let mut menu: Vec<MenuEntry> = Vec::new();
    menu.push(MenuEntry::Checkable { event: TrayEvent::ToggleStartup, checked: run_at_startup });
    menu.push(MenuEntry::Separator);
    menu.push(MenuEntry::Item { event: TrayEvent::OpenEditor });
    menu.push(MenuEntry::Separator);
    menu.push(MenuEntry::Item { event: TrayEvent::Exit });
    assert(menu@ =~= menu_for(run_at_startup));
    menu
}

/// The text of the menu entry that sends `event`; `None` for the events of
/// the icon itself.
pub fn menu_label(event: TrayEvent) -> (r: Option<&'static str>)
    ensures
        r matches Some(s) ==> label_of(event) == Some(s@),
        r is None <==> label_of(event) is None,
{
    match event {
        TrayEvent::ToggleStartup => Some("Run at Startup"),
        TrayEvent::OpenEditor => Some("Open GUI"),
        TrayEvent::Exit => Some("Exit"),
        _ => None,
    }
}

impl TrayState {
    /// The state of a freshly started agent, from the startup registration
    /// observed when the loop is built.
    pub fn new(registered: bool) -> (r: TrayState)
        ensures
            r.startup_enabled == registered,
    {
        TrayState { startup_enabled: registered }
    }
}

/// Handles one event: updates the agent's state and says what the agent does.
/// `observed` is the startup registration reported at the time of the event;
/// it matters only where `needs_registration_query(event)`.
pub fn handle_event(state: &mut TrayState, event: TrayEvent, observed: bool) -> (r: TrayReaction)
    ensures
        (*final(state), r) == transition(*old(state), event, observed),
{
    let none = TrayReaction {
        persist_startup: None,
        install_menu: None,
        show_menu: false,
        spawn_editor: false,
        exit: false,
    };
    match event {
        TrayEvent::ToggleStartup => {
            let flipped = !state.startup_enabled;
            state.startup_enabled = flipped;
            TrayReaction { persist_startup: Some(flipped), install_menu: Some(flipped), ..none }
        },
        TrayEvent::OpenEditor => TrayReaction { spawn_editor: true, ..none },
        TrayEvent::RightClick | TrayEvent::LeftClick => {
            state.startup_enabled = observed;
            TrayReaction { install_menu: Some(observed), show_menu: true, ..none }
        },
        TrayEvent::DoubleClick => none,
        TrayEvent::Exit => TrayReaction { exit: true, ..none },
    }
}

/// Whether the message pump goes on after the OS message call returned
/// `code`: a positive code carries a message; zero (the quit message) or a
/// negative code (failure) ends the loop.
pub fn pump_continues(code: i32) -> (r: bool)
    ensures
        r == (code > 0),
{
    code > 0
}

/// Exit is the only terminal transition, and it changes no state.
pub proof fn exit_is_only_terminal(state: TrayState, event: TrayEvent, observed: bool)
    ensures
        transition(state, event, observed).1.exit <==> event == TrayEvent::Exit,
        event == TrayEvent::Exit ==> transition(state, event, observed).0 == state,
{
}

} // verus!
