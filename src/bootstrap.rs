//! The startup sequence, as a state machine whose outside work (opening the
//! store, migrating it, reading the settings, building the tray) the host
//! performs, and the routing of tray and menu events to shell commands.
use vstd::prelude::*;

verus! {

/// Where startup stands.
#[derive(Debug, Clone, Copy, PartialEq, Eq, Structural)]
pub enum BootPhase {
    Uninitialized,
    PoolOpen,
    Migrated,
    SettingsLoaded { show_tray: bool },
    /// Commands may be served; `tray` tells whether the tray icon was built.
    Ready { tray: bool },
    /// Startup failed; the process must not serve commands.
    Failed,
}

/// What the host is to do next.
#[derive(Debug, Clone, Copy, PartialEq, Eq, Structural)]
pub enum BootAction {
    OpenPool,
    RunMigrations,
    ReadSettings,
    /// Build the tray icon with its "hide" and "quit" menu and register its handlers.
    BuildTray,
    /// No outside work: report `Done` to move on.
    Proceed,
    Serve,
    Abort,
}

/// What came of the last action.
#[derive(Debug, Clone, Copy, PartialEq, Eq, Structural)]
pub enum BootEvent {
    Done,
    SettingsRead { show_app_in_system_tray: bool },
    Failed,
}

/// A command for the shell, raised by a tray or menu event.
#[derive(Debug, Clone, Copy, PartialEq, Eq, Structural)]
pub enum ShellCommand {
    /// Close every open window.
    HideWindows,
    /// End the process.
    Quit,
    /// Show and focus the main window.
    FocusMain,
}

#[derive(Debug, Clone, Copy, PartialEq, Eq, Structural)]
pub enum MouseButton {
    Left,
    Right,
    Middle,
}

#[derive(Debug, Clone, Copy, PartialEq, Eq, Structural)]
pub enum MouseButtonState {
    Up,
    Down,
}

pub open spec fn spec_next_action(phase: BootPhase) -> BootAction {
    match phase {
        BootPhase::Uninitialized => BootAction::OpenPool,
        BootPhase::PoolOpen => BootAction::RunMigrations,
        BootPhase::Migrated => BootAction::ReadSettings,
        BootPhase::SettingsLoaded { show_tray } => if show_tray {
            BootAction::BuildTray
        } else {
            BootAction::Proceed
        },
        BootPhase::Ready { .. } => BootAction::Serve,
        BootPhase::Failed => BootAction::Abort,
    }
}

pub open spec fn spec_advance(phase: BootPhase, event: BootEvent) -> BootPhase {
    match (phase, event) {
        (BootPhase::Ready { tray }, _) => BootPhase::Ready { tray },
        (_, BootEvent::Failed) => BootPhase::Failed,
        (BootPhase::Uninitialized, BootEvent::Done) => BootPhase::PoolOpen,
        (BootPhase::PoolOpen, BootEvent::Done) => BootPhase::Migrated,
        (BootPhase::Migrated, BootEvent::SettingsRead { show_app_in_system_tray }) => {
            BootPhase::SettingsLoaded { show_tray: show_app_in_system_tray }
        },
        (BootPhase::SettingsLoaded { show_tray }, BootEvent::Done) => BootPhase::Ready {
            tray: show_tray,
        },
        _ => BootPhase::Failed,
    }
}

/// The phase reached from `phase` through `events`, taken in order.
pub open spec fn phase_after(phase: BootPhase, events: Seq<BootEvent>) -> BootPhase
    decreases events.len(),
{
    if events.len() == 0 {
        phase
    } else {
        phase_after(spec_advance(phase, events[0]), events.drop_first())
    }
}

/// The action the host performs in this phase.
pub fn next_action(phase: BootPhase) -> (r: BootAction)
    ensures
        r == spec_next_action(phase),
{
    match phase {
        BootPhase::Uninitialized => BootAction::OpenPool,
        BootPhase::PoolOpen => BootAction::RunMigrations,
        BootPhase::Migrated => BootAction::ReadSettings,
        BootPhase::SettingsLoaded { show_tray } => if show_tray {
            BootAction::BuildTray
        } else {
            BootAction::Proceed
        },
        BootPhase::Ready { .. } => BootAction::Serve,
        BootPhase::Failed => BootAction::Abort,
    }
}

/// The phase that follows `phase` when its action ended in `event`. A failure, or
/// an event that does not answer the phase's action, ends startup; `Ready` stays.
pub fn advance(phase: BootPhase, event: BootEvent) -> (r: BootPhase)
    ensures
        r == spec_advance(phase, event),
{
    match (phase, event) {
        (BootPhase::Ready { tray }, _) => BootPhase::Ready { tray },
        (_, BootEvent::Failed) => BootPhase::Failed,
        (BootPhase::Uninitialized, BootEvent::Done) => BootPhase::PoolOpen,
        (BootPhase::PoolOpen, BootEvent::Done) => BootPhase::Migrated,
        (BootPhase::Migrated, BootEvent::SettingsRead { show_app_in_system_tray }) => {
            BootPhase::SettingsLoaded { show_tray: show_app_in_system_tray }
        },
        (BootPhase::SettingsLoaded { show_tray }, BootEvent::Done) => BootPhase::Ready {
            tray: show_tray,
        },
        _ => BootPhase::Failed,
    }
}

/// Runs the machine from `Uninitialized` through `events`; returns the phase
/// reached and whether the tray was ever asked for.
pub fn run_startup(events: &Vec<BootEvent>) -> (r: (BootPhase, bool))
    ensures
        r.0 == phase_after(BootPhase::Uninitialized, events@),
        r.1 <==> exists|i: int|
            0 <= i < events@.len() && spec_next_action(
                phase_after(BootPhase::Uninitialized, events@.take(i)),
            ) == BootAction::BuildTray,
{
    let mut phase = BootPhase::Uninitialized;
    let mut tray_asked = false;
    let mut i: usize = 0;
    proof {
        lemma_phase_after_take(BootPhase::Uninitialized, events@, 0);
    }
    while i < events.len()
        invariant
            i <= events@.len(),
            phase == phase_after(BootPhase::Uninitialized, events@.take(i as int)),
            tray_asked <==> exists|k: int|
                0 <= k < i && spec_next_action(
                    phase_after(BootPhase::Uninitialized, events@.take(k)),
                ) == BootAction::BuildTray,
        decreases events@.len() - i,
    {
        if next_action(phase) == BootAction::BuildTray {
            tray_asked = true;
        }
        phase = advance(phase, events[i]);
        proof {
            lemma_phase_after_take(BootPhase::Uninitialized, events@, i as int);
        }
        i = i + 1;
    }
    assert(events@.take(events@.len() as int) =~= events@);
    (phase, tray_asked)
}

/// One more event extends the run by one step.
proof fn lemma_phase_after_take(start: BootPhase, events: Seq<BootEvent>, i: int)
    requires
        0 <= i < events.len() || i == 0,
    ensures
        i == 0 ==> phase_after(start, events.take(0)) == start,
        i < events.len() ==> phase_after(start, events.take(i + 1)) == spec_advance(
            phase_after(start, events.take(i)),
            events[i],
        ),
    decreases i,
{
    assert(events.take(0).len() == 0);
    if 0 < i && i < events.len() {
        let t = events.drop_first();
        lemma_phase_after_take(spec_advance(start, events[0]), t, i - 1);
        assert(events.take(i + 1).drop_first() =~= t.take(i));
        assert(events.take(i).drop_first() =~= t.take(i - 1));
        assert(events.take(i + 1)[0] == events[0]);
        assert(events.take(i)[0] == events[0]);
        assert(t[i - 1] == events[i]);
        assert(phase_after(start, events.take(i + 1)) == phase_after(
            spec_advance(start, events[0]),
            t.take(i),
        ));
        assert(phase_after(start, events.take(i)) == phase_after(
            spec_advance(start, events[0]),
            t.take(i - 1),
        ));
    } else if i == 0 && events.len() > 0 {
        assert(events.take(1).drop_first() =~= Seq::<BootEvent>::empty());
        assert(events.take(1)[0] == events[0]);
        assert(phase_after(start, events.take(1)) == phase_after(
            spec_advance(start, events[0]),
            events.take(1).drop_first(),
        ));
    }
}

/// The tray is built only when the settings asked for it: `BuildTray` is the
/// action of no phase but `SettingsLoaded` with the flag on, and a run in which
/// every step succeeds ends `Ready`, with a tray exactly when the flag was on.
pub proof fn lemma_tray_only_when_enabled(phase: BootPhase, show_app_in_system_tray: bool)
    ensures
        spec_next_action(phase) == BootAction::BuildTray ==> phase == (BootPhase::SettingsLoaded {
            show_tray: true,
        }),
        phase_after(
            BootPhase::Uninitialized,
            seq![
                BootEvent::Done,
                BootEvent::Done,
                BootEvent::SettingsRead { show_app_in_system_tray },
                BootEvent::Done,
            ],
        ) == (BootPhase::Ready { tray: show_app_in_system_tray }),
{
    let events = seq![
        BootEvent::Done,
        BootEvent::Done,
        BootEvent::SettingsRead { show_app_in_system_tray },
        BootEvent::Done,
    ];
    reveal_with_fuel(phase_after, 5);
    assert(events.drop_first().drop_first().drop_first().drop_first() =~= Seq::<BootEvent>::empty());
}

/// The shell command a menu item raises: "hide" closes the windows, "quit" ends
/// the process; any other id raises none.
pub fn menu_command(id: &String) -> (r: Option<ShellCommand>)
    ensures
        id@ == "hide"@ ==> r == Some(ShellCommand::HideWindows),
        id@ == "quit"@ ==> r == Some(ShellCommand::Quit),
        id@ != "hide"@ && id@ != "quit"@ ==> r is None,
{
    let hide = "hide".to_owned();
    let quit = "quit".to_owned();
    proof {
        reveal_strlit("hide");
        reveal_strlit("quit");
        assert("hide"@[0] != "quit"@[0]);
    }
    if id.eq(&hide) {
        Some(ShellCommand::HideWindows)
    } else if id.eq(&quit) {
        Some(ShellCommand::Quit)
    } else {
        None
    }
}

/// A left click released on the tray icon focuses the main window; any other
/// tray event raises no command.
pub fn tray_click_command(button: MouseButton, state: MouseButtonState) -> (r: Option<ShellCommand>)
    ensures
        r == (if button == MouseButton::Left && state == MouseButtonState::Up {
            Some(ShellCommand::FocusMain)
        } else {
            None
        }),
{
    match (button, state) {
        (MouseButton::Left, MouseButtonState::Up) => Some(ShellCommand::FocusMain),
        _ => None,
    }
}

} // verus!
