//! The decisions of the tray menu: which entry a menu event selects, and the
//! shutdown signal for the HTTP server, which is sent at most once.
use vstd::prelude::*;

verus! {

/// What the daemon does for a menu event.
#[derive(Debug, Clone, Copy, PartialEq, Eq, Structural)]
pub enum TrayAction {
    /// "Next wallpaper" was chosen.
    NextWallpaper,
    /// "Open settings" was chosen.
    OpenGui,
    /// "Exit" was chosen: the event loop stops; `signal_shutdown` says whether
    /// the server's shutdown signal is to be sent now.
    Exit { signal_shutdown: bool },
    /// The event names no entry of this menu.
    Ignored,
}

/// The tray menu as the contracts see it: the identifiers of its three
/// entries and whether the server's shutdown signal is still to be sent.
pub struct TrayState {
    pub next_wallpaper_id: Seq<char>,
    pub open_gui_id: Seq<char>,
    pub exit_id: Seq<char>,
    pub shutdown_pending: bool,
}

/// The state after a menu event with identifier `event`, and the action for it.
/// The entries are tried in menu order: next wallpaper, open settings, exit.
pub open spec fn tray_step(s: TrayState, event: Seq<char>) -> (TrayState, TrayAction) {
    if event == s.next_wallpaper_id {
        (s, TrayAction::NextWallpaper)
    } else if event == s.open_gui_id {
        (s, TrayAction::OpenGui)
    } else if event == s.exit_id {
        (
            TrayState {
                next_wallpaper_id: s.next_wallpaper_id,
                open_gui_id: s.open_gui_id,
                exit_id: s.exit_id,
                shutdown_pending: false,
            },
            TrayAction::Exit { signal_shutdown: s.shutdown_pending },
        )
    } else {
        (s, TrayAction::Ignored)
    }
}

/// The tray menu: the identifiers of its entries and the pending shutdown signal.
pub struct TrayMenu {
    next_wallpaper_id: String,
    open_gui_id: String,
    exit_id: String,
    shutdown_pending: bool,
}

impl View for TrayMenu {
    type V = TrayState;

    closed spec fn view(&self) -> TrayState {
        TrayState {
            next_wallpaper_id: self.next_wallpaper_id@,
            open_gui_id: self.open_gui_id@,
            exit_id: self.exit_id@,
            shutdown_pending: self.shutdown_pending,
        }
    }
}

impl TrayMenu {
    /// A menu with the given entry identifiers, its shutdown signal not sent yet.
    pub fn new(next_wallpaper_id: String, open_gui_id: String, exit_id: String) -> (m: Self)
        ensures
            m@ == (TrayState {
                next_wallpaper_id: next_wallpaper_id@,
                open_gui_id: open_gui_id@,
                exit_id: exit_id@,
                shutdown_pending: true,
            }),
    {
        TrayMenu { next_wallpaper_id, open_gui_id, exit_id, shutdown_pending: true }
    }

    /// Decide what a menu event with identifier `event_id` does.
    pub fn on_menu_event(&mut self, event_id: &String) -> (action: TrayAction)
        ensures
            (final(self)@, action) == tray_step(old(self)@, event_id@),
    {
        if *event_id == self.next_wallpaper_id {
            TrayAction::NextWallpaper
        } else if *event_id == self.open_gui_id {
            TrayAction::OpenGui
        } else if *event_id == self.exit_id {
            let signal_shutdown = self.shutdown_pending;
            self.shutdown_pending = false;
            TrayAction::Exit { signal_shutdown }
        } else {
            TrayAction::Ignored
        }
    }
}

/// Each entry's event selects that entry's action, the entries tried in menu
/// order; the exit entry's event sends the shutdown signal exactly when it is
/// still to be sent, and any other event is ignored.
pub proof fn lemma_entries_select_their_actions(s: TrayState, event: Seq<char>)
    ensures
        event == s.next_wallpaper_id ==> tray_step(s, event).1 == TrayAction::NextWallpaper,
        event != s.next_wallpaper_id && event == s.open_gui_id ==> tray_step(s, event).1
            == TrayAction::OpenGui,
        event != s.next_wallpaper_id && event != s.open_gui_id && event == s.exit_id ==> tray_step(
            s,
            event,
        ) == (
            TrayState { shutdown_pending: false, ..s },
            TrayAction::Exit { signal_shutdown: s.shutdown_pending },
        ),
        event != s.next_wallpaper_id && event != s.open_gui_id && event != s.exit_id ==> tray_step(
            s,
            event,
        ) == (s, TrayAction::Ignored),
{
}

/// The shutdown signal is sent at most once: after an event that sends it, no
/// later event sends it again.
pub proof fn lemma_shutdown_signalled_at_most_once(s: TrayState, first: Seq<char>, later: Seq<char>)
    requires
        tray_step(s, first).1 == (TrayAction::Exit { signal_shutdown: true }),
    ensures
        tray_step(tray_step(s, first).0, later).1 != (TrayAction::Exit { signal_shutdown: true }),
{
}

/// An event that is not the exit entry's changes nothing and never exits.
pub proof fn lemma_non_exit_event_changes_nothing(s: TrayState, event: Seq<char>)
    requires
        event != s.exit_id,
    ensures
        tray_step(s, event).0 == s,
        tray_step(s, event).1 !is Exit,
{
}

/// Once the shutdown signal has been sent, no event sends it.
pub proof fn lemma_no_signal_after_shutdown(s: TrayState, event: Seq<char>)
    requires
        !s.shutdown_pending,
    ensures
        tray_step(s, event).1 != (TrayAction::Exit { signal_shutdown: true }),
{
}

/// With an exit entry whose id no other entry shares, a repeated exit only
/// exits again: the state stays as it is and no shutdown signal is sent. (Where
/// the exit entry shares its id with an earlier entry, that entry's action is
/// taken instead, as the entries are tried in menu order.)
pub proof fn lemma_repeated_exit_only_exits(s: TrayState, first: Seq<char>)
    requires
        s.exit_id != s.next_wallpaper_id,
        s.exit_id != s.open_gui_id,
        tray_step(s, first).1 is Exit,
    ensures
        tray_step(tray_step(s, first).0, s.exit_id) == (
            tray_step(s, first).0,
            TrayAction::Exit { signal_shutdown: false },
        ),
{
}

/// Once sent, the shutdown signal stays sent, whatever event comes.
pub proof fn lemma_shutdown_stays_sent(s: TrayState, event: Seq<char>)
    requires
        !s.shutdown_pending,
    ensures
        !tray_step(s, event).0.shutdown_pending,
{
}

/// The menu's entries never change.
pub proof fn lemma_menu_entries_fixed(s: TrayState, event: Seq<char>)
    ensures
        tray_step(s, event).0.next_wallpaper_id == s.next_wallpaper_id,
        tray_step(s, event).0.open_gui_id == s.open_gui_id,
        tray_step(s, event).0.exit_id == s.exit_id,
{
}

} // verus!
