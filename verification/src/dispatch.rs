//! What a click on a menu item sets off.
//!
//! The dispatcher has one state and decides by the clicked item's identifier
//! alone. It performs nothing itself: it names the effect, and the caller
//! carries it out.

use vstd::prelude::*;
use crate::menu::{build_settings_menu, settings_menu, MenuDescription, MenuView, APP_NAME};

verus! {

/// What the front end is told.
#[derive(Clone, Debug, PartialEq, Eq)]
pub struct BroadcastPayload {
    pub action: String,
}

/// A payload on its way to the front end, and the channel it goes by.
#[derive(Clone, Debug, PartialEq, Eq)]
pub struct Broadcast {
    pub channel: String,
    pub payload: BroadcastPayload,
}

/// A window to be created.
#[derive(Clone, Debug, PartialEq, Eq)]
pub struct WindowSpec {
    pub identifier: String,
    /// The front-end route that the window opens at.
    pub route: String,
    pub title: String,
}

/// What the caller is to do after a click.
#[derive(Debug, PartialEq, Eq)]
pub enum Effect {
    /// End the process at once with this exit code, without any cleanup.
    Terminate { exit_code: i32 },
    /// Send the payload to the front end.
    Broadcast(Broadcast),
    /// Create and show a window; `menu` is the menu bar prepared for it.
    OpenWindow { window: WindowSpec, menu: MenuDescription },
    /// Do nothing.
    Ignore,
}

/// A `BroadcastPayload` as mathematics.
pub struct BroadcastPayloadView {
    pub action: Seq<char>,
}

/// A `Broadcast` as mathematics.
pub struct BroadcastView {
    pub channel: Seq<char>,
    pub payload: BroadcastPayloadView,
}

/// A `WindowSpec` as mathematics.
pub struct WindowSpecView {
    pub identifier: Seq<char>,
    pub route: Seq<char>,
    pub title: Seq<char>,
}

/// An `Effect` as mathematics.
pub enum EffectView {
    Terminate { exit_code: int },
    Broadcast(BroadcastView),
    OpenWindow { window: WindowSpecView, menu: MenuView },
    Ignore,
}

impl View for BroadcastPayload {
    type V = BroadcastPayloadView;

    open spec fn view(&self) -> BroadcastPayloadView {
        BroadcastPayloadView { action: self.action@ }
    }
}

impl View for Broadcast {
    type V = BroadcastView;

    open spec fn view(&self) -> BroadcastView {
        BroadcastView { channel: self.channel@, payload: self.payload@ }
    }
}

impl View for WindowSpec {
    type V = WindowSpecView;

    open spec fn view(&self) -> WindowSpecView {
        WindowSpecView { identifier: self.identifier@, route: self.route@, title: self.title@ }
    }
}

impl View for Effect {
    type V = EffectView;

    open spec fn view(&self) -> EffectView {
        match self {
            Effect::Terminate { exit_code } => EffectView::Terminate { exit_code: *exit_code as int },
            Effect::Broadcast(broadcast) => EffectView::Broadcast(broadcast@),
            Effect::OpenWindow { window, menu } => EffectView::OpenWindow {
                window: window@,
                menu: menu@,
            },
            Effect::Ignore => EffectView::Ignore,
        }
    }
}

/// The one message the shell sends: "back", on the channel "menu".
pub open spec fn back_broadcast() -> BroadcastView {
    BroadcastView { channel: "menu"@, payload: BroadcastPayloadView { action: "back"@ } }
}

/// The settings window: titled "Preferences", opened at "/settings".
pub open spec fn settings_window() -> WindowSpecView {
    WindowSpecView { identifier: "local"@, route: "/settings"@, title: "Preferences"@ }
}

/// Whether a click reporting `id` sets anything off.
pub open spec fn is_dispatch_id(id: Seq<char>) -> bool {
    id == "quit"@ || id == "close"@ || id == "back"@ || id == "settings"@
}

/// The effect of a click reporting `id`.
pub open spec fn effect_of(id: Seq<char>) -> EffectView {
    if id == "quit"@ {
        EffectView::Terminate { exit_code: 0 }
    } else if id == "close"@ || id == "back"@ {
        EffectView::Broadcast(back_broadcast())
    } else if id == "settings"@ {
        EffectView::OpenWindow { window: settings_window(), menu: settings_menu(APP_NAME@) }
    } else {
        EffectView::Ignore
    }
}

/// Whether two texts are the same, character by character.
fn same_text(a: &str, b: &str) -> (same: bool)
    ensures
        same == (a@ == b@),
{
    let x = a.to_owned();
    let y = b.to_owned();
    x == y
}

/// The effect that sends the front end one step back.
pub fn go_back() -> (effect: Effect)
    ensures
        effect@ == EffectView::Broadcast(back_broadcast()),
{
    Effect::Broadcast(
        Broadcast {
            channel: "menu".to_owned(),
            payload: BroadcastPayload { action: "back".to_owned() },
        },
    )
}

/// The effect that opens the settings window, with the menu bar prepared
/// for it.
pub fn open_settings() -> (effect: Effect)
    ensures
        effect@ == (EffectView::OpenWindow {
            window: settings_window(),
            menu: settings_menu(APP_NAME@),
        }),
{
    let menu = build_settings_menu(APP_NAME);
    let window = WindowSpec {
        identifier: "local".to_owned(),
        route: "/settings".to_owned(),
        title: "Preferences".to_owned(),
    };
    Effect::OpenWindow { window, menu }
}

/// Decides what a click on the item with identifier `id` sets off. Total:
/// an identifier that the dispatcher does not know is ignored.
pub fn dispatch(id: &str) -> (effect: Effect)
    ensures
        effect@ == effect_of(id@),
        effect@ is Ignore <==> !is_dispatch_id(id@),
        effect@ is Terminate <==> id@ == "quit"@,
        id@ == "quit"@ ==> effect@ == (EffectView::Terminate { exit_code: 0 }),
        id@ == "back"@ || id@ == "close"@ ==> effect@ == EffectView::Broadcast(back_broadcast()),
{
    proof {
        lemma_dispatch_ids_differ();
    }
    if same_text(id, "quit") {
        Effect::Terminate { exit_code: 0 }
    } else if same_text(id, "close") {
        go_back()
    } else if same_text(id, "back") {
        go_back()
    } else if same_text(id, "settings") {
        open_settings()
    } else {
        Effect::Ignore
    }
}

/// The four identifiers that the dispatcher knows differ from one another.
proof fn lemma_dispatch_ids_differ()
    ensures
        "quit"@ != "close"@,
        "quit"@ != "back"@,
        "quit"@ != "settings"@,
        "close"@ != "back"@,
        "close"@ != "settings"@,
        "back"@ != "settings"@,
{
    reveal_strlit("quit");
    reveal_strlit("close");
    reveal_strlit("back");
    reveal_strlit("settings");
    assert("quit"@.len() == 4 && "back"@.len() == 4);
    assert("close"@.len() == 5);
    assert("settings"@.len() == 8);
    assert("quit"@[0] != "back"@[0]);
}

/// An identifier outside the dispatch set has no effect; in particular it
/// does not end the process.
pub proof fn lemma_unknown_id_is_ignored(id: Seq<char>)
    requires
        !is_dispatch_id(id),
    ensures
        effect_of(id) == EffectView::Ignore,
{
}

/// "quit" ends the process with exit code 0, and sends nothing.
pub proof fn lemma_quit_terminates()
    ensures
        effect_of("quit"@) == (EffectView::Terminate { exit_code: 0 }),
        !(effect_of("quit"@) is Broadcast),
{
}

/// "back" and "close" send the same payload on the same channel.
pub proof fn lemma_back_and_close_agree()
    ensures
        effect_of("back"@) == effect_of("close"@),
        effect_of("back"@) == EffectView::Broadcast(back_broadcast()),
{
    lemma_dispatch_ids_differ();
}

} // verus!
