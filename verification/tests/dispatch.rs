use desktop_shell::dispatch::{
    dispatch, go_back, open_settings, Broadcast, BroadcastPayload, Effect, WindowSpec,
};
use desktop_shell::menu::{build_settings_menu, APP_NAME};

fn back() -> Effect {
    Effect::Broadcast(Broadcast {
        channel: String::from("menu"),
        payload: BroadcastPayload { action: String::from("back") },
    })
}

#[test]
fn quit_terminates_with_exit_code_zero_and_sends_nothing() {
    let effect = dispatch("quit");
    assert_eq!(effect, Effect::Terminate { exit_code: 0 });
    assert!(!matches!(effect, Effect::Broadcast(_)));
}

#[test]
fn back_broadcasts_back_on_the_menu_channel() {
    assert_eq!(dispatch("back"), back());
}

#[test]
fn close_broadcasts_back_on_the_menu_channel() {
    assert_eq!(dispatch("close"), back());
}

#[test]
fn back_and_close_send_identical_payloads() {
    let (first, second) = (dispatch("back"), dispatch("close"));
    assert_eq!(first, second);
    match (first, second) {
        (Effect::Broadcast(a), Effect::Broadcast(b)) => {
            assert_eq!(a.channel.as_bytes(), b.channel.as_bytes());
            assert_eq!(a.payload.action.as_bytes(), b.payload.action.as_bytes());
            assert_eq!(a.payload.action, "back");
            assert_eq!(a.channel, "menu");
        }
        _ => panic!("both must broadcast"),
    }
}

#[test]
fn settings_opens_the_preferences_window() {
    match dispatch("settings") {
        Effect::OpenWindow { window, menu } => {
            assert_eq!(
                window,
                WindowSpec {
                    identifier: String::from("local"),
                    route: String::from("/settings"),
                    title: String::from("Preferences"),
                }
            );
            assert_eq!(menu, build_settings_menu(APP_NAME));
            assert_eq!(menu.about_text(), "Tauri App");
        }
        other => panic!("unexpected effect: {:?}", other),
    }
}

#[test]
fn unknown_identifiers_are_ignored() {
    for id in ["open", "home", "", "about", "preferences", "undo", "\u{0}", "退出"] {
        assert_eq!(dispatch(id), Effect::Ignore, "identifier {:?}", id);
    }
}

#[test]
fn near_misses_are_ignored() {
    for id in ["Quit", "QUIT", "quit ", " quit", "qui", "quitt", "closed", "bac", "Back", "setting", "settings\n"] {
        assert_eq!(dispatch(id), Effect::Ignore, "identifier {:?}", id);
    }
}

#[test]
fn only_quit_terminates() {
    for id in ["close", "back", "settings", "open", "home", "exit", ""] {
        assert!(!matches!(dispatch(id), Effect::Terminate { .. }), "identifier {:?}", id);
    }
}

#[test]
fn dispatching_twice_gives_the_same_effect() {
    for id in ["quit", "close", "back", "settings", "open", "nothing"] {
        assert_eq!(dispatch(id), dispatch(id));
    }
}

#[test]
fn go_back_is_the_back_broadcast() {
    assert_eq!(go_back(), back());
}

#[test]
fn open_settings_is_what_settings_dispatches_to() {
    assert_eq!(open_settings(), dispatch("settings"));
}
