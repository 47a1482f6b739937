//! The client session controller, the login form, and the navbar.

use test_tracker::encode::encode_user;
use test_tracker::error::{DieselError, Error};
use test_tracker::login_form::{
    onsubmit_message, LoginOrCreateAccountForm, LoginOrCreateAccountMsg, LoginOrCreateAccountTab,
};
use test_tracker::navbar::{
    init_dark_mode, set_dark_mode_on_body, storage_get_dark_mode, storage_set_dark_mode, DarkMode,
    Navbar, NavbarMsg,
};
use test_tracker::protocol::{ClientToServerMsg, User};
use test_tracker::session::{get_user, App, AppEffect, AppMsg};

fn alice() -> User {
    User { id: "0".to_string(), username: "alice".to_string() }
}

#[test]
fn authenticate_persists_and_refreshes() {
    let mut app = App::new(None);
    let (changed, effects) = app.update(AppMsg::AuthenticateUser(alice(), true));
    assert!(changed);
    assert_eq!(effects.len(), 3);
    match &effects[0] {
        AppEffect::PersistLocal(key, value) => {
            assert_eq!(key, "testTrackerUser");
            assert_eq!(value, &encode_user(&alice()));
        },
        other => panic!("expected a durable persist first, got {other:?}"),
    }
    match &effects[1] {
        AppEffect::PersistSession(key, _) => assert_eq!(key, "testTrackerUser"),
        other => panic!("expected a session persist second, got {other:?}"),
    }
    match &effects[2] {
        AppEffect::SendRequest(ClientToServerMsg::GetTestsAndCompletions { user_id }) => {
            assert_eq!(user_id, "0");
        },
        other => panic!("expected a refresh request last, got {other:?}"),
    }
    assert_eq!(app.user, Some(alice()));
    assert!(app.tests_and_completions.is_empty());
    assert!(app.error_message.is_none());
}

#[test]
fn authenticate_without_remember_me_skips_session_store() {
    let mut app = App::new(None);
    let (_, effects) = app.update(AppMsg::AuthenticateUser(alice(), false));
    assert_eq!(effects.len(), 2);
    assert!(matches!(effects[0], AppEffect::PersistLocal(_, _)));
    assert!(matches!(effects[1], AppEffect::SendRequest(_)));
}

#[test]
fn bad_credentials_surface_one_message() {
    let mut app = App::new(None);
    app.update(AppMsg::SharedError(Error::InvalidPassword));
    assert_eq!(app.error_message.as_deref(), Some("Invalid username or password"));
    app.update(AppMsg::SharedError(Error::DatabaseError(DieselError::NotFound)));
    assert_eq!(app.error_message.as_deref(), Some("Invalid username or password"));
}

#[test]
fn username_taken_surfaces_its_message() {
    let mut app = App::new(None);
    let err = Error::DatabaseError(DieselError::UniqueViolation(
        "duplicate key value violates unique constraint".to_string(),
        Some("Key (username) already exists.".to_string()),
        None,
    ));
    app.update(AppMsg::SharedError(err));
    assert_eq!(app.error_message.as_deref(), Some("Username already taken"));
}

#[test]
fn other_errors_alert_with_detail() {
    let mut app = App::new(None);
    let err = Error::HashingError("b64 encoding invalid".to_string());
    let (_, effects) = app.update(AppMsg::SharedError(err));
    assert_eq!(effects.len(), 1);
    match &effects[0] {
        AppEffect::Alert(text) => {
            assert_eq!(text, "Error: HashingError(\"b64 encoding invalid\")");
        },
        other => panic!("expected an alert, got {other:?}"),
    }
    assert!(app.error_message.is_none());
}

#[test]
fn unknown_errors_alert_with_detail() {
    let mut app = App::new(None);
    let (_, effects) = app.update(AppMsg::UnknownError("connection refused".to_string()));
    match &effects[0] {
        AppEffect::Alert(text) => assert_eq!(text, "Unknown error: connection refused"),
        other => panic!("expected an alert, got {other:?}"),
    }
}

#[test]
fn startup_restores_user_and_refreshes() {
    let stored = encode_user(&alice());
    let restored = get_user(Some(&stored), None);
    assert_eq!(restored, Some(alice()));
    let (app, request) = App::create(restored);
    assert_eq!(app.user, Some(alice()));
    match request {
        Some(ClientToServerMsg::GetTestsAndCompletions { user_id }) => assert_eq!(user_id, "0"),
        other => panic!("expected a refresh request, got {other:?}"),
    }
}

#[test]
fn startup_falls_back_to_session_store() {
    let stored = encode_user(&alice());
    assert_eq!(get_user(None, Some(&stored)), Some(alice()));
    assert_eq!(get_user(Some("garbage"), Some(&stored)), Some(alice()));
    assert_eq!(get_user(None, None), None);
    let (app, request) = App::create(None);
    assert!(app.user.is_none());
    assert!(request.is_none());
}

#[test]
fn blank_credentials_never_reach_the_network() {
    let msg = onsubmit_message(
        LoginOrCreateAccountTab::Login,
        "".to_string(),
        "secret".to_string(),
        false,
    );
    assert_eq!(
        msg,
        LoginOrCreateAccountMsg::ChangeError(
            Some("Please enter a username and password".to_string()),
        )
    );
    let msg = onsubmit_message(
        LoginOrCreateAccountTab::CreateAccount,
        "alice".to_string(),
        "".to_string(),
        true,
    );
    assert!(matches!(msg, LoginOrCreateAccountMsg::ChangeError(_)));
    let msg = onsubmit_message(
        LoginOrCreateAccountTab::CreateAccount,
        "alice".to_string(),
        "pw".to_string(),
        true,
    );
    assert_eq!(
        msg,
        LoginOrCreateAccountMsg::Submit(
            LoginOrCreateAccountTab::CreateAccount,
            ("alice".to_string(), "pw".to_string(), true),
        )
    );
}

#[test]
fn changing_tab_clears_the_error() {
    let mut form = LoginOrCreateAccountForm::create(true);
    assert_eq!(form.error.as_deref(), Some("Invalid username or password"));
    let (changed, submit) = form.update(LoginOrCreateAccountMsg::ChangeTab(
        LoginOrCreateAccountTab::CreateAccount,
    ));
    assert!(changed);
    assert!(submit.is_none());
    assert_eq!(form.tab, LoginOrCreateAccountTab::CreateAccount);
    assert!(form.error.is_none());
}

#[test]
fn submissions_pass_through_the_form() {
    let mut form = LoginOrCreateAccountForm::create(false);
    let params = ("alice".to_string(), "pw".to_string(), false);
    let (_, submit) = form.update(LoginOrCreateAccountMsg::Submit(
        LoginOrCreateAccountTab::Login,
        params.clone(),
    ));
    assert_eq!(submit, Some((LoginOrCreateAccountTab::Login, params)));
    assert!(form.changed(true));
    assert_eq!(form.error.as_deref(), Some("Invalid username or password"));
}

#[test]
fn dark_mode_round_trips_through_storage() {
    let (key, value) = storage_set_dark_mode(DarkMode::Dark);
    assert_eq!(key, "testTrackerDarkMode");
    assert_eq!(value, "dark");
    assert_eq!(storage_get_dark_mode(Some(&value)), Some(DarkMode::Dark));
    assert_eq!(storage_get_dark_mode(Some("DARK")), Some(DarkMode::Dark));
    assert_eq!(storage_get_dark_mode(Some("Light")), Some(DarkMode::Light));
    assert_eq!(storage_get_dark_mode(Some("gibberish")), Some(DarkMode::Light));
    assert_eq!(storage_get_dark_mode(None), None);
}

#[test]
fn stored_mode_wins_over_detection() {
    assert_eq!(init_dark_mode(Some("dark"), DarkMode::Light), (DarkMode::Dark, false));
    assert_eq!(init_dark_mode(None, DarkMode::Dark), (DarkMode::Dark, true));
}

#[test]
fn toggling_flips_and_persists() {
    let mut navbar = Navbar::create(DarkMode::Light);
    let (changed, apply) = navbar.update(NavbarMsg::ToggleDarkMode);
    assert!(changed);
    assert_eq!(apply, Some(DarkMode::Dark));
    assert_eq!(navbar.dark_mode, DarkMode::Dark);
    let (changed, apply) = navbar.update(NavbarMsg::Nothing);
    assert!(!changed);
    assert_eq!(apply, None);
    assert_eq!(navbar.dark_mode.other(), DarkMode::Light);
    assert_eq!(set_dark_mode_on_body(DarkMode::Dark), ("light", "dark"));
    assert_eq!(Navbar::click_msg(0), NavbarMsg::Nothing);
    assert_eq!(Navbar::click_msg(1), NavbarMsg::ToggleDarkMode);
}
