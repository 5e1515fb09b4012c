use funnylauncher::gui::main_screen::{MainScreenStatus, ScreenState, StatusLabel};
use funnylauncher::launcher::commands::Command;
use funnylauncher::api::auth::{Auth, AuthError, IS_ERROR, LP_ERROR};
use funnylauncher::api::news::News;
use funnylauncher::gui::message_screen::{MsgBoxScreen, MsgLevel};
use funnylauncher::gui::titlebar::TitleBar;
use funnylauncher::launcher::config::AppConfig;
use funnylauncher::launcher::locale::Locale;

#[test]
fn message_boxes() {
    let m = MsgBoxScreen::new("T", "body", MsgLevel::Warn);
    assert_eq!((m.title(), m.msg(), m.msg_level(), m.is_visible()), ("T", "body", MsgLevel::Warn, true));
    assert_eq!(MsgBoxScreen::info("a", "b").msg_level(), MsgLevel::Info);
    assert_eq!(MsgBoxScreen::warn("a", "b").msg_level(), MsgLevel::Warn);
    let mut e = MsgBoxScreen::error("Error", "boom");
    assert_eq!(e.msg_level(), MsgLevel::Error);
    e.close();
    assert!(!e.is_visible());
    assert_eq!(e.msg(), "boom");
    assert!(!MsgBoxScreen::default().is_visible());
}

#[test]
fn title_bar_builders() {
    let t = TitleBar::new("Launcher");
    assert!(t.closable() && t.resizable() && t.minimaizable() && !t.is_fullscreen());
    let mut t = t.with_closable(false).with_minimaizable(false);
    assert!(!t.closable() && t.resizable() && !t.minimaizable());
    assert_eq!(t.title(), "Launcher");
    assert!(t.toggle_fullscreen());
    assert!(!t.toggle_fullscreen());
    let mut fixed = TitleBar::new("x").with_resizable(false);
    assert!(!fixed.toggle_fullscreen());
}

#[test]
fn error_news_item() {
    let n = News::error_news();
    assert_eq!(n.title, "Error: couldn't load news from service");
    assert!(n.not_clickable);
    assert!(n.id.is_empty() && n.body.is_empty());
}

#[test]
fn saved_token_is_stripped() {
    let a = Auth::from_saved("ab\r\ncd\t\0é\n");
    assert_eq!(a.token, "abcdé");
    assert!(a.login.is_empty() && a.password.is_empty());
    assert_eq!(Auth::from_saved("").token, "");
}

#[test]
fn login_answers() {
    let mut a = Auth::default();
    assert_eq!(a.accept_login_answer(200, Some("tok".to_string())), Ok(()));
    assert_eq!(a.token, "tok");
    assert_eq!(a.accept_login_answer(200, None), Err(AuthError::MissingToken));
    assert_eq!(a.accept_login_answer(401, Some("x".to_string())), Err(AuthError::Rejected));
    assert_eq!(a.accept_login_answer(503, None), Err(AuthError::ServiceError));
    assert_eq!(a.token, "tok");
    assert_eq!(AuthError::Rejected.key(), LP_ERROR);
    assert_eq!(AuthError::ServiceError.key(), IS_ERROR);
}

#[test]
fn config_and_locales() {
    assert_eq!(AppConfig::from_detected(Some("ru-RU".to_string())).locale, "ru-RU");
    assert_eq!(AppConfig::from_detected(None).locale, "en-US");
    assert_eq!(Locale::get_list(), vec!["ru-RU".to_string(), "en-US".to_string()]);
    assert_eq!(Locale::resolve("ru-RU"), "ru-RU");
    assert_eq!(Locale::resolve("de-DE"), "en-US");
    assert_eq!(Locale::resolve("en-US"), "en-US");
}

#[test]
fn main_screen_follows_commands() {
    let mut s = MainScreenStatus::new();
    assert_eq!((s.state, s.label), (ScreenState::Idle, StatusLabel::Ready));
    s.apply(&Command::Validate);
    assert_eq!((s.state, s.label), (ScreenState::Updating, StatusLabel::Checking));
    s.apply(&Command::Download { downloaded: 4096, total: 1048576 });
    assert_eq!((s.state, s.label, s.downloaded, s.total), (ScreenState::Updating, StatusLabel::Downloading, 4096, 1048576));
    assert_eq!(s.progress_text("Downloading"), "Downloading 2Mb/512Mb");
    s.apply(&Command::Unzipping);
    assert_eq!(s.label, StatusLabel::Unpacking);
    s.apply(&Command::Play);
    assert_eq!((s.state, s.label), (ScreenState::Idle, StatusLabel::Running));
    s.apply(&Command::Error { message: "bad".to_string() });
    assert!(s.error.is_visible());
    assert_eq!(s.error.msg(), "bad");
    s.apply(&Command::Continue);
    assert_eq!(s.label, StatusLabel::Ready);
    let before = s.clone();
    s.apply(&Command::Exit);
    assert_eq!(s, before);
}
