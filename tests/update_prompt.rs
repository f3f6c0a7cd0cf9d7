use codex_translate::keys::{KeyCode, KeyEvent, KeyModifiers};
use codex_translate::update_action::UpdateAction;
use codex_translate::update_prompt::{UpdatePromptScreen, UpdateSelection};

fn new_prompt() -> UpdatePromptScreen {
    UpdatePromptScreen::new(
        "9.9.9".into(),
        "1.0.0".into(),
        vec![UpdateAction::NpmGlobalLatest],
    )
}

#[test]
fn update_prompt_confirm_selects_update() {
    let mut screen = new_prompt();
    screen.handle_key(KeyEvent::new(KeyCode::Enter, KeyModifiers::none()));
    assert!(screen.is_done());
    assert_eq!(screen.selection(), Some(UpdateSelection::UpdateNow(UpdateAction::NpmGlobalLatest)));
}

#[test]
fn update_prompt_dismiss_option_leaves_prompt_in_normal_state() {
    let mut screen = new_prompt();
    screen.handle_key(KeyEvent::new(KeyCode::Down, KeyModifiers::none()));
    screen.handle_key(KeyEvent::new(KeyCode::Enter, KeyModifiers::none()));
    assert!(screen.is_done());
    assert_eq!(screen.selection(), Some(UpdateSelection::NotNow));
}

#[test]
fn update_prompt_dont_remind_selects_dismissal() {
    let mut screen = new_prompt();
    screen.handle_key(KeyEvent::new(KeyCode::Down, KeyModifiers::none()));
    screen.handle_key(KeyEvent::new(KeyCode::Down, KeyModifiers::none()));
    screen.handle_key(KeyEvent::new(KeyCode::Enter, KeyModifiers::none()));
    assert!(screen.is_done());
    assert_eq!(screen.selection(), Some(UpdateSelection::DontRemind));
}

#[test]
fn update_prompt_ctrl_c_skips_update() {
    let mut screen = new_prompt();
    screen.handle_key(KeyEvent::new(KeyCode::Char('c'), KeyModifiers::control()));
    assert!(screen.is_done());
    assert_eq!(screen.selection(), Some(UpdateSelection::NotNow));
}

#[test]
fn update_prompt_navigation_wraps_between_entries() {
    let mut screen = new_prompt();
    screen.handle_key(KeyEvent::new(KeyCode::Up, KeyModifiers::none()));
    assert_eq!(screen.highlighted_idx(), 2);
    screen.handle_key(KeyEvent::new(KeyCode::Down, KeyModifiers::none()));
    assert_eq!(screen.highlighted_idx(), 0);
}

#[test]
fn update_prompt_supports_multiple_update_actions() {
    let mut screen = UpdatePromptScreen::new(
        "9.9.9".into(),
        "1.0.0".into(),
        vec![
            UpdateAction::NpmGlobalLatest,
            UpdateAction::PnpmGlobalLatest,
        ],
    );
    screen.handle_key(KeyEvent::new(KeyCode::Char('2'), KeyModifiers::none()));
    assert!(screen.is_done());
    assert_eq!(
        screen.selection(),
        Some(UpdateSelection::UpdateNow(UpdateAction::PnpmGlobalLatest))
    );
}

#[test]
fn prompt_labels_and_frames() {
    let mut screen = new_prompt();
    assert_eq!(screen.options().len(), 3);
    assert_eq!(screen.latest_version(), "9.9.9");
    assert_eq!(UpdateSelection::NotNow.label(), "Skip");
    assert_eq!(UpdateSelection::DontRemind.label(), "Skip until next version");
    assert_eq!(
        UpdateSelection::UpdateNow(UpdateAction::NpmGlobalLatest).label(),
        "Update now (runs `npm install -g @echoflux537/codex`)"
    );
    assert!(!screen.take_frame_request());
    screen.handle_key(KeyEvent::new(KeyCode::Char('j'), KeyModifiers::none()));
    assert!(screen.take_frame_request());
    assert!(!screen.take_frame_request());
    screen.handle_key(KeyEvent::new(KeyCode::Char('0'), KeyModifiers::none()));
    screen.handle_key(KeyEvent::new(KeyCode::Char('9'), KeyModifiers::none()));
    assert!(!screen.is_done());
    screen.handle_key(KeyEvent::new(KeyCode::Esc, KeyModifiers::none()));
    assert_eq!(screen.selection(), Some(UpdateSelection::NotNow));
    assert_eq!(screen.highlighted_idx(), 1);
}
