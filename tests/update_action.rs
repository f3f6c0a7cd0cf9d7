use codex_translate::update_action::{detect_update_actions, UpdateAction};

#[test]
fn detects_update_action_without_env_mutation() {
    // Default to npm when no manager is detected
    assert_eq!(
        detect_update_actions(false, false, false),
        vec![UpdateAction::NpmGlobalLatest]
    );
    // npm managed
    assert_eq!(
        detect_update_actions(true, false, false),
        vec![UpdateAction::NpmGlobalLatest]
    );
    // When managed by npm, enable pnpm if available.
    assert_eq!(
        detect_update_actions(true, false, true),
        vec![
            UpdateAction::NpmGlobalLatest,
            UpdateAction::PnpmGlobalLatest
        ]
    );
    // bun managed
    assert_eq!(
        detect_update_actions(false, true, false),
        vec![UpdateAction::BunGlobalLatest]
    );
    // npm takes precedence over bun
    assert_eq!(
        detect_update_actions(true, true, true),
        vec![
            UpdateAction::NpmGlobalLatest,
            UpdateAction::PnpmGlobalLatest
        ]
    );
}

#[test]
fn command_lines() {
    assert_eq!(UpdateAction::NpmGlobalLatest.command_args(), ("npm", &["install", "-g", "@echoflux537/codex"][..]));
    assert_eq!(UpdateAction::PnpmGlobalLatest.command_str(), "pnpm add -g @echoflux537/codex");
    assert_eq!(UpdateAction::BunGlobalLatest.command_str(), "bun install -g @echoflux537/codex");
}
