use codex_switch::profile::{ApiAccount, ApiAccountKind, ApiUsageTone};
use codex_switch::ui::{
    active_label, detail_panel, format_account_row, item_width, layout_areas, KeyInput, Rect, UiAction, UiState,
};
use codex_switch::usage::ApiUsageState;

fn loading(name: &str) -> ApiAccount {
    ApiAccount {
        name: name.to_string(),
        profile_dir: format!("/keys/{name}"),
        auth_path: None,
        kind: ApiAccountKind::Account,
        usage: ApiUsageState::Loading,
    }
}

#[test]
fn screen_layout() {
    let (header, list, detail) = layout_areas(Rect { x: 0, y: 0, width: 80, height: 24 });
    assert_eq!(header, Rect { x: 1, y: 1, width: 78, height: 2 });
    assert_eq!(list, Rect { x: 1, y: 3, width: 78, height: 16 });
    assert_eq!(detail, Rect { x: 1, y: 19, width: 78, height: 4 });
    let (h, l, d) = layout_areas(Rect { x: 0, y: 0, width: 1, height: 5 });
    assert_eq!(h.height, 2);
    assert_eq!(d.height, 1);
    assert_eq!(l.height, 0);
    assert_eq!(h.width, 0);
    assert_eq!(item_width(78), 75);
    assert_eq!(item_width(2), 0);
}

#[test]
fn rows_push_usage_to_the_right() {
    let a = loading("acct");
    let row = format_account_row(&a, 30, true);
    assert_eq!(row.name, "acct");
    assert_eq!(row.usage, "5h ... 7d ...");
    assert_eq!(row.gap.len(), 30 - 4 - 13);
    assert!(row.selected);
    assert_eq!(row.tone, ApiUsageTone::Default);
    let narrow = format_account_row(&a, 17, false);
    assert_eq!(narrow.gap, " ");
}

#[test]
fn key_navigation_wraps() {
    let mut s = UiState::new();
    assert_eq!(s.selected, Some(0));
    assert!(s.handle_key(KeyInput::Up, 3) == UiAction::Nothing);
    assert_eq!(s.selected, Some(2));
    s.handle_key(KeyInput::Down, 3);
    assert_eq!(s.selected, Some(0));
    s.handle_key(KeyInput::Char('j'), 3);
    assert_eq!(s.selected, Some(1));
    s.handle_key(KeyInput::Char('k'), 3);
    assert_eq!(s.selected, Some(0));
    s.last_error = Some("boom".to_string());
    s.handle_key(KeyInput::Down, 0);
    assert_eq!(s.selected, Some(0));
    assert_eq!(s.last_error, Some("boom".to_string()));
    s.handle_key(KeyInput::Down, 3);
    assert_eq!(s.last_error, None);
    assert!(s.handle_key(KeyInput::Enter, 3) == UiAction::Apply(1));
    assert!(s.handle_key(KeyInput::Char('l'), 3) == UiAction::Apply(1));
    assert!(s.handle_key(KeyInput::Enter, 1) == UiAction::Nothing);
    assert!(!s.exit);
    s.handle_key(KeyInput::Char('x'), 3);
    assert!(!s.exit);
    s.handle_key(KeyInput::Char('q'), 3);
    assert!(s.exit);
}

#[test]
fn switch_outcomes_and_reselection() {
    let mut s = UiState::new();
    s.switch_finished(Err("缺少默认配置模板: /k".to_string()));
    assert!(!s.exit);
    assert_eq!(s.last_error, Some("缺少默认配置模板: /k".to_string()));
    s.switch_finished(Ok(()));
    assert!(s.exit);
    s.reselect(Some(5), 3);
    assert_eq!(s.selected, Some(2));
    s.reselect(None, 3);
    assert_eq!(s.selected, Some(0));
    s.reselect(Some(1), 0);
    assert_eq!(s.selected, None);
    s.select_first(4);
    assert_eq!(s.selected, Some(0));
    assert_eq!(s.selected_account(0), None);
    assert_eq!(s.selected_account(1), Some(0));
}

#[test]
fn detail_panel_contents() {
    assert_eq!(
        detail_panel(&Some("bad".to_string()), None),
        vec!["error: bad", "按 q 退出，或选择其他 profile"]
    );
    assert_eq!(detail_panel(&None, None), vec!["email: --", "plan_type: --", "5h --% reset --", "7d --% reset --"]);
    let a = loading("x");
    assert_eq!(detail_panel(&None, Some(&a))[0], "email: loading...");
    assert_eq!(active_label(&None), "--");
    assert_eq!(active_label(&Some("account-a".to_string())), "account-a");
}
