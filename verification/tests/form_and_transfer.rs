use scalegraph_tui::app::App;
use scalegraph_tui::model::AccountInfo;
use scalegraph_tui::numtext::{format_balance, parse_i64};

fn account(id: &str, ty: &str) -> AccountInfo {
    AccountInfo {
        id: id.to_string(),
        participant_id: "p".to_string(),
        account_type: ty.to_string(),
        balance: 0,
    }
}

fn app_on_transfer(accounts: Vec<AccountInfo>) -> App {
    let mut app = App::new();
    app.set_accounts(accounts);
    app.goto_view(1);
    app
}

#[test]
fn suggestions_filter_by_prefix_in_original_order() {
    let mut app = app_on_transfer(vec![
        account("a:op", ""),
        account("b:op", ""),
        account("a:recv", ""),
    ]);
    app.handle_char('a');
    let ids: Vec<String> = app.get_account_suggestions().into_iter().map(|a| a.id).collect();
    assert_eq!(ids, vec!["a:op".to_string(), "a:recv".to_string()]);
}

#[test]
fn cycling_forward_from_none_lands_on_first_match() {
    let mut app = app_on_transfer(vec![
        account("a:op", ""),
        account("b:op", ""),
        account("a:recv", ""),
    ]);
    app.handle_char('a');
    app.next_suggestion();
    assert_eq!(app.transfer_form.suggestion_index, Some(0));
    assert_eq!(app.transfer_form.from_account, "a:op");
    assert!(app.transfer_form.show_suggestions);
}

#[test]
fn cycling_backward_from_none_lands_on_last_match() {
    let mut app = app_on_transfer(vec![
        account("a:op", ""),
        account("b:op", ""),
        account("a:recv", ""),
    ]);
    app.handle_char('a');
    app.prev_suggestion();
    assert_eq!(app.transfer_form.suggestion_index, Some(1));
    assert_eq!(app.transfer_form.from_account, "a:recv");
}

#[test]
fn empty_filter_matches_every_account_and_wraps() {
    let mut app = app_on_transfer(vec![account("x", "Operating"), account("y", "Operating")]);
    app.next_suggestion();
    assert_eq!(app.transfer_form.from_account, "x");
    // the field now holds "x", so the live match list is just "x" again
    app.next_suggestion();
    assert_eq!(app.transfer_form.from_account, "x");
}

#[test]
fn matching_is_case_insensitive_on_id_and_type() {
    let mut app = app_on_transfer(vec![
        account("ALPHA:OP", "Operating"),
        account("beta:op", "Receivables"),
    ]);
    app.handle_char('a');
    app.handle_char('l');
    let ids: Vec<String> = app.get_account_suggestions().into_iter().map(|a| a.id).collect();
    assert_eq!(ids, vec!["ALPHA:OP".to_string()]);

    let mut app2 = app_on_transfer(vec![
        account("ALPHA:OP", "Operating"),
        account("beta:op", "Receivables"),
    ]);
    // "RECEIV" matches the type label of the second account, case-folded
    for c in "RECEIV".chars() {
        app2.handle_char(c);
    }
    let ids2: Vec<String> = app2.get_account_suggestions().into_iter().map(|a| a.id).collect();
    assert_eq!(ids2, vec!["beta:op".to_string()]);
}

#[test]
fn cycling_forward_wraps_a_stale_position_into_range() {
    let mut app = app_on_transfer(vec![
        account("a:op", ""),
        account("b:op", ""),
        account("a:recv", ""),
    ]);
    // a position remembered from an older, longer match list
    app.transfer_form.suggestion_index = Some(7);
    app.next_suggestion();
    // three matches on the empty filter: (7 + 1) % 3 = 2
    assert_eq!(app.transfer_form.suggestion_index, Some(2));
    assert_eq!(app.transfer_form.from_account, "a:recv");
}

#[test]
fn cycling_backward_steps_a_stale_position_down_without_writing() {
    let mut app = app_on_transfer(vec![account("a:op", ""), account("b:op", "")]);
    app.transfer_form.suggestion_index = Some(7);
    app.prev_suggestion();
    // the stale position only steps down; past the end of the current list
    // nothing is written into the field
    assert_eq!(app.transfer_form.suggestion_index, Some(6));
    assert_eq!(app.transfer_form.from_account, "");
}

#[test]
fn suggestions_empty_off_account_fields() {
    let mut app = app_on_transfer(vec![account("a", "Operating")]);
    app.select_next();
    app.select_next();
    assert_eq!(app.transfer_form.selected_field, 2);
    assert!(app.get_account_suggestions().is_empty());
    app.next_suggestion();
    assert_eq!(app.transfer_form.suggestion_index, None);
}

#[test]
fn typing_edits_the_focused_field_and_reopens_suggestions() {
    let mut app = app_on_transfer(vec![account("a", "Operating")]);
    app.handle_char('a');
    app.handle_char('b');
    assert_eq!(app.transfer_form.from_account, "ab");
    assert!(app.transfer_form.show_suggestions);
    assert_eq!(app.transfer_form.suggestion_index, None);
    app.handle_backspace();
    assert_eq!(app.transfer_form.from_account, "a");
    // amount field: no suggestions offered
    app.select_next();
    app.select_next();
    app.handle_char('5');
    assert_eq!(app.transfer_form.amount, "5");
    assert!(!app.transfer_form.show_suggestions);
    app.handle_backspace();
    assert_eq!(app.transfer_form.amount, "");
    app.handle_backspace();
    assert_eq!(app.transfer_form.amount, "");
}

#[test]
fn typing_outside_transfer_changes_nothing() {
    let mut app = App::new();
    app.handle_char('x');
    app.handle_backspace();
    assert_eq!(app.transfer_form.from_account, "");
}

#[test]
fn accept_suggestion_always_advances_focus_by_one() {
    let mut app = app_on_transfer(vec![account("a", "Operating")]);
    for expected in [1usize, 2, 3, 0, 1] {
        app.accept_suggestion();
        assert_eq!(app.transfer_form.selected_field, expected);
        assert_eq!(app.transfer_form.suggestion_index, None);
        assert!(!app.transfer_form.show_suggestions);
    }
}

#[test]
fn invalid_amount_sets_error_and_preserves_accounts() {
    let mut app = app_on_transfer(Vec::new());
    app.transfer_form.from_account = "a:op".to_string();
    app.transfer_form.to_account = "b:op".to_string();
    app.transfer_form.amount = "abc".to_string();
    let plan = app.prepare_transfer();
    assert!(plan.is_none());
    assert_eq!(app.transfer_form.error, Some("Invalid amount".to_string()));
    assert_eq!(app.transfer_form.success, None);
    assert_eq!(app.transfer_form.from_account, "a:op");
    assert_eq!(app.transfer_form.to_account, "b:op");
    // correcting only the amount makes the submission pass
    app.transfer_form.amount = "500".to_string();
    assert!(app.prepare_transfer().is_some());
}

#[test]
fn missing_account_sets_error() {
    let mut app = app_on_transfer(Vec::new());
    app.transfer_form.from_account = "a:op".to_string();
    app.transfer_form.amount = "500".to_string();
    let plan = app.prepare_transfer();
    assert!(plan.is_none());
    assert_eq!(app.transfer_form.error, Some("Both accounts required".to_string()));
}

#[test]
fn valid_submission_builds_the_two_entry_request() {
    let mut app = app_on_transfer(Vec::new());
    app.transfer_form.from_account = "a:op".to_string();
    app.transfer_form.to_account = "b:op".to_string();
    app.transfer_form.amount = "500".to_string();
    app.transfer_form.reference = "x".to_string();
    app.transfer_form.error = Some("stale".to_string());
    let plan = app.prepare_transfer().expect("valid form must produce a request");
    assert_eq!(
        plan.entries,
        vec![("a:op".to_string(), -500), ("b:op".to_string(), 500)]
    );
    assert_eq!(plan.reference, "x");
    assert_eq!(app.transfer_form.error, None);
}

#[test]
fn accepted_transfer_records_history_and_resets_the_form() {
    let mut app = app_on_transfer(Vec::new());
    app.transfer_form.from_account = "a:op".to_string();
    app.transfer_form.to_account = "b:op".to_string();
    app.transfer_form.amount = "500".to_string();
    app.transfer_form.reference = "x".to_string();
    let plan = app.prepare_transfer().unwrap();
    app.record_transfer_success(plan.entries[1].1, "T1");
    assert_eq!(app.history.len(), 1);
    assert_eq!(app.history[0], "Transfer 5.00 from a:op to b:op (ref: x, tx: T1)");
    assert_eq!(app.transfer_form.success, Some("Success! TX: T1".to_string()));
    assert_eq!(app.transfer_form.from_account, "");
    assert_eq!(app.transfer_form.to_account, "");
    assert_eq!(app.transfer_form.amount, "");
    assert_eq!(app.transfer_form.reference, "");
    assert_eq!(app.transfer_form.selected_field, 0);
    assert_eq!(app.transfer_form.error, None);
}

#[test]
fn rejected_transfer_keeps_the_fields_for_correction() {
    let mut app = app_on_transfer(Vec::new());
    app.transfer_form.from_account = "a:op".to_string();
    app.transfer_form.to_account = "b:op".to_string();
    app.transfer_form.amount = "500".to_string();
    app.prepare_transfer().unwrap();
    app.record_transfer_failure("insufficient funds");
    assert_eq!(app.transfer_form.error, Some("Failed: insufficient funds".to_string()));
    assert_eq!(app.transfer_form.from_account, "a:op");
    assert_eq!(app.transfer_form.to_account, "b:op");
    assert_eq!(app.transfer_form.amount, "500");
    assert!(app.history.is_empty());
}

#[test]
fn parse_accepts_signed_decimal_integers_only() {
    assert_eq!(parse_i64("500"), Some(500));
    assert_eq!(parse_i64("+500"), Some(500));
    assert_eq!(parse_i64("-500"), Some(-500));
    assert_eq!(parse_i64("0"), Some(0));
    assert_eq!(parse_i64("9223372036854775807"), Some(i64::MAX));
    assert_eq!(parse_i64("-9223372036854775808"), Some(i64::MIN));
    assert_eq!(parse_i64("9223372036854775808"), None);
    assert_eq!(parse_i64("-9223372036854775809"), None);
    assert_eq!(parse_i64(""), None);
    assert_eq!(parse_i64("+"), None);
    assert_eq!(parse_i64("-"), None);
    assert_eq!(parse_i64("abc"), None);
    assert_eq!(parse_i64("5 "), None);
    assert_eq!(parse_i64(" 5"), None);
    assert_eq!(parse_i64("5.0"), None);
    assert_eq!(parse_i64("5_0"), None);
}

#[test]
fn format_balance_renders_signed_two_decimals() {
    assert_eq!(format_balance(-150023), "-1500.23");
    assert_eq!(format_balance(150023), "1500.23");
    assert_eq!(format_balance(0), "0.00");
    assert_eq!(format_balance(5), "0.05");
    assert_eq!(format_balance(-5), "-0.05");
    assert_eq!(format_balance(-50), "-0.50");
    assert_eq!(format_balance(100), "1.00");
    assert_eq!(format_balance(i64::MAX), "92233720368547758.07");
    assert_eq!(format_balance(i64::MIN), "-92233720368547758.08");
}
