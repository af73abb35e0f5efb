use scalegraph_tui::app::App;
use scalegraph_tui::contracts::ContractData;
use scalegraph_tui::dispatch::{Action, KeyInput};
use scalegraph_tui::future::{
    eligible_future_events, select_future_events, sort_events_by_time, take_first_five,
};
use scalegraph_tui::history::TransactionData;
use scalegraph_tui::model::{FutureEvent, ParticipantDetail, ParticipantInfo};
use scalegraph_tui::views::View;

fn invoice(id: &str, due: i64, status: &str) -> ContractData {
    ContractData::Invoice {
        id: id.to_string(),
        amount_cents: 1000,
        supplier_id: "sup".to_string(),
        buyer_id: "buy".to_string(),
        due_date: due,
        status: status.to_string(),
    }
}

fn subscription(id: &str, next: i64, status: &str) -> ContractData {
    ContractData::Subscription {
        id: id.to_string(),
        monthly_fee_cents: 999,
        provider_id: "prov".to_string(),
        subscriber_id: "sub".to_string(),
        next_billing_date: next,
        status: status.to_string(),
    }
}

fn generic(id: &str, next: i64, status: i32) -> ContractData {
    ContractData::Generic {
        id: id.to_string(),
        contract_type: 1,
        name: "n".to_string(),
        description: "d".to_string(),
        next_execution_at: next,
        status,
        metadata: Vec::new(),
    }
}

fn event(id: &str, t: i64) -> FutureEvent {
    FutureEvent {
        contract_id: id.to_string(),
        contract_type: "Invoice".to_string(),
        description: String::new(),
        execution_time: t,
    }
}

#[test]
fn eligibility_filters_status_and_time() {
    let now = 100;
    let contracts = vec![
        invoice("due", 150, "pending"),
        invoice("past", 50, "pending"),
        invoice("paid", 150, "paid"),
        subscription("active", 120, "active"),
        subscription("paused", 120, "paused"),
        generic("gen", 130, 1),
        generic("gen_done", 130, 3),
        ContractData::ConditionalPayment {
            id: "cp".to_string(),
            amount_cents: 1,
            payer_id: "x".to_string(),
            receiver_id: "y".to_string(),
        },
    ];
    let events = eligible_future_events(&contracts, now);
    let ids: Vec<String> = events.iter().map(|e| e.contract_id.clone()).collect();
    assert_eq!(ids, vec!["due".to_string(), "active".to_string(), "gen".to_string()]);
    assert_eq!(events[0].description, "Invoice payment: 10.00 from sup to buy");
    assert_eq!(events[0].execution_time, 150);
    assert_eq!(events[1].description, "Subscription billing: 9.99 from prov to sub");
    assert_eq!(events[2].contract_type, "Generic (Loan)");
    assert_eq!(events[2].description, "n: d");
}

#[test]
fn sorting_orders_by_time_and_keeps_every_event() {
    let events = vec![event("c", 30), event("a", 10), event("d", 40), event("b", 20)];
    let sorted = sort_events_by_time(events);
    let ids: Vec<String> = sorted.iter().map(|e| e.contract_id.clone()).collect();
    assert_eq!(
        ids,
        vec!["a".to_string(), "b".to_string(), "c".to_string(), "d".to_string()]
    );
}

#[test]
fn sorting_is_stable_for_equal_times() {
    let events = vec![
        event("late", 30),
        event("tie_first", 20),
        event("tie_second", 20),
        event("early", 10),
        event("tie_third", 20),
    ];
    let sorted = sort_events_by_time(events);
    let ids: Vec<String> = sorted.iter().map(|e| e.contract_id.clone()).collect();
    assert_eq!(
        ids,
        vec!["early".to_string(), "tie_first".to_string(), "tie_second".to_string(),
            "tie_third".to_string(), "late".to_string()]
    );
}

#[test]
fn tie_at_the_five_event_cut_keeps_the_earlier_snapshot_entries() {
    // six eligible events; three share the time at the cut, and the one
    // that came last in the snapshot is the one dropped
    let now = 0;
    let contracts: Vec<ContractData> = vec![
        invoice("a10", 10, "pending"),
        invoice("b20", 20, "pending"),
        invoice("c40_first", 40, "pending"),
        invoice("d40_second", 40, "pending"),
        invoice("e30", 30, "pending"),
        invoice("f40_third", 40, "pending"),
    ];
    let events = select_future_events(&contracts, now);
    let ids: Vec<String> = events.iter().map(|e| e.contract_id.clone()).collect();
    assert_eq!(
        ids,
        vec!["a10".to_string(), "b20".to_string(), "e30".to_string(),
            "c40_first".to_string(), "d40_second".to_string()]
    );
}

#[test]
fn take_first_five_truncates_longer_lists() {
    let six: Vec<FutureEvent> = (0..6).map(|i| event(&format!("e{}", i), i)).collect();
    let five = take_first_five(six);
    assert_eq!(five.len(), 5);
    assert_eq!(five[4].contract_id, "e4");
    let two = take_first_five(vec![event("a", 1), event("b", 2)]);
    assert_eq!(two.len(), 2);
}

#[test]
fn future_selection_keeps_the_five_earliest_sorted() {
    let now = 0;
    let contracts: Vec<ContractData> = vec![
        invoice("i7", 70, "pending"),
        invoice("i3", 30, "pending"),
        subscription("s6", 60, "active"),
        generic("g1", 10, 1),
        invoice("i5", 50, "pending"),
        subscription("s2", 20, "active"),
        generic("g4", 40, 1),
    ];
    let events = select_future_events(&contracts, now);
    assert_eq!(events.len(), 5);
    let times: Vec<i64> = events.iter().map(|e| e.execution_time).collect();
    assert_eq!(times, vec![10, 20, 30, 40, 50]);
    let ids: Vec<String> = events.iter().map(|e| e.contract_id.clone()).collect();
    assert_eq!(
        ids,
        vec!["g1".to_string(), "s2".to_string(), "i3".to_string(), "g4".to_string(),
            "i5".to_string()]
    );
}

#[test]
fn set_future_events_filters_against_the_clock() {
    // the wall clock is far from these epochs: the far-future invoice stays,
    // the long-past one goes
    let mut app = App::new();
    let contracts = vec![
        invoice("far", i64::MAX - 1, "pending"),
        invoice("past", 1, "pending"),
    ];
    let _ = app.set_future_events(&contracts);
    let ids: Vec<String> = app.future_events.iter().map(|e| e.contract_id.clone()).collect();
    assert_eq!(ids, vec!["far".to_string()]);
}

fn participant(id: &str, name: &str) -> ParticipantInfo {
    ParticipantInfo::from_parts(
        id.to_string(),
        name.to_string(),
        4,
        Vec::new(),
        0,
        Vec::new(),
        String::new(),
        None,
    )
}

#[test]
fn quit_keys_stop_the_loop() {
    let mut app = App::new();
    assert_eq!(app.handle_key(KeyInput::CtrlC), Action::Idle);
    assert!(!app.running);

    let mut app = App::new();
    app.handle_key(KeyInput::Char('q'));
    assert!(!app.running);

    // q quits even inside the transfer form
    let mut app = App::new();
    app.goto_view(1);
    app.handle_key(KeyInput::Char('q'));
    assert!(!app.running);
}

#[test]
fn escape_clears_the_form_inside_transfer_and_quits_elsewhere() {
    let mut app = App::new();
    app.goto_view(1);
    app.handle_key(KeyInput::Char('z'));
    assert_eq!(app.transfer_form.from_account, "z");
    app.handle_key(KeyInput::Esc);
    assert!(app.running);
    assert_eq!(app.transfer_form.from_account, "");

    let mut app = App::new();
    app.handle_key(KeyInput::Esc);
    assert!(!app.running);
}

#[test]
fn tab_navigates_and_requests_the_right_reload() {
    let mut app = App::new();
    // Participants -> Transfer: the account cache must be reloaded
    assert_eq!(app.handle_key(KeyInput::Tab), Action::LoadAccounts);
    assert_eq!(app.current_view, View::Transfer);
    // inside Transfer with an account field focused, Tab cycles suggestions
    assert_eq!(app.handle_key(KeyInput::Tab), Action::Idle);
    // on the amount field Tab navigates again: Transfer -> History
    app.transfer_form.selected_field = 2;
    assert_eq!(app.handle_key(KeyInput::Tab), Action::Idle);
    assert_eq!(app.current_view, View::History);
    // History -> Future reloads the events
    assert_eq!(app.handle_key(KeyInput::Right), Action::LoadFutureEvents);
    assert_eq!(app.current_view, View::Future);
    // Future -> History backwards needs nothing
    assert_eq!(app.handle_key(KeyInput::Left), Action::Idle);
    assert_eq!(app.current_view, View::History);
    // History -> Future backwards-cycled: BackTab from Participants
    app.goto_view(0);
    assert_eq!(app.handle_key(KeyInput::BackTab), Action::LoadFutureEvents);
    assert_eq!(app.current_view, View::Future);
}

#[test]
fn digit_keys_jump_to_tabs_outside_transfer() {
    let mut app = App::new();
    // jumping into Transfer reloads the accounts the autocomplete filters
    assert_eq!(app.handle_key(KeyInput::Char('2')), Action::LoadAccounts);
    assert_eq!(app.current_view, View::Transfer);
    // digits type into the form while it is open
    assert_eq!(app.handle_key(KeyInput::Char('1')), Action::Idle);
    assert_eq!(app.transfer_form.from_account, "1");
    app.goto_view(0);
    assert_eq!(app.handle_key(KeyInput::Char('3')), Action::Idle);
    assert_eq!(app.current_view, View::History);
    app.goto_view(0);
    assert_eq!(app.handle_key(KeyInput::Char('4')), Action::LoadFutureEvents);
    assert_eq!(app.current_view, View::Future);
    assert_eq!(app.handle_key(KeyInput::Char('1')), Action::Idle);
    assert_eq!(app.current_view, View::Participants);
}

#[test]
fn enter_drills_into_the_selected_participant() {
    let mut app = App::new();
    app.set_participants(vec![participant("p1", "Acme"), participant("p2", "Bolt")]);
    app.handle_key(KeyInput::Down);
    let action = app.handle_key(KeyInput::Enter);
    assert_eq!(action, Action::LoadParticipantDetail("p2".to_string()));
    assert_eq!(app.current_view, View::ParticipantDetail);

    // without participants Enter does nothing
    let mut app = App::new();
    let action = app.handle_key(KeyInput::Enter);
    assert_eq!(action, Action::Idle);
    assert_eq!(app.current_view, View::Participants);
}

#[test]
fn enter_in_transfer_accepts_or_submits() {
    let mut app = App::new();
    app.goto_view(1);
    assert_eq!(app.handle_key(KeyInput::Enter), Action::Idle);
    assert_eq!(app.transfer_form.selected_field, 1);
    app.transfer_form.selected_field = 2;
    assert_eq!(app.handle_key(KeyInput::Enter), Action::SubmitTransfer);
}

#[test]
fn refresh_requests_everything_and_the_open_detail() {
    let mut app = App::new();
    assert_eq!(app.handle_key(KeyInput::Char('r')), Action::Refresh { detail: None });

    app.current_view = View::ParticipantDetail;
    app.set_participant_detail(ParticipantDetail {
        info: participant("p1", "Acme"),
        accounts: Vec::new(),
        total_balance: 0,
        contracts: Vec::new(),
    });
    assert_eq!(
        app.handle_key(KeyInput::Char('r')),
        Action::Refresh { detail: Some("p1".to_string()) }
    );

    // inside the transfer form, r is text
    let mut app = App::new();
    app.goto_view(1);
    assert_eq!(app.handle_key(KeyInput::Char('r')), Action::Idle);
    assert_eq!(app.transfer_form.from_account, "r");
}

#[test]
fn back_key_walks_the_breadcrumb_and_reloads() {
    let mut app = App::new();
    app.set_participants(vec![participant("p1", "Acme")]);
    app.handle_key(KeyInput::Enter);
    app.set_participant_detail(ParticipantDetail {
        info: participant("p1", "Acme"),
        accounts: Vec::new(),
        total_balance: 0,
        contracts: Vec::new(),
    });
    assert_eq!(app.breadcrumb.len(), 2);
    let action = app.handle_key(KeyInput::Char('b'));
    assert_eq!(action, Action::LoadParticipants);
    assert_eq!(app.current_view, View::Participants);

    // with a trail of one segment, b is only text input (and outside the
    // transfer form, text input changes nothing)
    let action = app.handle_key(KeyInput::Char('b'));
    assert_eq!(action, Action::Idle);
    assert_eq!(app.current_view, View::Participants);
}

#[test]
fn home_and_end_jump_within_the_participant_list() {
    let mut app = App::new();
    app.set_participants(vec![
        participant("a", "A"),
        participant("b", "B"),
        participant("c", "C"),
    ]);
    app.handle_key(KeyInput::End);
    assert_eq!(app.participant_selected, Some(2));
    app.handle_key(KeyInput::Home);
    assert_eq!(app.participant_selected, Some(0));
}

#[test]
fn set_transactions_formats_every_line() {
    let mut app = App::new();
    let txs = vec![
        TransactionData {
            id: "abcdef1234".to_string(),
            kind: "transfer".to_string(),
            entries: vec![("a".to_string(), -1), ("b".to_string(), 1)],
            reference: "r1".to_string(),
        },
        TransactionData {
            id: "0123456789".to_string(),
            kind: "credit".to_string(),
            entries: vec![("c".to_string(), 100)],
            reference: "r2".to_string(),
        },
    ];
    app.set_transactions(&txs);
    assert_eq!(app.history.len(), 2);
    assert_eq!(app.history[0], "[abcdef12] transfer | a: -0.01, b: 0.01 | r1");
    assert_eq!(app.history[1], "[01234567] credit | c: 1.00 | r2");
}
