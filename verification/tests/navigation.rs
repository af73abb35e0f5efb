use scalegraph_tui::app::App;
use scalegraph_tui::model::{ParticipantDetail, ParticipantInfo};
use scalegraph_tui::views::View;

fn participant(id: &str, name: &str) -> ParticipantInfo {
    ParticipantInfo::from_parts(
        id.to_string(),
        name.to_string(),
        4,
        Vec::new(),
        0,
        Vec::new(),
        String::new(),
        None,
    )
}

fn detail_of(id: &str, name: &str) -> ParticipantDetail {
    ParticipantDetail {
        info: participant(id, name),
        accounts: Vec::new(),
        total_balance: 0,
        contracts: Vec::new(),
    }
}

#[test]
fn new_app_starts_on_participants() {
    let app = App::new();
    assert_eq!(app.current_view, View::Participants);
    assert!(app.running);
    assert!(app.participant_detail.is_none());
    assert_eq!(app.participant_selected, Some(0));
    assert_eq!(app.breadcrumb.len(), 1);
    assert_eq!(app.breadcrumb[0].label, "Participants");
    assert_eq!(app.breadcrumb[0].view, View::Participants);
    assert_eq!(app.breadcrumb[0].context, None);
}

#[test]
fn view_all_is_the_flat_ordering() {
    assert_eq!(
        View::all(),
        vec![View::Participants, View::Transfer, View::History, View::Future]
    );
}

#[test]
fn view_titles() {
    assert_eq!(View::Participants.title(), "Participants");
    assert_eq!(View::ParticipantDetail.title(), "Participant Details");
    assert_eq!(View::Transfer.title(), "Transfer");
    assert_eq!(View::History.title(), "History");
    assert_eq!(View::Future.title(), "Future");
}

#[test]
fn next_view_cycles_modulo_flat_length() {
    let mut app = App::new();
    app.goto_view(1);
    assert_eq!(app.current_view, View::Transfer);
    app.next_view();
    assert_eq!(app.current_view, View::History);
    app.next_view();
    assert_eq!(app.current_view, View::Future);
    app.next_view();
    assert_eq!(app.current_view, View::Participants);
    app.next_view();
    assert_eq!(app.current_view, View::Transfer);
}

#[test]
fn prev_view_is_inverse_of_next_view() {
    let mut app = App::new();
    for start in 0..4 {
        app.goto_view(start);
        let before = app.current_view;
        app.next_view();
        app.prev_view();
        assert_eq!(app.current_view, before);
    }
}

#[test]
fn flat_navigation_never_lands_on_detail() {
    let mut app = App::new();
    for start in 0..4 {
        app.goto_view(start);
        assert_ne!(app.current_view, View::ParticipantDetail);
        app.next_view();
        assert_ne!(app.current_view, View::ParticipantDetail);
        app.goto_view(start);
        app.prev_view();
        assert_ne!(app.current_view, View::ParticipantDetail);
    }
}

#[test]
fn flat_navigation_leaves_detail_towards_transfer() {
    let mut app = App::new();
    app.current_view = View::ParticipantDetail;
    app.next_view();
    assert_eq!(app.current_view, View::Transfer);
    app.current_view = View::ParticipantDetail;
    app.prev_view();
    assert_eq!(app.current_view, View::Future);
}

#[test]
fn goto_view_out_of_range_is_a_no_op() {
    let mut app = App::new();
    app.goto_view(3);
    assert_eq!(app.current_view, View::Future);
    app.goto_view(4);
    assert_eq!(app.current_view, View::Future);
    app.goto_view(usize::MAX);
    assert_eq!(app.current_view, View::Future);
}

#[test]
fn breadcrumb_has_two_segments_with_detail_loaded() {
    let mut app = App::new();
    app.current_view = View::ParticipantDetail;
    app.update_breadcrumb();
    // no detail loaded yet: only the root segment
    assert_eq!(app.breadcrumb.len(), 1);
    assert_eq!(app.breadcrumb[0].view, View::Participants);

    app.set_participant_detail(detail_of("p1", "Acme"));
    assert_eq!(app.breadcrumb.len(), 2);
    assert_eq!(app.breadcrumb[0].label, "Participants");
    assert_eq!(app.breadcrumb[1].label, "Acme");
    assert_eq!(app.breadcrumb[1].view, View::ParticipantDetail);
    assert_eq!(app.breadcrumb[1].context, Some("p1".to_string()));
}

#[test]
fn breadcrumb_rebuild_is_deterministic() {
    let mut app = App::new();
    app.current_view = View::ParticipantDetail;
    app.set_participant_detail(detail_of("p1", "Acme"));
    let first = app.breadcrumb.clone();
    app.update_breadcrumb();
    let second = app.breadcrumb.clone();
    assert_eq!(first, second);
    app.update_breadcrumb();
    assert_eq!(app.breadcrumb, second);
}

#[test]
fn breadcrumb_last_segment_names_the_current_view() {
    let mut app = App::new();
    for start in 0..4 {
        app.goto_view(start);
        let last = app.breadcrumb.last().unwrap();
        assert_eq!(last.view, app.current_view);
    }
}

#[test]
fn navigate_to_breadcrumb_goes_back_to_participants() {
    let mut app = App::new();
    app.current_view = View::ParticipantDetail;
    app.set_participant_detail(detail_of("p1", "Acme"));
    assert_eq!(app.breadcrumb.len(), 2);
    app.navigate_to_breadcrumb(0);
    assert_eq!(app.current_view, View::Participants);
    assert_eq!(app.breadcrumb.len(), 1);
    // the loaded detail itself stays; only the view and trail change
    assert!(app.participant_detail.is_some());
}

#[test]
fn navigate_to_breadcrumb_out_of_range_is_a_no_op() {
    let mut app = App::new();
    app.navigate_to_breadcrumb(5);
    assert_eq!(app.current_view, View::Participants);
    assert_eq!(app.breadcrumb.len(), 1);
}

#[test]
fn select_next_and_prev_move_the_participant_cursor() {
    let mut app = App::new();
    app.set_participants(vec![participant("a", "A"), participant("b", "B"), participant("c", "C")]);
    assert_eq!(app.participant_selected, Some(0));
    app.select_next();
    assert_eq!(app.participant_selected, Some(1));
    app.select_next();
    assert_eq!(app.participant_selected, Some(2));
    // stops at the last row
    app.select_next();
    assert_eq!(app.participant_selected, Some(2));
    app.select_prev();
    assert_eq!(app.participant_selected, Some(1));
    app.select_prev();
    app.select_prev();
    // stops at the first row
    assert_eq!(app.participant_selected, Some(0));
}

#[test]
fn select_next_cycles_transfer_fields() {
    let mut app = App::new();
    app.goto_view(1);
    assert_eq!(app.transfer_form.selected_field, 0);
    app.select_next();
    assert_eq!(app.transfer_form.selected_field, 1);
    app.select_next();
    app.select_next();
    app.select_next();
    assert_eq!(app.transfer_form.selected_field, 0);
    app.select_prev();
    assert_eq!(app.transfer_form.selected_field, 3);
}
