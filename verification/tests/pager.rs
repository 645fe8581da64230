use diwa::pager::{
    last_page, Controls, PagerAction, PagerEvent, PagerSession, SESSION_TIMEOUT, TRACKS_PER_PAGE,
};

#[test]
fn thirteen_tracks_make_three_pages() {
    assert_eq!(TRACKS_PER_PAGE, 6);
    assert_eq!(last_page(13, 6), 2);
    let mut pager = PagerSession::new(Some(2), 13, 0);
    assert_eq!(pager.page(), 2);
    assert_eq!(pager.last_page(), 2);
    let action = pager.handle(PagerEvent::Next, 13, 1);
    assert_eq!(action, PagerAction::Render { page: 2, last_page: 2 });
    assert_eq!(pager.page(), 2);
}

#[test]
fn last_page_rounds_up() {
    assert_eq!(last_page(0, 6), 0);
    assert_eq!(last_page(1, 6), 0);
    assert_eq!(last_page(6, 6), 0);
    assert_eq!(last_page(7, 6), 1);
    assert_eq!(last_page(12, 6), 1);
    assert_eq!(last_page(13, 6), 2);
    assert_eq!(last_page(5, 1), 4);
    assert_eq!(last_page(usize::MAX, 1), u32::MAX);
}

#[test]
fn new_session_starts_on_the_first_page() {
    let pager = PagerSession::new(None, 20, 100);
    assert_eq!(pager.page(), 0);
    assert_eq!(pager.last_page(), 3);
    assert_eq!(pager.created_at(), 100);
    let far = PagerSession::new(Some(9), 20, 100);
    assert_eq!(far.page(), 3);
    let empty = PagerSession::new(Some(4), 0, 0);
    assert_eq!(empty.page(), 0);
    assert_eq!(empty.last_page(), 0);
}

#[test]
fn prev_on_the_first_page_stays() {
    let mut pager = PagerSession::new(None, 13, 0);
    assert_eq!(pager.handle(PagerEvent::Prev, 13, 1), PagerAction::Render { page: 0, last_page: 2 });
    assert_eq!(pager.page(), 0);
}

#[test]
fn events_move_the_page_by_one() {
    let mut pager = PagerSession::new(None, 13, 0);
    assert_eq!(pager.handle(PagerEvent::Next, 13, 1), PagerAction::Render { page: 1, last_page: 2 });
    assert_eq!(pager.handle(PagerEvent::Reload, 13, 2), PagerAction::Render { page: 1, last_page: 2 });
    assert_eq!(pager.handle(PagerEvent::Next, 13, 3), PagerAction::Render { page: 2, last_page: 2 });
    assert_eq!(pager.handle(PagerEvent::Prev, 13, 4), PagerAction::Render { page: 1, last_page: 2 });
    assert_eq!(pager.created_at(), 0);
}

#[test]
fn page_stays_in_range_over_any_events() {
    let events = [
        PagerEvent::Next,
        PagerEvent::Next,
        PagerEvent::Next,
        PagerEvent::Next,
        PagerEvent::Prev,
        PagerEvent::Reload,
        PagerEvent::Prev,
        PagerEvent::Prev,
        PagerEvent::Prev,
        PagerEvent::Next,
    ];
    let lengths = [13usize, 13, 2, 0, 40, 40, 7, 7, 1, 100];
    let mut pager = PagerSession::new(Some(1), 13, 0);
    for (event, len) in events.iter().zip(lengths.iter()) {
        pager.handle(*event, *len, 5);
        assert!(pager.page() <= pager.last_page());
        assert_eq!(pager.last_page(), last_page(*len, 6));
    }
}

#[test]
fn a_shrunken_queue_pulls_the_page_back() {
    let mut pager = PagerSession::new(Some(3), 30, 0);
    assert_eq!(pager.page(), 3);
    assert_eq!(pager.handle(PagerEvent::Reload, 8, 1), PagerAction::Render { page: 1, last_page: 1 });
    assert_eq!(pager.handle(PagerEvent::Next, 0, 2), PagerAction::Render { page: 0, last_page: 0 });
}

#[test]
fn session_expires_after_its_lifetime() {
    assert_eq!(SESSION_TIMEOUT, 30);
    let mut pager = PagerSession::new(None, 13, 1000);
    assert!(!pager.expired(1000));
    assert!(!pager.expired(1029));
    assert!(pager.expired(1030));
    assert!(!pager.expired(999));
    assert_eq!(pager.handle(PagerEvent::Next, 13, 1029), PagerAction::Render { page: 1, last_page: 2 });
    assert_eq!(pager.handle(PagerEvent::Next, 13, 1030), PagerAction::Detach);
    assert_eq!(pager.page(), 1);
    assert_eq!(pager.handle(PagerEvent::Prev, 0, 5000), PagerAction::Detach);
    assert_eq!(pager.page(), 1);
    assert_eq!(pager.last_page(), 2);
    assert_eq!(pager.created_at(), 1000);
}

#[test]
fn interactions_do_not_extend_the_lifetime() {
    let mut pager = PagerSession::new(None, 13, 0);
    pager.handle(PagerEvent::Next, 13, 29);
    assert!(pager.expired(30));
    assert_eq!(pager.handle(PagerEvent::Next, 13, 30), PagerAction::Detach);
}

#[test]
fn controls_are_disabled_at_the_ends() {
    let mut pager = PagerSession::new(None, 13, 0);
    assert_eq!(pager.controls(), Controls { prev_disabled: true, next_disabled: false });
    pager.handle(PagerEvent::Next, 13, 1);
    assert_eq!(pager.controls(), Controls { prev_disabled: false, next_disabled: false });
    pager.handle(PagerEvent::Next, 13, 1);
    assert_eq!(pager.controls(), Controls { prev_disabled: false, next_disabled: true });
    let single = PagerSession::new(None, 3, 0);
    assert_eq!(single.controls(), Controls { prev_disabled: true, next_disabled: true });
}

#[test]
fn control_names_are_read() {
    assert_eq!(PagerEvent::from_custom_id("prev"), Some(PagerEvent::Prev));
    assert_eq!(PagerEvent::from_custom_id("next"), Some(PagerEvent::Next));
    assert_eq!(PagerEvent::from_custom_id("reload"), Some(PagerEvent::Reload));
    assert_eq!(PagerEvent::from_custom_id("Prev"), None);
    assert_eq!(PagerEvent::from_custom_id(""), None);
    assert_eq!(PagerEvent::from_custom_id("nextt"), None);
}
