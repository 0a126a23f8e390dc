use haiku_bot::commands::{Commands, SearchCommand};
use haiku_bot::dispatch::{search_reply, Action, Reply};
use haiku_bot::pager::{HaikuRef, NavOutcome, Navigation, Pager, SESSION_TTL_MILLIS};

fn results(ids: &[i64]) -> Vec<HaikuRef> {
    ids.iter().map(|&id| HaikuRef::new(id, format!("haiku {}", id))).collect()
}

fn shown(p: &Pager, session: u64) -> (i64, usize, usize) {
    let page = p.current_page(session).unwrap();
    (page.id, page.position + 1, page.total)
}

#[test]
fn moon_search_pages_through_three_results() {
    let search = Commands::Search(SearchCommand { keywords: vec!["moon".to_string()] });
    match search.invoke(Some(1)) {
        Action::SearchHaikus { server_id, keywords } => {
            assert_eq!(server_id, 1);
            assert_eq!(keywords, vec!["moon"]);
        }
        other => panic!("unexpected {:?}", other),
    }
    let found = results(&[5, 9, 12]);
    match search_reply(&found) {
        Reply::Page(p) => {
            assert_eq!((p.id, p.position + 1, p.total), (5, 1, 3));
            assert!(p.controls);
        }
        other => panic!("unexpected {:?}", other),
    }
    let mut pager = Pager::new();
    let now = 1_000;
    assert!(pager.open(77, found, now));
    assert_eq!(shown(&pager, 77), (5, 1, 3));
    match pager.navigate(77, Navigation::Next, now + 1) {
        NavOutcome::Moved(p) => assert_eq!((p.id, p.position + 1, p.total), (9, 2, 3)),
        other => panic!("unexpected {:?}", other),
    }
    match pager.navigate(77, Navigation::Next, now + 2) {
        NavOutcome::Moved(p) => assert_eq!((p.id, p.position + 1, p.total), (12, 3, 3)),
        other => panic!("unexpected {:?}", other),
    }
    assert!(matches!(pager.navigate(77, Navigation::Next, now + 3), NavOutcome::Unchanged));
    assert_eq!(shown(&pager, 77), (12, 3, 3));
    assert!(matches!(pager.navigate(77, Navigation::Previous, now + 4), NavOutcome::Moved(_)));
    match pager.navigate(77, Navigation::Previous, now + 5) {
        NavOutcome::Moved(p) => assert_eq!((p.id, p.position + 1, p.total), (5, 1, 3)),
        other => panic!("unexpected {:?}", other),
    }
    assert_eq!(shown(&pager, 77), (5, 1, 3));
}

#[test]
fn empty_search_gives_no_results_and_no_session() {
    let found = results(&[]);
    assert!(matches!(search_reply(&found), Reply::NoResults));
    let mut pager = Pager::new();
    assert!(!pager.open(3, found, 0));
    assert!(!pager.is_active(3));
}

#[test]
fn single_result_has_no_controls_and_no_session() {
    let found = results(&[4]);
    match search_reply(&found) {
        Reply::Page(p) => {
            assert_eq!((p.id, p.position, p.total), (4, 0, 1));
            assert_eq!(p.content, "haiku 4");
            assert!(!p.controls);
        }
        other => panic!("unexpected {:?}", other),
    }
    let mut pager = Pager::new();
    assert!(!pager.open(3, found, 0));
    assert!(!pager.is_active(3));
    assert!(matches!(pager.navigate(3, Navigation::Next, 1), NavOutcome::Unknown));
}

#[test]
fn walking_both_ends_of_five_results() {
    let n: usize = 5;
    let mut pager = Pager::new();
    assert!(pager.open(9, results(&[1, 2, 3, 4, 5]), 0));
    assert_eq!(shown(&pager, 9).1, 1);
    for _ in 0..n - 1 {
        assert!(matches!(pager.navigate(9, Navigation::Next, 10), NavOutcome::Moved(_)));
    }
    assert_eq!(shown(&pager, 9), (5, 5, 5));
    assert!(matches!(pager.navigate(9, Navigation::Next, 10), NavOutcome::Unchanged));
    for _ in 0..n - 1 {
        assert!(matches!(pager.navigate(9, Navigation::Previous, 10), NavOutcome::Moved(_)));
    }
    assert_eq!(shown(&pager, 9), (1, 1, 5));
    assert!(matches!(pager.navigate(9, Navigation::Previous, 10), NavOutcome::Unchanged));
    assert_eq!(shown(&pager, 9), (1, 1, 5));
}

#[test]
fn each_action_moves_one_step() {
    let mut pager = Pager::new();
    assert!(pager.open(2, results(&[10, 20, 30]), 0));
    assert!(matches!(pager.navigate(2, Navigation::Next, 1), NavOutcome::Moved(_)));
    assert_eq!(shown(&pager, 2).1, 2);
    assert!(matches!(pager.navigate(2, Navigation::Next, 2), NavOutcome::Moved(_)));
    assert_eq!(shown(&pager, 2).1, 3);
}

#[test]
fn expired_session_is_closed_and_stays_closed() {
    let mut pager = Pager::new();
    assert!(pager.open(5, results(&[1, 2]), 100));
    let deadline = 100 + SESSION_TTL_MILLIS;
    assert!(matches!(pager.navigate(5, Navigation::Next, deadline - 1), NavOutcome::Moved(_)));
    assert!(matches!(pager.navigate(5, Navigation::Previous, deadline), NavOutcome::Expired));
    assert!(!pager.is_active(5));
    assert!(matches!(pager.navigate(5, Navigation::Previous, deadline + 1), NavOutcome::Unknown));
    assert!(pager.current_page(5).is_none());
}

#[test]
fn close_if_expired_only_after_deadline() {
    let mut pager = Pager::new();
    assert!(pager.open(6, results(&[1, 2]), 0));
    assert!(!pager.close_if_expired(6, SESSION_TTL_MILLIS - 1));
    assert!(pager.is_active(6));
    assert!(pager.close_if_expired(6, SESSION_TTL_MILLIS));
    assert!(!pager.is_active(6));
    assert!(!pager.close_if_expired(6, SESSION_TTL_MILLIS));
}

#[test]
fn deadline_is_clamped_near_the_end_of_time() {
    let mut pager = Pager::new();
    assert!(pager.open(8, results(&[1, 2]), i64::MAX - 5));
    assert!(matches!(pager.navigate(8, Navigation::Next, i64::MAX - 1), NavOutcome::Moved(_)));
    assert!(matches!(pager.navigate(8, Navigation::Next, i64::MAX), NavOutcome::Expired));
}

#[test]
fn sessions_are_independent() {
    let mut pager = Pager::new();
    assert!(pager.open(1, results(&[1, 2, 3]), 0));
    assert!(pager.open(2, results(&[4, 5]), 0));
    assert!(matches!(pager.navigate(1, Navigation::Next, 1), NavOutcome::Moved(_)));
    assert_eq!(shown(&pager, 1), (2, 2, 3));
    assert_eq!(shown(&pager, 2), (4, 1, 2));
}

#[test]
fn reopening_a_message_replaces_its_session() {
    let mut pager = Pager::new();
    assert!(pager.open(1, results(&[1, 2, 3]), 0));
    assert!(matches!(pager.navigate(1, Navigation::Next, 1), NavOutcome::Moved(_)));
    assert!(pager.open(1, results(&[7, 8]), 2));
    assert_eq!(shown(&pager, 1), (7, 1, 2));
}

#[test]
fn custom_ids_name_the_actions() {
    assert_eq!(Navigation::from_custom_id(&"previous".to_string()), Some(Navigation::Previous));
    assert_eq!(Navigation::from_custom_id(&"next".to_string()), Some(Navigation::Next));
    assert_eq!(Navigation::from_custom_id(&"Next".to_string()), None);
}
