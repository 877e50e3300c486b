use yclass_process::field::{EditingState, FieldIdGenerator, FieldResponse};
use yclass_process::window::{name_matches_filter, ProcessAttachWindow, ProcessEntry};

#[test]
fn editing_state_starts_focused() {
    let st = EditingState::new(0xdead, String::from("123"));
    assert_eq!(st.address, 0xdead);
    assert_eq!(st.buf, "123");
    assert!(st.should_focus);
}

#[test]
fn ids_come_out_in_sequence() {
    let mut gen = FieldIdGenerator::new();
    assert_eq!(gen.next_id(), 0);
    assert_eq!(gen.next_id(), 1);
    assert_eq!(gen.next_id(), 2);
}

#[test]
fn independent_generators_do_not_share_state() {
    let mut a = FieldIdGenerator::new();
    let mut b = FieldIdGenerator::new();
    assert_eq!(a.next_id(), 0);
    assert_eq!(a.next_id(), 1);
    assert_eq!(b.next_id(), 0);
}

#[test]
fn field_response_variants_carry_their_payload() {
    let r = FieldResponse::NewClass(String::from("Player"), 0x1000);
    match r {
        FieldResponse::NewClass(name, address) => {
            assert_eq!(name, "Player");
            assert_eq!(address, 0x1000);
        }
        FieldResponse::LockScroll | FieldResponse::UnlockScroll => {
            panic!("wrong variant");
        }
    }
}

#[test]
fn window_starts_closed_and_empty() {
    let w = ProcessAttachWindow::new();
    assert!(!w.is_shown());
    assert_eq!(w.process_count(), 0);
}

#[test]
fn toggle_flips_and_reports_visibility() {
    let mut w = ProcessAttachWindow::new();
    assert!(w.toggle());
    assert!(w.is_shown());
    assert!(!w.toggle());
    assert!(!w.is_shown());
    assert!(w.toggle());
}

#[test]
fn update_processes_replaces_the_list() {
    let mut w = ProcessAttachWindow::new();
    w.update_processes(vec![
        ProcessEntry {
            id: 1,
            name: String::from("init"),
        },
        ProcessEntry {
            id: 1234,
            name: String::from("game"),
        },
    ]);
    assert_eq!(w.process_count(), 2);
    w.update_processes(vec![ProcessEntry {
        id: 7,
        name: String::from("daemon"),
    }]);
    assert_eq!(w.process_count(), 1);
    assert!(!w.is_shown());
}

#[test]
fn empty_filter_passes_everything() {
    assert!(name_matches_filter("init", ""));
    assert!(name_matches_filter("", ""));
}

#[test]
fn filter_is_case_insensitive_containment() {
    assert!(name_matches_filter("Firefox", "fire"));
    assert!(name_matches_filter("firefox", "FOX"));
    assert!(name_matches_filter("firefox", "firefox"));
    assert!(!name_matches_filter("firefox", "chrome"));
    assert!(!name_matches_filter("fox", "firefox"));
    assert!(!name_matches_filter("", "a"));
    assert!(name_matches_filter("a b c", "b "));
}

#[test]
fn window_filter_gates_names() {
    let mut w = ProcessAttachWindow::new();
    assert!(w.filter_allows("anything"));
    w.set_filter(String::from("Game"));
    assert!(w.filter_allows("the-game"));
    assert!(w.filter_allows("GAMES"));
    assert!(!w.filter_allows("editor"));
}
