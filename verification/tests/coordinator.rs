use ticket_relay::coordinator::{
    close_ticket_begin, close_ticket_by_thread_deletion, close_ticket_finish, open_ticket_begin,
    open_ticket_commit, relay_from_platform_a, relay_from_platform_b_begin, TicketError,
    ROOT_FORUM_CHANNEL,
};
use ticket_relay::directory::Directory;
use ticket_relay::message::Msg;

fn ready_directory() -> Directory<u8> {
    let mut d = Directory::new();
    d.set_capability(1);
    d
}

#[test]
fn open_ticket_directs_thread_creation() {
    let d = ready_directory();
    let req = open_ticket_begin(&d, 42, String::from("help")).unwrap();
    assert_eq!(req.root_channel, ROOT_FORUM_CHANNEL);
    assert_eq!(req.title, "help");
    assert_eq!(req.initial_text, "_ _");
}

#[test]
fn open_ticket_fails_before_capability_installed() {
    let d: Directory<u8> = Directory::new();
    let r = open_ticket_begin(&d, 42, String::from("help"));
    assert_eq!(r.err(), Some(TicketError::CapabilityUnavailable));
}

#[test]
fn open_ticket_already_open_creates_no_second_thread() {
    let mut d = ready_directory();
    assert!(open_ticket_begin(&d, 42, String::from("help")).is_ok());
    assert_eq!(open_ticket_commit(&mut d, 700, 42), Ok(()));
    // a second open for the same session fails before any thread is created
    let r = open_ticket_begin(&d, 42, String::from("help again"));
    assert_eq!(r.err(), Some(TicketError::AlreadyOpen));
    assert_eq!(d.lookup_by_session(42), Some(700));
}

#[test]
fn racing_opens_have_one_winner() {
    let mut d = ready_directory();
    // both tasks pass the begin step before either commits
    assert!(open_ticket_begin(&d, 7, String::from("a")).is_ok());
    assert!(open_ticket_begin(&d, 7, String::from("b")).is_ok());
    // both created a thread; the commits race
    assert_eq!(open_ticket_commit(&mut d, 100, 7), Ok(()));
    assert_eq!(open_ticket_commit(&mut d, 101, 7), Err(TicketError::Conflict));
    // exactly one thread is mapped for session 7, the loser's is orphaned
    assert_eq!(d.lookup_by_session(7), Some(100));
    assert_eq!(d.lookup_by_thread(100), Some(7));
    assert_eq!(d.lookup_by_thread(101), None);
}

#[test]
fn close_ticket_removes_both_directions() {
    let mut d = ready_directory();
    assert_eq!(open_ticket_commit(&mut d, 700, 42), Ok(()));
    assert_eq!(close_ticket_begin(&d, 42), Ok(700));
    assert_eq!(close_ticket_finish(&mut d, 42), Ok(700));
    assert_eq!(d.lookup_by_thread(700), None);
    assert_eq!(d.lookup_by_session(42), None);
    // a later relay for the closed session is refused
    let m = Msg::build(None, String::from("bob"), String::from("hi"), Vec::new());
    let r = relay_from_platform_b_begin(&d, 42, &m);
    assert_eq!(r.err(), Some(TicketError::NoTicket));
}

#[test]
fn close_ticket_unknown_session_reports_not_found() {
    let mut d = ready_directory();
    assert_eq!(close_ticket_begin(&d, 42).err(), Some(TicketError::NotFound));
    assert_eq!(close_ticket_finish(&mut d, 42).err(), Some(TicketError::NotFound));
}

#[test]
fn thread_deletion_close_is_idempotent() {
    let mut d = ready_directory();
    assert_eq!(open_ticket_commit(&mut d, 700, 42), Ok(()));
    assert_eq!(close_ticket_by_thread_deletion(&mut d, 700), Some(42));
    // the second deletion event for the same thread is a tolerated no-op
    assert_eq!(close_ticket_by_thread_deletion(&mut d, 700), None);
    assert_eq!(d.lookup_by_session(42), None);
}

#[test]
fn thread_deletion_close_tolerates_unknown_thread() {
    let mut d = ready_directory();
    assert_eq!(close_ticket_by_thread_deletion(&mut d, 12345), None);
}

#[test]
fn relay_from_platform_a_builds_payload() {
    let mut d = ready_directory();
    assert_eq!(open_ticket_commit(&mut d, 700, 42), Ok(()));
    let m = Msg::build(
        Some(String::from("Bob")),
        String::from("bob#1"),
        String::from("hello"),
        vec![(String::from("a.png"), String::from("http://x/a.png"))],
    );
    let p = relay_from_platform_a(&d, 700, &m).unwrap();
    assert_eq!(p.tele_id, 42);
    assert_eq!(p.author, "Bob");
    assert_eq!(p.text, "hello");
    assert_eq!(p.attachment, vec![(String::from("a.png"), String::from("http://x/a.png"))]);
}

#[test]
fn relay_from_platform_a_replaces_empty_text() {
    let mut d = ready_directory();
    assert_eq!(open_ticket_commit(&mut d, 700, 42), Ok(()));
    let m = Msg::build(None, String::from("bob"), String::new(), Vec::new());
    let p = relay_from_platform_a(&d, 700, &m).unwrap();
    assert_eq!(p.text, "_ _");
}

#[test]
fn relay_from_platform_a_keeps_only_first_attachment() {
    let mut d = ready_directory();
    assert_eq!(open_ticket_commit(&mut d, 700, 42), Ok(()));
    let m = Msg::build(
        None,
        String::from("bob"),
        String::from("two files"),
        vec![
            (String::from("a.png"), String::from("http://x/a.png")),
            (String::from("b.png"), String::from("http://x/b.png")),
        ],
    );
    let p = relay_from_platform_a(&d, 700, &m).unwrap();
    assert_eq!(p.attachment.len(), 1);
    assert_eq!(p.attachment[0], (String::from("a.png"), String::from("http://x/a.png")));
}

#[test]
fn relay_from_platform_a_unmapped_fails_no_ticket() {
    let d = ready_directory();
    let m = Msg::build(None, String::from("bob"), String::from("hi"), Vec::new());
    let r = relay_from_platform_a(&d, 700, &m);
    assert_eq!(r.err(), Some(TicketError::NoTicket));
}

#[test]
fn relay_from_platform_b_composes_forum_post() {
    let mut d = ready_directory();
    assert_eq!(open_ticket_commit(&mut d, 700, 42), Ok(()));
    let m = Msg::build(None, String::from("bob"), String::from("hi"), Vec::new());
    let p = relay_from_platform_b_begin(&d, 42, &m).unwrap();
    assert_eq!(p.thread_id, 700);
    assert_eq!(p.text, "bob: hi");
    assert_eq!(p.attachment, None);
}

#[test]
fn relay_from_platform_b_carries_first_attachment() {
    let mut d = ready_directory();
    assert_eq!(open_ticket_commit(&mut d, 700, 42), Ok(()));
    let m = Msg::build(
        None,
        String::from("bob"),
        String::from("look"),
        vec![(String::from("f.jpg"), String::from("http://x/f.jpg"))],
    );
    let p = relay_from_platform_b_begin(&d, 42, &m).unwrap();
    assert_eq!(p.attachment, Some((String::from("f.jpg"), String::from("http://x/f.jpg"))));
}

#[test]
fn relay_from_platform_b_unmapped_fails_no_ticket() {
    let d = ready_directory();
    let m = Msg::build(None, String::from("bob"), String::from("hi"), Vec::new());
    let r = relay_from_platform_b_begin(&d, 42, &m);
    assert_eq!(r.err(), Some(TicketError::NoTicket));
}

#[test]
fn relay_from_platform_b_fails_before_capability_installed() {
    let mut d: Directory<u8> = Directory::new();
    assert_eq!(d.commit(700, 42), Ok(()));
    let m = Msg::build(None, String::from("bob"), String::from("hi"), Vec::new());
    let r = relay_from_platform_b_begin(&d, 42, &m);
    assert_eq!(r.err(), Some(TicketError::CapabilityUnavailable));
}

#[test]
fn full_ticket_scenario() {
    // open(session=42, title="help") -> thread 700; relay both ways; close
    let mut d = ready_directory();
    let req = open_ticket_begin(&d, 42, String::from("help")).unwrap();
    assert_eq!(req.title, "help");
    assert_eq!(open_ticket_commit(&mut d, 700, 42), Ok(()));

    let from_b = Msg::build(None, String::from("bob"), String::from("hi"), Vec::new());
    let post = relay_from_platform_b_begin(&d, 42, &from_b).unwrap();
    assert_eq!(post.thread_id, 700);
    assert_eq!(post.text, "bob: hi");

    let from_a = Msg::build(None, String::from("alice"), String::new(), Vec::new());
    let payload = relay_from_platform_a(&d, 700, &from_a).unwrap();
    assert_eq!(payload.tele_id, 42);
    assert_eq!(payload.text, "_ _");

    assert_eq!(close_ticket_finish(&mut d, 42), Ok(700));
    assert_eq!(d.lookup_by_thread(700), None);
    assert_eq!(d.lookup_by_session(42), None);
    let late = relay_from_platform_b_begin(&d, 42, &from_b);
    assert_eq!(late.err(), Some(TicketError::NoTicket));
}
