use ticket_relay::wire::{
    render_close, render_init, render_relay, CloseOutcome, InitOutcome, RelayOutcome,
};

#[test]
fn init_created_renders_201_with_id() {
    let (status, body) = render_init(InitOutcome::Created(700));
    assert_eq!(status, 201);
    assert_eq!(body.status, "success");
    assert_eq!(body.code, 0);
    assert_eq!(body.message, "forum post created");
    assert_eq!(body.id, 700);
}

#[test]
fn init_already_open_renders_logic_failure() {
    let (status, body) = render_init(InitOutcome::AlreadyOpen);
    assert_eq!(status, 400);
    assert_eq!(body.status, "fail");
    assert_eq!(body.code, 2);
    assert_eq!(body.message, "forum exists");
    assert_eq!(body.id, 0);
}

#[test]
fn init_conflict_renders_logic_failure() {
    let (status, body) = render_init(InitOutcome::Conflict);
    assert_eq!(status, 400);
    assert_eq!(body.code, 2);
    assert_eq!(body.id, 0);
}

#[test]
fn init_failure_carries_error_text() {
    let (status, body) = render_init(InitOutcome::Failed(String::from("gateway down")));
    assert_eq!(status, 400);
    assert_eq!(body.status, "fail");
    assert_eq!(body.code, 1);
    assert_eq!(body.message, "gateway down");
    assert_eq!(body.id, 0);
}

#[test]
fn close_success_renders_200() {
    let (status, body) = render_close(CloseOutcome::Closed);
    assert_eq!(status, 200);
    assert_eq!(body.status, "success");
    assert_eq!(body.code, 0);
    assert_eq!(body.message, "ticket closed");
}

#[test]
fn close_not_found_renders_404() {
    let (status, body) = render_close(CloseOutcome::NotFound);
    assert_eq!(status, 404);
    assert_eq!(body.status, "fail");
    assert_eq!(body.code, 2);
    assert_eq!(body.message, "forum not found");
}

#[test]
fn close_failure_carries_error_text() {
    let (status, body) = render_close(CloseOutcome::Failed(String::from("lock failed")));
    assert_eq!(status, 200);
    assert_eq!(body.code, 1);
    assert_eq!(body.message, "lock failed");
}

#[test]
fn relay_delivered_renders_200() {
    let (status, body) = render_relay(RelayOutcome::Delivered);
    assert_eq!(status, 200);
    assert_eq!(body.status, "success");
    assert_eq!(body.code, 0);
    assert_eq!(body.message, "Success");
}

#[test]
fn relay_no_ticket_renders_logic_failure() {
    let (status, body) = render_relay(RelayOutcome::NoTicket);
    assert_eq!(status, 400);
    assert_eq!(body.status, "fail");
    assert_eq!(body.code, 2);
    assert_eq!(body.message, "no forum");
}

#[test]
fn relay_failure_carries_error_text() {
    let (status, body) = render_relay(RelayOutcome::Failed(String::from("download failed")));
    assert_eq!(status, 400);
    assert_eq!(body.code, 1);
    assert_eq!(body.message, "download failed");
}
