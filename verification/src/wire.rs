//! The request and response bodies of the HTTP boundary toward the
//! platform-B counterpart, and the rendering of coordinator outcomes into a
//! status code and such a body.
//!
//! The `code` field of a response is 0 on success, 1 on a transport or
//! system failure, and 2 on a logic failure (ticket already exists, or no
//! ticket for the given id).

use vstd::prelude::*;

verus! {

/// Body of `POST /init`: open a ticket for a platform-B session.
pub struct PayloadInit {
    pub id: i64,
    pub title: String,
}

/// Body of `POST /close`: close the ticket of a platform-B session.
pub struct PayloadClose {
    pub id: i64,
}

/// Response of `POST /init`; `id` is the platform-A thread created for the
/// ticket, or 0 on failure.
pub struct ResponseForum {
    pub status: String,
    pub code: u8,
    pub message: String,
    pub id: u64,
}

/// Response of `POST /close` and `POST /post-message`.
pub struct ResponseMsg {
    pub status: String,
    pub code: u32,
    pub message: String,
}

/// Body of `POST /post-message`, in both directions across the bridge.
pub struct PayloadMsg {
    pub tele_id: i64,
    pub text: String,
    pub author: String,
    pub attachment: Vec<(String, String)>,
}

/// How a ticket-open request ended.
pub enum InitOutcome {
    /// A platform-A thread was created and the mapping committed.
    Created(u64),
    /// The session already maps to a thread; no second thread was created.
    AlreadyOpen,
    /// A concurrent open committed the same session first; the thread
    /// created here is orphaned and the conflict surfaced.
    Conflict,
    /// Thread creation or another system step failed; the message carries
    /// the underlying error text.
    Failed(String),
}

/// How a ticket-close request ended.
pub enum CloseOutcome {
    /// Both directions of the mapping were removed.
    Closed,
    /// No ticket exists for the session.
    NotFound,
    /// A system step failed; the message carries the underlying error text.
    Failed(String),
}

/// How a message-relay request ended.
pub enum RelayOutcome {
    /// The message was posted into the platform-A thread.
    Delivered,
    /// No ticket exists for the given id; the message was dropped.
    NoTicket,
    /// Attachment download or the outbound post failed; the message carries
    /// the underlying error text.
    Failed(String),
}

/// Render a ticket-open outcome as an HTTP status code and response body.
pub fn render_init(outcome: InitOutcome) -> (r: (u16, ResponseForum))
    ensures
        outcome matches InitOutcome::Created(fid) ==> {
            &&& r.0 == 201
            &&& r.1.status@ == "success"@
            &&& r.1.code == 0
            &&& r.1.message@ == "forum post created"@
            &&& r.1.id == fid
        },
        outcome is AlreadyOpen || outcome is Conflict ==> {
            &&& r.0 == 400
            &&& r.1.status@ == "fail"@
            &&& r.1.code == 2
            &&& r.1.message@ == "forum exists"@
            &&& r.1.id == 0
        },
        outcome matches InitOutcome::Failed(why) ==> {
            &&& r.0 == 400
            &&& r.1.status@ == "fail"@
            &&& r.1.code == 1
            &&& r.1.message == why
            &&& r.1.id == 0
        },
{
    match outcome {
        InitOutcome::Created(fid) => (
            201,
            ResponseForum {
                status: "success".to_owned(),
                code: 0,
                message: "forum post created".to_owned(),
                id: fid,
            },
        ),
        InitOutcome::AlreadyOpen | InitOutcome::Conflict => (
            400,
            ResponseForum {
                status: "fail".to_owned(),
                code: 2,
                message: "forum exists".to_owned(),
                id: 0,
            },
        ),
        InitOutcome::Failed(why) => (
            400,
            ResponseForum { status: "fail".to_owned(), code: 1, message: why, id: 0 },
        ),
    }
}

/// Render a ticket-close outcome as an HTTP status code and response body.
pub fn render_close(outcome: CloseOutcome) -> (r: (u16, ResponseMsg))
    ensures
        outcome is Closed ==> {
            &&& r.0 == 200
            &&& r.1.status@ == "success"@
            &&& r.1.code == 0
            &&& r.1.message@ == "ticket closed"@
        },
        outcome is NotFound ==> {
            &&& r.0 == 404
            &&& r.1.status@ == "fail"@
            &&& r.1.code == 2
            &&& r.1.message@ == "forum not found"@
        },
        outcome matches CloseOutcome::Failed(why) ==> {
            &&& r.0 == 200
            &&& r.1.status@ == "fail"@
            &&& r.1.code == 1
            &&& r.1.message == why
        },
{
    match outcome {
        CloseOutcome::Closed => (
            200,
            ResponseMsg {
                status: "success".to_owned(),
                code: 0,
                message: "ticket closed".to_owned(),
            },
        ),
        CloseOutcome::NotFound => (
            404,
            ResponseMsg {
                status: "fail".to_owned(),
                code: 2,
                message: "forum not found".to_owned(),
            },
        ),
        CloseOutcome::Failed(why) => (
            200,
            ResponseMsg { status: "fail".to_owned(), code: 1, message: why },
        ),
    }
}

/// Render a message-relay outcome as an HTTP status code and response body.
pub fn render_relay(outcome: RelayOutcome) -> (r: (u16, ResponseMsg))
    ensures
        outcome is Delivered ==> {
            &&& r.0 == 200
            &&& r.1.status@ == "success"@
            &&& r.1.code == 0
            &&& r.1.message@ == "Success"@
        },
        outcome is NoTicket ==> {
            &&& r.0 == 400
            &&& r.1.status@ == "fail"@
            &&& r.1.code == 2
            &&& r.1.message@ == "no forum"@
        },
        outcome matches RelayOutcome::Failed(why) ==> {
            &&& r.0 == 400
            &&& r.1.status@ == "fail"@
            &&& r.1.code == 1
            &&& r.1.message == why
        },
{
    match outcome {
        RelayOutcome::Delivered => (
            200,
            ResponseMsg { status: "success".to_owned(), code: 0, message: "Success".to_owned() },
        ),
        RelayOutcome::NoTicket => (
            400,
            ResponseMsg { status: "fail".to_owned(), code: 2, message: "no forum".to_owned() },
        ),
        RelayOutcome::Failed(why) => (
            400,
            ResponseMsg { status: "fail".to_owned(), code: 1, message: why },
        ),
    }
}

} // verus!
