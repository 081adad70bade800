//! The relay coordinator: the decisions behind ticket-open, ticket-close and
//! message-relay.
//!
//! Each operation that surrounds a network call is split at that call. The
//! step before it decides, from the directory alone, whether the call may be
//! made and with what arguments; the step after it commits or removes the
//! mapping. The embedding program performs the call in between (creating or
//! locking a platform-A thread, downloading an attachment, posting), so no
//! lock over the directory is ever held across a network call.

use vstd::prelude::*;
use crate::directory::{can_commit, Directory, DirectoryError};
use crate::message::{display_text, Msg};
use crate::wire::PayloadMsg;

verus! {

/// The fixed platform-A root channel under which every ticket thread is
/// created.
pub const ROOT_FORUM_CHANNEL: u64 = 1195650169216184370;

/// The platform-A identity of the bridge itself; its own messages are never
/// relayed back.
pub const BRIDGE_SELF_ID: u64 = 1192895878009192508;

/// Why a coordinator operation failed.
#[derive(Debug, Clone, Copy, PartialEq, Eq, Structural)]
pub enum TicketError {
    /// The session already has an open ticket.
    AlreadyOpen,
    /// A racing open committed a different mapping for one of the ids first.
    Conflict,
    /// No ticket exists for the session given to a close.
    NotFound,
    /// No ticket exists for the id given to a relay; the message is dropped.
    NoTicket,
    /// The two directions of the mapping disagreed and were cleared
    /// defensively.
    Inconsistent,
    /// The platform-A send capability is not installed yet.
    CapabilityUnavailable,
}

/// What the embedding program must do to create the platform-A side of a
/// ticket: open a thread with this title under this root channel, seeded
/// with this initial post.
pub struct OpenThreadRequest {
    pub root_channel: u64,
    pub title: String,
    pub initial_text: String,
}

/// What the embedding program must post into a platform-A thread to relay
/// one platform-B message: the composed line, and at most one attachment to
/// download first, as a `(filename, url)` pair.
pub struct ForumPost {
    pub thread_id: u64,
    pub text: String,
    pub attachment: Option<(String, String)>,
}

/// First step of `openTicket`: fails `AlreadyOpen` if the session already
/// maps, and `CapabilityUnavailable` before the platform-A side is ready;
/// otherwise directs the caller to create the ticket thread under the fixed
/// root channel, seeded with the placeholder post.
pub fn open_ticket_begin<H>(dir: &Directory<H>, session_id: i64, title: String) -> (r: Result<
    OpenThreadRequest,
    TicketError,
>)
    ensures
        r is Ok <==> (!dir@.reverse.contains_key(session_id) && dir@.capability is Some),
        dir@.reverse.contains_key(session_id) ==> r == Err::<OpenThreadRequest, TicketError>(
            TicketError::AlreadyOpen,
        ),
        !dir@.reverse.contains_key(session_id) && dir@.capability is None ==> r == Err::<
            OpenThreadRequest,
            TicketError,
        >(TicketError::CapabilityUnavailable),
        r matches Ok(req) ==> {
            &&& req.root_channel == ROOT_FORUM_CHANNEL
            &&& req.title == title
            &&& req.initial_text@ == crate::message::placeholder_seq()
        },
{
    match dir.lookup_by_session(session_id) {
        Some(_) => Err(TicketError::AlreadyOpen),
        None => {
            if dir.has_capability() {
                Ok(
                    OpenThreadRequest {
                        root_channel: ROOT_FORUM_CHANNEL,
                        title,
                        initial_text: crate::message::placeholder_text(),
                    },
                )
            } else {
                Err(TicketError::CapabilityUnavailable)
            }
        },
    }
}

/// Second step of `openTicket`, after the platform-A thread was created:
/// commit both directions of the mapping atomically. A `Conflict` means a
/// race committed one of the ids to a different counterpart meanwhile; the
/// caller then treats the thread just created as orphaned, and the directory
/// is unchanged (the winning mapping stands alone).
pub fn open_ticket_commit<H>(dir: &mut Directory<H>, thread_id: u64, session_id: i64) -> (r: Result<
    (),
    TicketError,
>)
    ensures
        r is Ok <==> can_commit(old(dir)@.forward, old(dir)@.reverse, thread_id, session_id),
        r is Ok ==> {
            &&& final(dir)@.forward == old(dir)@.forward.insert(thread_id, session_id)
            &&& final(dir)@.reverse == old(dir)@.reverse.insert(session_id, thread_id)
        },
        r is Err ==> r == Err::<(), TicketError>(TicketError::Conflict) && final(dir)@ == old(
            dir,
        )@,
        final(dir)@.capability == old(dir)@.capability,
        old(dir)@.wf() ==> final(dir)@.wf(),
{
    match dir.commit(thread_id, session_id) {
        Ok(()) => Ok(()),
        Err(_) => Err(TicketError::Conflict),
    }
}

/// First step of `closeTicket` (entered from platform B): resolve the
/// thread, failing `NotFound` if the session has no ticket. The caller then
/// locks the thread — a failure there is only logged and does not prevent
/// the removal step.
pub fn close_ticket_begin<H>(dir: &Directory<H>, session_id: i64) -> (r: Result<u64, TicketError>)
    ensures
        r is Ok <==> dir@.reverse.contains_key(session_id),
        r matches Ok(t) ==> t == dir@.reverse[session_id],
        r is Err ==> r == Err::<u64, TicketError>(TicketError::NotFound),
{
    match dir.lookup_by_session(session_id) {
        Some(t) => Ok(t),
        None => Err(TicketError::NotFound),
    }
}

/// Final step of `closeTicket`: remove both directions of the mapping
/// transactionally. Returns the thread the ticket was tied to, or `NotFound`
/// when a racing close removed it meanwhile.
pub fn close_ticket_finish<H>(dir: &mut Directory<H>, session_id: i64) -> (r: Result<
    u64,
    TicketError,
>)
    requires
        old(dir)@.wf(),
    ensures
        final(dir)@.wf(),
        final(dir)@.capability == old(dir)@.capability,
        old(dir)@.reverse.contains_key(session_id) ==> {
            let t = old(dir)@.reverse[session_id];
            &&& r == Ok::<u64, TicketError>(t)
            &&& final(dir)@.forward == old(dir)@.forward.remove(t)
            &&& final(dir)@.reverse == old(dir)@.reverse.remove(session_id)
        },
        !old(dir)@.reverse.contains_key(session_id) ==> {
            &&& r == Err::<u64, TicketError>(TicketError::NotFound)
            &&& final(dir)@ == old(dir)@
        },
{
    let thread_id = match dir.lookup_by_session(session_id) {
        Some(t) => t,
        None => {
            return Err(TicketError::NotFound);
        },
    };
    match dir.remove(thread_id) {
        Ok(_) => Ok(thread_id),
        Err(DirectoryError::NotFound) => Err(TicketError::NotFound),
        Err(_) => Err(TicketError::Inconsistent),
    }
}

/// The forward map a thread-deletion close leaves behind: the entry is
/// removed if present, and nothing changes otherwise.
pub open spec fn forward_after_thread_deletion(f: Map<u64, i64>, t: u64) -> Map<u64, i64> {
    if f.contains_key(t) {
        f.remove(t)
    } else {
        f
    }
}

/// The reverse map a thread-deletion close leaves behind.
pub open spec fn reverse_after_thread_deletion(
    f: Map<u64, i64>,
    r: Map<i64, u64>,
    t: u64,
) -> Map<i64, u64> {
    if f.contains_key(t) {
        r.remove(f[t])
    } else {
        r
    }
}

/// `closeTicketByThreadDeletion`: the platform-A side of a close, entered
/// when the ticket thread itself was deleted. There is no thread left to
/// lock, and a `thread_id` with no mapping is tolerated as a no-op — the
/// platform event pipeline never sees an error. Returns the session the
/// ticket was tied to, if one was removed.
pub fn close_ticket_by_thread_deletion<H>(dir: &mut Directory<H>, thread_id: u64) -> (r: Option<
    i64,
>)
    requires
        old(dir)@.wf(),
    ensures
        final(dir)@.wf(),
        final(dir)@.capability == old(dir)@.capability,
        final(dir)@.forward == forward_after_thread_deletion(old(dir)@.forward, thread_id),
        final(dir)@.reverse == reverse_after_thread_deletion(
            old(dir)@.forward,
            old(dir)@.reverse,
            thread_id,
        ),
        old(dir)@.forward.contains_key(thread_id) ==> {
            let s = old(dir)@.forward[thread_id];
            &&& r == Some(s)
            &&& final(dir)@.forward == old(dir)@.forward.remove(thread_id)
            &&& final(dir)@.reverse == old(dir)@.reverse.remove(s)
        },
        !old(dir)@.forward.contains_key(thread_id) ==> {
            &&& r is None
            &&& final(dir)@ == old(dir)@
        },
{
    match dir.remove(thread_id) {
        Ok(session_id) => Some(session_id),
        Err(_) => None,
    }
}

/// `relayFromPlatformA`: resolve the session for the thread the message was
/// seen in, failing `NoTicket` (and producing no outbound call) if the
/// thread has no ticket. On success the returned payload carries the author,
/// the body with an empty text replaced by the placeholder, and only the
/// first attachment.
pub fn relay_from_platform_a<H>(dir: &Directory<H>, thread_id: u64, msg: &Msg) -> (r: Result<
    PayloadMsg,
    TicketError,
>)
    ensures
        r is Ok <==> dir@.forward.contains_key(thread_id),
        r is Err ==> r == Err::<PayloadMsg, TicketError>(TicketError::NoTicket),
        r matches Ok(p) ==> {
            &&& p.tele_id == dir@.forward[thread_id]
            &&& p.author@ == msg.author@
            &&& p.text@ == display_text(msg.text@)
            &&& p.attachment@.len() == (if msg.attachment@.len() == 0 {
                0int
            } else {
                1int
            })
            &&& msg.attachment@.len() > 0 ==> p.attachment@[0].0@ == msg.attachment@[0].0@
                && p.attachment@[0].1@ == msg.attachment@[0].1@
        },
{
    let session_id = match dir.lookup_by_thread(thread_id) {
        Some(s) => s,
        None => {
            return Err(TicketError::NoTicket);
        },
    };
    let mut attachment: Vec<(String, String)> = Vec::new();
    match msg.first_attachment() {
        Some(pair) => attachment.push(pair),
        None => (),
    }
    Ok(
        PayloadMsg {
            tele_id: session_id,
            text: msg.get_content(),
            author: msg.author.clone(),
            attachment,
        },
    )
}

/// `relayFromPlatformB`, up to the network calls: resolve the thread for the
/// session, failing `NoTicket` (and producing no outbound call) if the
/// session has no ticket, and `CapabilityUnavailable` before the platform-A
/// side is ready. On success the returned post carries the composed
/// `author: body` line (placeholder for an empty body) and the single
/// attachment to fetch, if any; a fetch failure then aborts the relay — the
/// message is never posted without its attachment.
pub fn relay_from_platform_b_begin<H>(dir: &Directory<H>, session_id: i64, msg: &Msg) -> (r: Result<
    ForumPost,
    TicketError,
>)
    ensures
        r is Ok <==> (dir@.reverse.contains_key(session_id) && dir@.capability is Some),
        !dir@.reverse.contains_key(session_id) ==> r == Err::<ForumPost, TicketError>(
            TicketError::NoTicket,
        ),
        dir@.reverse.contains_key(session_id) && dir@.capability is None ==> r == Err::<
            ForumPost,
            TicketError,
        >(TicketError::CapabilityUnavailable),
        r matches Ok(p) ==> {
            &&& p.thread_id == dir@.reverse[session_id]
            &&& p.text@ == msg.author@ + ": "@ + display_text(msg.text@)
            &&& (msg.attachment@.len() == 0 ==> p.attachment is None)
            &&& (msg.attachment@.len() > 0 ==> (p.attachment matches Some(a)
                && a.0@ == msg.attachment@[0].0@ && a.1@ == msg.attachment@[0].1@))
        },
{
    let thread_id = match dir.lookup_by_session(session_id) {
        Some(t) => t,
        None => {
            return Err(TicketError::NoTicket);
        },
    };
    if !dir.has_capability() {
        return Err(TicketError::CapabilityUnavailable);
    }
    Ok(ForumPost { thread_id, text: msg.forum_line(), attachment: msg.first_attachment() })
}

} // verus!
