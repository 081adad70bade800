//! A relay message in flight between the two platforms: a display name, a
//! text body, and any number of attachments given as `(filename, url)`
//! pairs. It exists only for the duration of one relay call.

use vstd::prelude::*;
use vstd::string::StringExecFns;

verus! {

/// The visible placeholder that stands in for an empty message body;
/// both platforms reject or visually collapse empty bodies.
pub open spec fn placeholder_seq() -> Seq<char> {
    "_ _"@
}

/// The text a message body is displayed as: the body itself, or the
/// placeholder when the body is empty.
pub open spec fn display_text(s: Seq<char>) -> Seq<char> {
    if s.len() == 0 {
        placeholder_seq()
    } else {
        s
    }
}

/// The placeholder as an owned string.
pub fn placeholder_text() -> (r: String)
    ensures
        r@ == placeholder_seq(),
{
    "_ _".to_owned()
}

/// One message being relayed: author display name, body, and attachments
/// as `(filename, url)` pairs.
pub struct Msg {
    pub author: String,
    pub text: String,
    pub attachment: Vec<(String, String)>,
}

impl Msg {
    /// An empty message.
    pub fn new() -> (m: Msg)
        ensures
            m.author@ == Seq::<char>::empty(),
            m.text@ == Seq::<char>::empty(),
            m.attachment@.len() == 0,
    {
        Msg { author: String::new(), text: String::new(), attachment: Vec::new() }
    }

    /// Build a message from the fields an inbound platform-A event carries.
    /// The display name prefers the platform-wide global name and falls back
    /// to the platform-local username.
    pub fn build(
        global_name: Option<String>,
        username: String,
        text: String,
        attachment: Vec<(String, String)>,
    ) -> (m: Msg)
        ensures
            m.author == (match global_name {
                Some(g) => g,
                None => username,
            }),
            m.text == text,
            m.attachment == attachment,
    {
        let author = match global_name {
            Some(g) => g,
            None => username,
        };
        Msg { author, text, attachment }
    }

    /// The body as it is displayed: empty text is replaced with the
    /// placeholder.
    pub fn get_content(&self) -> (r: String)
        ensures
            r@ == display_text(self.text@),
    {
        if self.text.as_str().is_empty() {
            placeholder_text()
        } else {
            self.text.clone()
        }
    }

    /// The single attachment that is relayed, if any: platform-B messages
    /// carry at most one attachment by convention, so only the first one
    /// crosses the bridge.
    pub fn first_attachment(&self) -> (r: Option<(String, String)>)
        ensures
            self.attachment@.len() == 0 ==> r is None,
            self.attachment@.len() > 0 ==> (r matches Some(a) && a.0@ == self.attachment@[0].0@
                && a.1@ == self.attachment@[0].1@),
    {
        if self.attachment.len() > 0 {
            let first = &self.attachment[0];
            Some((first.0.clone(), first.1.clone()))
        } else {
            None
        }
    }

    /// The line posted into a platform-A thread for this message:
    /// `author: body`, with the placeholder standing in for an empty body.
    pub fn forum_line(&self) -> (r: String)
        ensures
            r@ == self.author@ + ": "@ + display_text(self.text@),
    {
        let content = self.get_content();
        self.author.clone().concat(": ").concat(content.as_str())
    }
}

/// An inbound platform-A message is relayed only when it does not come from
/// the bridge's own identity and does not use the reserved command prefix.
pub fn should_relay_inbound(author_id: u64, bridge_id: u64, text: &str) -> (r: bool)
    ensures
        r == (author_id != bridge_id && !(text@.len() > 0 && text@[0] == '|')),
{
    if author_id == bridge_id {
        false
    } else if text.is_empty() {
        true
    } else {
        text.get_char(0) != '|'
    }
}

} // verus!
