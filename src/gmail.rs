//! Email messages for Gmail, in the header-and-body text form of RFC 2822.

use vstd::prelude::*;
use crate::json::push_char;

verus! {

/// `s` with each line feed turned into a carriage return and a line feed.
pub open spec fn crlf(s: Seq<char>) -> Seq<char>
    decreases s.len(),
{
    if s.len() == 0 {
        Seq::empty()
    } else {
        crlf(s.drop_last()) + if s.last() == '\n' {
            seq!['\r', '\n']
        } else {
            seq![s.last()]
        }
    }
}

/// In CRLF text every line feed follows a carriage return.
pub proof fn lemma_crlf_line_ends(s: Seq<char>)
    ensures
        forall|i: int|
            0 <= i < crlf(s).len() && #[trigger] crlf(s)[i] == '\n' ==> i > 0 && crlf(s)[i - 1] == '\r',
    decreases s.len(),
{
    if s.len() > 0 {
        let d = s.drop_last();
        lemma_crlf_line_ends(d);
        let head = crlf(d);
        let tail = if s.last() == '\n' {
            seq!['\r', '\n']
        } else {
            seq![s.last()]
        };
        assert(crlf(s) == head + tail);
        assert forall|i: int| 0 <= i < crlf(s).len() && #[trigger] crlf(s)[i] == '\n' implies i > 0
            && crlf(s)[i - 1] == '\r' by {
            if i < head.len() {
                assert(crlf(s)[i] == head[i]);
                assert(crlf(s)[i - 1] == head[i - 1]);
            } else if s.last() == '\n' {
                assert(i == head.len() + 1);
            }
        }
    }
}

/// Appends `s` to `out` with each line feed turned into a carriage return and a
/// line feed.
pub fn push_crlf(out: &mut String, s: &str)
    ensures
        final(out)@ == old(out)@ + crlf(s@),
{
    for c in it: s.chars()
        invariant
            it.seq() == s@,
            out@ == old(out)@ + crlf(s@.take(it.index() as int)),
    {
        let ghost i = it.index() as int;
        proof {
            assert(s@.take(i + 1).drop_last() =~= s@.take(i));
        }
        if c == '\n' {
            push_char(out, '\r');
            push_char(out, '\n');
        } else {
            push_char(out, c);
        }
        proof {
            assert(out@ =~= old(out)@ + crlf(s@.take(i + 1)));
        }
    }
    proof {
        assert(s@.take(s@.len() as int) =~= s@);
    }
}

/// What an email holds before it is printed.
pub struct MailView {
    pub to: Seq<char>,
    pub sender: Option<Seq<char>>,
    pub subject: Option<Seq<char>>,
    /// Whether `Sender` was set before `Subject`, where both are set.
    pub sender_first: bool,
    pub content: Seq<char>,
}

/// An email being written: the recipient, optional header fields and the content.
#[derive(Debug)]
pub struct OutboundData {
    to: String,
    sender: Option<String>,
    subject: Option<String>,
    sender_first: bool,
    content: String,
}

impl View for OutboundData {
    type V = MailView;

    closed spec fn view(&self) -> MailView {
        MailView {
            to: self.to@,
            sender: match self.sender {
                Some(s) => Some(s@),
                None => None,
            },
            subject: match self.subject {
                Some(s) => Some(s@),
                None => None,
            },
            sender_first: self.sender_first,
            content: self.content@,
        }
    }
}

/// The header line `name: value`.
pub open spec fn header(name: Seq<char>, value: Seq<char>) -> Seq<char> {
    name + ": "@ + value + "\r\n"@
}

/// A header line where a value is present, else nothing.
pub open spec fn optional_header(name: Seq<char>, value: Option<Seq<char>>) -> Seq<char> {
    match value {
        Some(v) => header(name, v),
        None => Seq::empty(),
    }
}

/// The `Sender` and `Subject` lines, in the order they were first set.
pub open spec fn set_headers(m: MailView) -> Seq<char> {
    if m.sender_first {
        optional_header("Sender"@, m.sender) + optional_header("Subject"@, m.subject)
    } else {
        optional_header("Subject"@, m.subject) + optional_header("Sender"@, m.sender)
    }
}

/// The text of an email: the header lines, a blank line and the content
/// with CRLF line ends.
pub open spec fn mail_text(m: MailView) -> Seq<char> {
    header("From"@, "me"@) + header("To"@, m.to) + set_headers(m) + "\r\n"@ + crlf(m.content)
}

/// Which of `Sender` and `Subject` comes first once `Sender` is set.
pub open spec fn sender_first_after_sender(m: MailView) -> bool {
    if m.sender is None {
        m.subject is None
    } else {
        m.sender_first
    }
}

/// Which of `Sender` and `Subject` comes first once `Subject` is set.
pub open spec fn sender_first_after_subject(m: MailView) -> bool {
    if m.subject is None {
        m.sender is Some
    } else {
        m.sender_first
    }
}

/// Appends the header line `name: value`.
fn push_header(out: &mut String, name: &str, value: &str)
    ensures
        final(out)@ == old(out)@ + header(name@, value@),
{
    out.append(name);
    out.append(": ");
    out.append(value);
    out.append("\r\n");
    proof {
        assert(final(out)@ =~= old(out)@ + header(name@, value@));
    }
}

/// Appends the header line `name: value` where a value is present.
fn push_optional_header(out: &mut String, name: &str, value: &Option<String>)
    ensures
        final(out)@ == old(out)@ + optional_header(
            name@,
            match value {
                Some(v) => Some(v@),
                None => None,
            },
        ),
{
    match value {
        Some(v) => push_header(out, name, v.as_str()),
        None => {
            assert(final(out)@ =~= old(out)@ + Seq::<char>::empty());
        },
    }
}

impl OutboundData {
    /// Sets the content of the email; an email takes content.
    pub fn content(self, content: &str) -> (r: OutboundData)
        ensures
            r@ == (MailView { content: content@, ..self@ }),
    {
        OutboundData { content: content.to_owned(), ..self }
    }

    /// Sets the sender of the email, replacing an earlier one; its header
    /// line stays where the first sender put it.
    pub fn sender(self, sender: &str) -> (r: OutboundData)
        ensures
            r@ == (MailView {
                sender: Some(sender@),
                sender_first: sender_first_after_sender(self@),
                ..self@
            }),
    {
        let sender_first = match (&self.sender, &self.subject) {
            (None, None) => true,
            (None, Some(_)) => false,
            (Some(_), _) => self.sender_first,
        };
        OutboundData { sender: Some(sender.to_owned()), sender_first, ..self }
    }

    /// Sets the subject of the email, replacing an earlier one; its header
    /// line stays where the first subject put it.
    pub fn subject(self, subject: &str) -> (r: OutboundData)
        ensures
            r@ == (MailView {
                subject: Some(subject@),
                sender_first: sender_first_after_subject(self@),
                ..self@
            }),
    {
        let sender_first = match (&self.subject, &self.sender) {
            (None, None) => false,
            (None, Some(_)) => true,
            (Some(_), _) => self.sender_first,
        };
        OutboundData { subject: Some(subject.to_owned()), sender_first, ..self }
    }

    /// Prints the email in RFC 2822 form; empty content is refused.
    pub fn build(self) -> (r: Result<String, String>)
        ensures
            self@.content.len() == 0 ==> (r matches Err(e) && e@ == "OutboundData build failed: Content is empty"@),
            self@.content.len() > 0 ==> (r matches Ok(t) && t@ == mail_text(self@)),
    {
        if self.content.as_str().is_empty() {
            return Err("OutboundData build failed: Content is empty".to_owned());
        }
        let mut out = String::new();
        push_header(&mut out, "From", "me");
        push_header(&mut out, "To", self.to.as_str());
        if self.sender_first {
            push_optional_header(&mut out, "Sender", &self.sender);
            push_optional_header(&mut out, "Subject", &self.subject);
        } else {
            push_optional_header(&mut out, "Subject", &self.subject);
            push_optional_header(&mut out, "Sender", &self.sender);
        }
        out.append("\r\n");
        push_crlf(&mut out, self.content.as_str());
        proof {
            assert(out@ =~= mail_text(self@));
        }
        Ok(out)
    }
}

/// Writes an email to `email` through Gmail.
///
/// ```rust
/// outbound("ho-229@example.com")
///     .subject("Hi")
///     .sender("ho-229")
///     .content("Hello world!")
///     .build()
/// ```
pub fn outbound(email: &str) -> (r: OutboundData)
    ensures
        r@ == (MailView {
            to: email@,
            sender: None,
            subject: None,
            sender_first: false,
            content: Seq::empty(),
        }),
{
    OutboundData {
        to: email.to_owned(),
        sender: None,
        subject: None,
        sender_first: false,
        content: String::new(),
    }
}

} // verus!
