//! Mail transport for the magic-link sign-in flow: the transport interface,
//! the stub SMTP backend, and the log lines of the development mailer.

use vstd::prelude::*;
use crate::text::{contains_seq, first_index, lemma_first_index, str_contains};

verus! {

/// Why a mail could not be sent.
#[derive(Debug)]
pub enum MailerError {
    Transport(String),
    Recipient(String),
    NotConfigured,
}

pub open spec fn mailer_error_text(e: MailerError) -> Seq<char> {
    match e {
        MailerError::Transport(m) => "transport error: "@ + m@,
        MailerError::Recipient(m) => "invalid recipient: "@ + m@,
        MailerError::NotConfigured => "backend not configured (build with --features mailer-smtp)"@,
    }
}

impl MailerError {
    /// The human-readable message of this error.
    pub fn message(&self) -> (s: String)
        ensures
            s@ == mailer_error_text(*self),
    {
        match self {
            MailerError::Transport(m) => String::from_str("transport error: ").concat(m.as_str()),
            MailerError::Recipient(m) => String::from_str("invalid recipient: ").concat(m.as_str()),
            MailerError::NotConfigured => String::from_str(
                "backend not configured (build with --features mailer-smtp)",
            ),
        }
    }
}

/// Mail transport. A backend must deliver magic-link mails; generic mail is
/// forwarded as a magic link when its subject says so, and refused as not
/// configured otherwise, unless the backend supports it.
pub trait Mailer {
    /// Deliver a magic-link sign-in email to `email`; `link` is the URL the
    /// user clicks.
    fn send_magic_link(&self, email: &str, link: &str) -> Result<(), MailerError>;

    /// Generic send. By default a mail whose subject contains `magic link`
    /// goes out through [`Mailer::send_magic_link`] with the body as the
    /// link, and its answer is returned; any other mail is refused as not
    /// configured.
    fn send_raw(&self, to: &str, subject: &str, body: &str) -> (r: Result<(), MailerError>)
        default_ensures
            contains_seq(subject@, "magic link"@) ==> call_ensures(
                Self::send_magic_link,
                (self, to, body),
                r,
            ),
            !contains_seq(subject@, "magic link"@) ==> r matches Err(MailerError::NotConfigured),
    {
        if str_contains(subject, "magic link") {
            self.send_magic_link(to, body)
        } else {
            Err(MailerError::NotConfigured)
        }
    }
}

/// SMTP-backed mailer; not configured in this build, so every send is
/// refused.
pub struct SmtpMailer;

impl Mailer for SmtpMailer {
    fn send_magic_link(&self, email: &str, link: &str) -> (r: Result<(), MailerError>)
        ensures
            r matches Err(MailerError::NotConfigured),
    {
        let _ = (email, link);
        Err(MailerError::NotConfigured)
    }
}

/// What `format!("{:?}", s)` gives for a string: `s` in double quotes with
/// its special characters escaped (a function of `s` alone).
pub uninterp spec fn debug_quoted(s: Seq<char>) -> Seq<char>;

/// `<str as Debug>::fmt` (std), through `format!("{:?}")`: the quoted,
/// escaped form of `s`. Only that the result is `debug_quoted(s@)` is
/// claimed.
#[verifier::external_body]
fn str_debug(s: &str) -> (r: String)
    ensures
        r@ == debug_quoted(s@),
{
    format!("{:?}", s)
}

/// A line ended by `\n`, without the `\r` of a `\r\n` terminator.
pub open spec fn strip_cr(l: Seq<char>) -> Seq<char> {
    if l.len() > 0 && l.last() == '\r' {
        l.drop_last()
    } else {
        l
    }
}

/// The lines of a text as `str::lines` gives them: split after each `\n`;
/// a line ended by `\n` loses it and a `\r` just before it; the last line,
/// when no `\n` ends it, is kept as it is (a bare trailing `\r` included);
/// no line follows a final `\n`; the empty text has no lines.
pub open spec fn text_lines(s: Seq<char>) -> Seq<Seq<char>>
    decreases s.len(),
{
    if s.len() == 0 {
        Seq::empty()
    } else {
        match first_index(s, '\n') {
            Some(i) => {
                proof {
                    lemma_first_index(s, '\n');
                }
                seq![strip_cr(s.take(i))] + text_lines(s.skip(i + 1))
            },
            None => seq![s],
        }
    }
}

/// `str::lines` (std), each line copied into a `String`: the lines of `s` as
/// [`text_lines`] states them.
#[verifier::external_body]
fn str_lines(s: &str) -> (r: Vec<String>)
    ensures
        r@.map_values(|l: String| l@) == text_lines(s@),
{
    s.lines().map(|l| l.to_string()).collect()
}

/// Development mailer: writes each mail to the error stream as
/// grep-friendly lines.
pub struct LogMailer;

pub open spec fn magic_link_line(email: Seq<char>, link: Seq<char>) -> Seq<char> {
    "[magic-link] to="@ + email + " link="@ + link
}

pub open spec fn raw_header_line(to: Seq<char>, subject: Seq<char>) -> Seq<char> {
    "[mail] to="@ + to + " subject="@ + debug_quoted(subject)
}

pub open spec fn raw_body_line(line: Seq<char>) -> Seq<char> {
    "[mail]   "@ + line
}

impl LogMailer {
    /// The one line logged for a magic-link mail.
    pub fn magic_link_log(&self, email: &str, link: &str) -> (s: String)
        ensures
            s@ == magic_link_line(email@, link@),
    {
        String::from_str("[magic-link] to=").concat(email).concat(" link=").concat(link)
    }

    /// The lines logged for a generic mail: a header naming the recipient
    /// and the quoted subject, then each body line, indented.
    pub fn raw_mail_log(&self, to: &str, subject: &str, body: &str) -> (lines: Vec<String>)
        ensures
            lines@.len() == text_lines(body@).len() + 1,
            lines@[0]@ == raw_header_line(to@, subject@),
            forall|i: int|
                0 <= i < text_lines(body@).len() ==> #[trigger] lines@[i + 1]@ == raw_body_line(
                    text_lines(body@)[i],
                ),
    {
        let mut lines: Vec<String> = Vec::new();
        let quoted = str_debug(subject);
        lines.push(
            String::from_str("[mail] to=").concat(to).concat(" subject=").concat(quoted.as_str()),
        );
        let body_lines = str_lines(body);
        let n = body_lines.len();
        let ghost tl = text_lines(body@);
        assert(tl.len() == n);
        for i in 0..n
            invariant
                n == body_lines@.len(),
                tl == text_lines(body@),
                body_lines@.map_values(|l: String| l@) == tl,
                lines@.len() == i + 1,
                lines@[0]@ == raw_header_line(to@, subject@),
                forall|j: int| 0 <= j < i ==> #[trigger] lines@[j + 1]@ == raw_body_line(tl[j]),
        {
            assert(body_lines@[i as int]@ == tl[i as int]);
            lines.push(String::from_str("[mail]   ").concat(body_lines[i].as_str()));
        }
        lines
    }
}

} // verus!
