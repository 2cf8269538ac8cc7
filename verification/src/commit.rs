use vstd::prelude::*;
use vstd::utf8::*;
use vstd::string::*;

use crate::text::{first_line, lossy_text, str_from_utf8, trimmed, trimmed_first_line, utf8_lossy};
use crate::time::{
    DateTimeValue, GitTime, fixed_date_time_text, fixed_time, fixed_time_of, offset_in_range,
    valid_date_time,
};

verus! {

/// The text of valid UTF-8 bytes, or `None`.
pub open spec fn utf8_text(bytes: Seq<u8>) -> Option<Seq<char>> {
    if valid_utf8(bytes) {
        Some(decode_utf8(bytes))
    } else {
        None
    }
}

/// How an optional date-time is shown between brackets.
pub open spec fn bracketed_time_text(t: Option<DateTimeValue>) -> Seq<char> {
    match t {
        Some(v) => "["@ + fixed_date_time_text(v.timestamp, v.offset_seconds) + "]"@,
        None => "[invalid time]"@,
    }
}

/// The shown text of an optional date-time.
fn bracketed_time(t: Option<DateTimeValue>) -> (r: String)
    requires
        t matches Some(v) ==> valid_date_time(v),
    ensures
        r@ == bracketed_time_text(t),
{
    match t {
        Some(v) => {
            let mut out = String::from_str("[");
            let text = v.to_display_string();
            out.append(text.as_str());
            out.append("]");
            out
        },
        None => String::from_str("[invalid time]"),
    }
}

/// The author or committer of a commit: name and e-mail as raw bytes, and
/// the time recorded with them.
pub struct Signature {
    name_bytes: Vec<u8>,
    email_bytes: Vec<u8>,
    when: GitTime,
}

/// What a `Signature` holds.
pub struct SignatureView {
    pub name: Seq<u8>,
    pub email: Seq<u8>,
    pub when: GitTime,
}

impl View for Signature {
    type V = SignatureView;

    closed spec fn view(&self) -> SignatureView {
        SignatureView { name: self.name_bytes@, email: self.email_bytes@, when: self.when }
    }
}

/// How a signature is shown: its time between brackets, its name, and its
/// e-mail between angle brackets (name and e-mail decoded lossily).
pub open spec fn signature_text(s: SignatureView) -> Seq<char> {
    bracketed_time_text(fixed_time_of(s.when)) + utf8_lossy(s.name) + " <"@ + utf8_lossy(s.email)
        + ">"@
}

impl Signature {
    pub fn new(name_bytes: Vec<u8>, email_bytes: Vec<u8>, when: GitTime) -> (r: Self)
        ensures
            r@ == (SignatureView { name: name_bytes@, email: email_bytes@, when }),
    {
        Signature { name_bytes, email_bytes, when }
    }

    /// The name, when it is valid UTF-8.
    pub fn name(&self) -> (r: Option<&str>)
        ensures
            match r {
                Some(s) => utf8_text(self@.name) == Some(s@),
                None => utf8_text(self@.name) is None,
            },
    {
        str_from_utf8(self.name_bytes.as_slice())
    }

    pub fn name_bytes(&self) -> (r: &[u8])
        ensures
            r@ == self@.name,
    {
        self.name_bytes.as_slice()
    }

    /// The name, with invalid UTF-8 replaced.
    pub fn name_lossy(&self) -> (r: String)
        ensures
            r@ == utf8_lossy(self@.name),
            utf8_text(self@.name) matches Some(t) ==> r@ == t,
    {
        lossy_text(self.name_bytes.as_slice())
    }

    /// The e-mail, when it is valid UTF-8.
    pub fn email(&self) -> (r: Option<&str>)
        ensures
            match r {
                Some(s) => utf8_text(self@.email) == Some(s@),
                None => utf8_text(self@.email) is None,
            },
    {
        str_from_utf8(self.email_bytes.as_slice())
    }

    pub fn email_bytes(&self) -> (r: &[u8])
        ensures
            r@ == self@.email,
    {
        self.email_bytes.as_slice()
    }

    /// The e-mail, with invalid UTF-8 replaced.
    pub fn email_lossy(&self) -> (r: String)
        ensures
            r@ == utf8_lossy(self@.email),
            utf8_text(self@.email) matches Some(t) ==> r@ == t,
    {
        lossy_text(self.email_bytes.as_slice())
    }

    /// Returns `(seconds, offset_minutes)`.
    pub fn when(&self) -> (r: (i64, i32))
        ensures
            r == (self@.when.seconds, self@.when.offset_minutes),
    {
        (self.when.seconds, self.when.offset_minutes)
    }

    /// Returns `None` for an invalid timestamp.
    pub fn time(&self) -> (r: Option<DateTimeValue>)
        ensures
            r == fixed_time_of(self@.when),
            r matches Some(v) ==> valid_date_time(v),
    {
        fixed_time(self.when)
    }

    /// Returns `None` for an invalid timestamp.
    pub fn time_utc(&self) -> (r: Option<DateTimeValue>)
        ensures
            match fixed_time_of(self@.when) {
                Some(v) => r == Some(DateTimeValue { timestamp: v.timestamp, offset_seconds: 0 }),
                None => r is None,
            },
    {
        match self.time() {
            Some(t) => Some(t.to_utc()),
            None => None,
        }
    }

    /// Returns the time in the local time zone, whose offset from UTC at
    /// that instant is `local_offset_seconds`; `None` for an invalid timestamp.
    pub fn time_local(&self, local_offset_seconds: i32) -> (r: Option<DateTimeValue>)
        requires
            offset_in_range(local_offset_seconds as int),
        ensures
            match fixed_time_of(self@.when) {
                Some(v) => r == Some(DateTimeValue { timestamp: v.timestamp, offset_seconds: local_offset_seconds }),
                None => r is None,
            },
    {
        match self.time() {
            Some(t) => Some(t.to_local(local_offset_seconds)),
            None => None,
        }
    }

    /// How this signature is shown.
    pub fn to_display_string(&self) -> (r: String)
        ensures
            r@ == signature_text(self@),
    {
        let mut out = bracketed_time(self.time());
        let name = self.name_lossy();
        let email = self.email_lossy();
        out.append(name.as_str());
        out.append(" <");
        out.append(email.as_str());
        out.append(">");
        out
    }
}

/// A commit: its id, its message as raw bytes, its author and its
/// committer. Its time is the committer's time.
pub struct Commit {
    sha: String,
    message_bytes: Vec<u8>,
    author: Signature,
    committer: Signature,
}

/// What a `Commit` holds.
pub struct CommitView {
    pub sha: Seq<char>,
    pub message: Seq<u8>,
    pub author: SignatureView,
    pub committer: SignatureView,
}

impl View for Commit {
    type V = CommitView;

    closed spec fn view(&self) -> CommitView {
        CommitView {
            sha: self.sha@,
            message: self.message_bytes@,
            author: self.author@,
            committer: self.committer@,
        }
    }
}

/// How a commit is shown: its time between brackets, then its author's name
/// and the first line of its trimmed message.
pub open spec fn commit_text(c: CommitView) -> Seq<char> {
    bracketed_time_text(fixed_time_of(c.committer.when)) + utf8_lossy(c.author.name) + " "@ + first_line(
        trimmed(utf8_lossy(c.message)),
    )
}

/// The bracketed time shown for a git time: when the offset is less than a day
/// either way and the timestamp is representable, the chrono text of exactly
/// that timestamp with the offset in seconds (`offset_minutes * 60`, sign
/// kept); otherwise `"[invalid time]"`.
pub proof fn law_bracketed_time_of_git_time(t: GitTime)
    ensures
        (-1440 < t.offset_minutes < 1440 && crate::time::timestamp_in_range(t.seconds)) ==>
            bracketed_time_text(fixed_time_of(t)) == "["@ + fixed_date_time_text(t.seconds, (t.offset_minutes * 60) as i32) + "]"@,
        !(-1440 < t.offset_minutes < 1440 && crate::time::timestamp_in_range(t.seconds)) ==>
            bracketed_time_text(fixed_time_of(t)) == "[invalid time]"@,
        (-1440 < t.offset_minutes < 1440) ==> ((((t.offset_minutes * 60) as i32) < 0) <==> (t.offset_minutes < 0)),
{
    crate::time::law_fixed_time_domain(t);
}

/// A signature is shown as the bracketed time of its own recorded time (the
/// offset in seconds, sign kept), then its name, then its e-mail between
/// angle brackets.
pub proof fn law_signature_text_layout(s: SignatureView)
    ensures
        signature_text(s) == bracketed_time_text(fixed_time_of(s.when)) + utf8_lossy(s.name) + " <"@
            + utf8_lossy(s.email) + ">"@,
        (-1440 < s.when.offset_minutes < 1440 && crate::time::timestamp_in_range(s.when.seconds)) ==>
            signature_text(s).take((fixed_date_time_text(s.when.seconds, (s.when.offset_minutes * 60) as i32).len() + 2) as int)
                == "["@ + fixed_date_time_text(s.when.seconds, (s.when.offset_minutes * 60) as i32) + "]"@,
{
    law_bracketed_time_of_git_time(s.when);
    let b = bracketed_time_text(fixed_time_of(s.when));
    if -1440 < s.when.offset_minutes < 1440 && crate::time::timestamp_in_range(s.when.seconds) {
        let ft = fixed_date_time_text(s.when.seconds, (s.when.offset_minutes * 60) as i32);
        reveal_strlit("[");
        reveal_strlit("]");
        assert(b.len() == ft.len() + 2);
        assert(signature_text(s).take((ft.len() + 2) as int) =~= b);
    }
}

/// A commit is shown as the bracketed time of its own time (the committer's,
/// offset in seconds with its sign), then its author's name, a space, and the
/// first line of its trimmed message.
pub proof fn law_commit_text_layout(c: CommitView)
    ensures
        commit_text(c) == bracketed_time_text(fixed_time_of(c.committer.when)) + utf8_lossy(c.author.name)
            + " "@ + first_line(trimmed(utf8_lossy(c.message))),
        (-1440 < c.committer.when.offset_minutes < 1440 && crate::time::timestamp_in_range(c.committer.when.seconds)) ==>
            commit_text(c).take((fixed_date_time_text(c.committer.when.seconds, (c.committer.when.offset_minutes * 60) as i32).len() + 2) as int)
                == "["@ + fixed_date_time_text(c.committer.when.seconds, (c.committer.when.offset_minutes * 60) as i32) + "]"@,
{
    law_bracketed_time_of_git_time(c.committer.when);
    let b = bracketed_time_text(fixed_time_of(c.committer.when));
    if -1440 < c.committer.when.offset_minutes < 1440 && crate::time::timestamp_in_range(c.committer.when.seconds) {
        let ft = fixed_date_time_text(c.committer.when.seconds, (c.committer.when.offset_minutes * 60) as i32);
        reveal_strlit("[");
        reveal_strlit("]");
        assert(b.len() == ft.len() + 2);
        assert(commit_text(c).take((ft.len() + 2) as int) =~= b);
    }
}

impl Commit {
    pub fn new(
        sha: String,
        message_bytes: Vec<u8>,
        author: Signature,
        committer: Signature,
    ) -> (r: Self)
        ensures
            r@ == (CommitView {
                sha: sha@,
                message: message_bytes@,
                author: author@,
                committer: committer@,
            }),
    {
        Commit { sha, message_bytes, author, committer }
    }

    pub fn sha(&self) -> (r: String)
        ensures
            r@ == self@.sha,
    {
        self.sha.clone()
    }

    pub fn message_bytes(&self) -> (r: &[u8])
        ensures
            r@ == self@.message,
    {
        self.message_bytes.as_slice()
    }

    /// The message, when it is valid UTF-8.
    pub fn message(&self) -> (r: Option<&str>)
        ensures
            match r {
                Some(s) => utf8_text(self@.message) == Some(s@),
                None => utf8_text(self@.message) is None,
            },
    {
        str_from_utf8(self.message_bytes.as_slice())
    }

    /// The message, with invalid UTF-8 replaced.
    pub fn message_lossy(&self) -> (r: String)
        ensures
            r@ == utf8_lossy(self@.message),
            utf8_text(self@.message) matches Some(t) ==> r@ == t,
    {
        lossy_text(self.message_bytes.as_slice())
    }

    pub fn author(&self) -> (r: &Signature)
        ensures
            r@ == self@.author,
    {
        &self.author
    }

    pub fn committer(&self) -> (r: &Signature)
        ensures
            r@ == self@.committer,
    {
        &self.committer
    }

    /// Returns the commit time (i.e. committer time) as `(seconds, offset_minutes)`.
    pub fn when(&self) -> (r: (i64, i32))
        ensures
            r == (self@.committer.when.seconds, self@.committer.when.offset_minutes),
    {
        self.committer.when()
    }

    /// Returns the commit time; `None` for an invalid timestamp.
    pub fn time(&self) -> (r: Option<DateTimeValue>)
        ensures
            r == fixed_time_of(self@.committer.when),
            r matches Some(v) ==> valid_date_time(v),
    {
        self.committer.time()
    }

    /// Returns the commit time in UTC; `None` for an invalid timestamp.
    pub fn time_utc(&self) -> (r: Option<DateTimeValue>)
        ensures
            match fixed_time_of(self@.committer.when) {
                Some(v) => r == Some(DateTimeValue { timestamp: v.timestamp, offset_seconds: 0 }),
                None => r is None,
            },
    {
        match self.time() {
            Some(t) => Some(t.to_utc()),
            None => None,
        }
    }

    /// Returns the commit time in the local time zone, whose offset from UTC
    /// at that instant is `local_offset_seconds`; `None` for an invalid timestamp.
    pub fn time_local(&self, local_offset_seconds: i32) -> (r: Option<DateTimeValue>)
        requires
            offset_in_range(local_offset_seconds as int),
        ensures
            match fixed_time_of(self@.committer.when) {
                Some(v) => r == Some(DateTimeValue { timestamp: v.timestamp, offset_seconds: local_offset_seconds }),
                None => r is None,
            },
    {
        match self.time() {
            Some(t) => Some(t.to_local(local_offset_seconds)),
            None => None,
        }
    }

    /// How this commit is shown.
    pub fn to_display_string(&self) -> (r: String)
        ensures
            r@ == commit_text(self@),
    {
        let mut out = bracketed_time(self.time());
        let msg = self.message_lossy();
        let first = trimmed_first_line(msg.as_str());
        let name = self.author.name_lossy();
        out.append(name.as_str());
        out.append(" ");
        out.append(first.as_str());
        out
    }
}

} // verus!
