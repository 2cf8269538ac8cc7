use vstd::prelude::*;
use vstd::utf8::*;
use vstd::string::*;

use crate::text::{contains_phrase, contains_text, str_from_utf8};
use crate::time::{utc_date_time_text, utc_time_text, timestamp_in_range};

verus! {

/// The rule line of the report.
pub const REPORT_RULE: &'static str = "-----------------------------------------------------";

/// The longest line contents (in bytes) that the report shows whole.
pub const PREVIEW_BYTES: usize = 200;

/// A patch line matches when it is valid UTF-8 and its text contains the phrase.
pub open spec fn line_matches(line: Seq<u8>, phrase: Seq<char>) -> bool {
    valid_utf8(line) && contains_text(decode_utf8(line), phrase)
}

/// How many of the lines match the phrase.
pub open spec fn match_count(lines: Seq<Vec<u8>>, phrase: Seq<char>) -> nat
    decreases lines.len(),
{
    if lines.len() == 0 {
        0
    } else {
        match_count(lines.drop_last(), phrase) + if line_matches(lines.last()@, phrase) {
            1nat
        } else {
            0nat
        }
    }
}

/// The text of the last line that matches the phrase, if any.
pub open spec fn last_match(lines: Seq<Vec<u8>>, phrase: Seq<char>) -> Option<Seq<char>>
    decreases lines.len(),
{
    if lines.len() == 0 {
        None
    } else if line_matches(lines.last()@, phrase) {
        Some(decode_utf8(lines.last()@))
    } else {
        last_match(lines.drop_last(), phrase)
    }
}

/// What scanning one commit's patch for the phrase found: the last matching
/// line (empty when none), whether any line matched, and how many did.
pub struct PhraseScan {
    pub found_phrase: String,
    pub has_changes: bool,
    pub matches: usize,
}

/// The scan of `lines` for `phrase` is `s`.
pub open spec fn is_scan_of(s: PhraseScan, lines: Seq<Vec<u8>>, phrase: Seq<char>) -> bool {
    &&& s.matches == match_count(lines, phrase)
    &&& s.has_changes == (last_match(lines, phrase) is Some)
    &&& s.found_phrase@ == match last_match(lines, phrase) {
        Some(t) => t,
        None => Seq::empty(),
    }
}

/// At most every line matches, and some line matches exactly when there is
/// a last matching line.
pub proof fn law_match_count_bound(lines: Seq<Vec<u8>>, phrase: Seq<char>)
    ensures
        match_count(lines, phrase) <= lines.len(),
        (match_count(lines, phrase) > 0) == (last_match(lines, phrase) is Some),
    decreases lines.len(),
{
    if lines.len() > 0 {
        law_match_count_bound(lines.drop_last(), phrase);
    }
}

/// Scanning one more line: a line that matches becomes the reported line and
/// adds one to the count; a line that does not match changes neither. This
/// holds however many lines came before.
pub proof fn law_scan_one_more_line(lines: Seq<Vec<u8>>, line: Vec<u8>, phrase: Seq<char>)
    ensures
        line_matches(line@, phrase) ==> {
            &&& last_match(lines.push(line), phrase) == Some(decode_utf8(line@))
            &&& match_count(lines.push(line), phrase) == match_count(lines, phrase) + 1
        },
        !line_matches(line@, phrase) ==> {
            &&& last_match(lines.push(line), phrase) == last_match(lines, phrase)
            &&& match_count(lines.push(line), phrase) == match_count(lines, phrase)
        },
{
    assert(lines.push(line).drop_last() =~= lines);
    assert(lines.push(line).last() == line);
}

/// The count is the number of lines that are valid UTF-8 and contain the
/// phrase, wherever they stand.
pub proof fn law_match_count_counts_matching_lines(lines: Seq<Vec<u8>>, phrase: Seq<char>)
    ensures
        match_count(lines, phrase) == lines.filter(|l: Vec<u8>| line_matches(l@, phrase)).len(),
    decreases lines.len(),
{
    reveal(Seq::filter);
    if lines.len() > 0 {
        law_match_count_counts_matching_lines(lines.drop_last(), phrase);
    }
}

/// The reported line is a line of the patch that matches, and no later line
/// matches; when no line matches, none is reported.
pub proof fn law_last_match_is_last_matching_line(lines: Seq<Vec<u8>>, phrase: Seq<char>)
    ensures
        last_match(lines, phrase) is None <==> forall|i: int| 0 <= i < lines.len() ==> !line_matches(#[trigger] lines[i]@, phrase),
        last_match(lines, phrase) matches Some(t) ==> exists|i: int| {
            &&& 0 <= i < lines.len()
            &&& line_matches(#[trigger] lines[i]@, phrase)
            &&& t == decode_utf8(lines[i]@)
            &&& forall|j: int| i < j < lines.len() ==> !line_matches(#[trigger] lines[j]@, phrase)
        },
    decreases lines.len(),
{
    if lines.len() > 0 {
        let init = lines.drop_last();
        law_last_match_is_last_matching_line(init, phrase);
        assert forall|i: int| 0 <= i < init.len() implies init[i] == lines[i] by {}
        if line_matches(lines.last()@, phrase) {
            let k = lines.len() - 1;
            assert(line_matches(lines[k]@, phrase));
        } else {
            if last_match(init, phrase) is None {
                assert forall|i: int| 0 <= i < lines.len() implies !line_matches(#[trigger] lines[i]@, phrase) by {
                    if i < init.len() {
                        assert(init[i] == lines[i]);
                    }
                }
            } else {
                let t = last_match(init, phrase)->0;
                let i = choose|i: int| {
                    &&& 0 <= i < init.len()
                    &&& line_matches(#[trigger] init[i]@, phrase)
                    &&& t == decode_utf8(init[i]@)
                    &&& forall|j: int| i < j < init.len() ==> !line_matches(#[trigger] init[j]@, phrase)
                };
                assert(lines[i] == init[i]);
                assert forall|j: int| i < j < lines.len() implies !line_matches(#[trigger] lines[j]@, phrase) by {
                    if j < init.len() {
                        assert(init[j] == lines[j]);
                    }
                }
                assert(!line_matches(lines[lines.len() - 1]@, phrase));
            }
        }
    }
}

/// The line a scan reports holds the phrase.
pub proof fn law_found_line_holds_phrase(lines: Seq<Vec<u8>>, phrase: Seq<char>)
    ensures
        last_match(lines, phrase) matches Some(t) ==> contains_text(t, phrase),
    decreases lines.len(),
{
    if lines.len() > 0 {
        law_found_line_holds_phrase(lines.drop_last(), phrase);
    }
}

/// A line short enough is shown whole; a longer one is shown as a prefix of
/// it (the text of its first `PREVIEW_BYTES` bytes) followed by `"..."`.
pub proof fn law_preview_is_prefix(t: Seq<char>)
    requires
        previewable(t),
    ensures
        encode_utf8(t).len() <= PREVIEW_BYTES ==> preview_text(t) == t,
        encode_utf8(t).len() > PREVIEW_BYTES ==> exists|k: int|
            0 <= k <= t.len() && preview_text(t) == t.take(k) + "..."@
                && encode_utf8(#[trigger] t.take(k)) == encode_utf8(t).take(200),
{
    let b = encode_utf8(t);
    if b.len() > PREVIEW_BYTES {
        encode_utf8_valid_utf8(t);
        encode_utf8_decode_utf8(t);
        decode_utf8_split(b, PREVIEW_BYTES as int);
        let p = decode_utf8(b.subrange(0, PREVIEW_BYTES as int));
        assert(b.take(PREVIEW_BYTES as int) =~= b.subrange(0, PREVIEW_BYTES as int));
        assert(t.take(p.len() as int) =~= p);
        assert(preview_text(t) == t.take(p.len() as int) + "..."@);
        valid_utf8_split(b, PREVIEW_BYTES as int);
        decode_utf8_encode_utf8(b.subrange(0, PREVIEW_BYTES as int));
        assert(encode_utf8(t.take(p.len() as int)) == encode_utf8(t).take(200));
    }
}

/// Scans the lines of one commit's patch for the phrase.
pub fn scan_patch_lines(lines: &Vec<Vec<u8>>, phrase: &str) -> (r: PhraseScan)
    ensures
        is_scan_of(r, lines@, phrase@),
{
    let mut found_phrase = String::new();
    let mut has_changes = false;
    let mut matches: usize = 0;
    let n: usize = lines.len();
    for i in 0..n
        invariant
            n == lines@.len(),
            is_scan_of(
                PhraseScan { found_phrase, has_changes, matches },
                lines@.take(i as int),
                phrase@,
            ),
    {
        proof {
            law_match_count_bound(lines@.take(i as int), phrase@);
            assert(lines@.take(i + 1).drop_last() =~= lines@.take(i as int));
            assert(lines@.take(i + 1).last() == lines@[i as int]);
        }
        if let Some(line_contents) = str_from_utf8(lines[i].as_slice()) {
            if contains_phrase(line_contents, phrase) {
                found_phrase = String::from_str(line_contents);
                matches = matches + 1;
                has_changes = true;
            }
        }
    }
    assert(lines@.take(n as int) =~= lines@);
    PhraseScan { found_phrase, has_changes, matches }
}

/// Whether the search still takes commits: it stops once `max_count`
/// matching lines have been found.
pub fn search_open(curr_count: usize, max_count: usize) -> (r: bool)
    ensures
        r == (curr_count < max_count),
{
    curr_count < max_count
}

/// A commit in which the phrase was found: its id, its summary, the line
/// that held the phrase, and its time in seconds since the Unix epoch.
pub struct PhraseHit {
    pub oid: String,
    pub summary: Option<String>,
    pub line_contents: String,
    pub seconds: i64,
}

/// The report may show these line contents: they fit the preview, or the
/// preview ends on a character boundary.
pub open spec fn previewable(t: Seq<char>) -> bool {
    encode_utf8(t).len() <= PREVIEW_BYTES || is_char_boundary(encode_utf8(t), PREVIEW_BYTES as int)
}

/// Line contents as the report shows them: whole when their UTF-8 encoding
/// has at most `PREVIEW_BYTES` bytes, else the text of the first
/// `PREVIEW_BYTES` bytes followed by `"..."`.
pub open spec fn preview_text(t: Seq<char>) -> Seq<char> {
    if encode_utf8(t).len() <= PREVIEW_BYTES {
        t
    } else {
        decode_utf8(encode_utf8(t).take(PREVIEW_BYTES as int)) + "..."@
    }
}

/// The line contents as the report shows them.
pub fn preview_line(line: &str) -> (r: String)
    requires
        previewable(line@),
    ensures
        r@ == preview_text(line@),
{
    let byte_len: usize = line.as_bytes().len();
    if byte_len <= PREVIEW_BYTES {
        String::from_str(line)
    } else {
        let (head, _tail) = line.split_at(PREVIEW_BYTES);
        proof {
            encode_utf8_decode_utf8(head@);
            assert(head.spec_bytes() =~= encode_utf8(line@).take(PREVIEW_BYTES as int));
        }
        let mut out = String::from_str(head);
        out.append("...");
        out
    }
}

/// The block the report shows for one hit.
pub open spec fn hit_report_text(oid: Seq<char>, summary: Option<Seq<char>>, line: Seq<char>, seconds: i64) -> Seq<char> {
    let time_line = if timestamp_in_range(seconds) {
        "COMMIT ID: "@ + oid + " | COMMIT TIME: "@ + utc_date_time_text(seconds) + "\n"@
    } else {
        Seq::empty()
    };
    let summary_text = match summary {
        Some(s) => s,
        None => Seq::empty(),
    };
    time_line + "COMMIT MESSAGE: "@ + summary_text + "\n"@ + "COMMIT LINE CONTENTS:\n"@ + preview_text(line)
        + "\n"@ + REPORT_RULE@ + "\n\n"@
}

/// The report of a hit whose time chrono can represent opens with the line
/// giving the hit's id and the UTC text of exactly its own seconds; otherwise
/// it opens with the summary line. It always closes with the rule and a blank
/// line, and it shows the summary (or nothing) and the preview of the line.
pub proof fn law_report_layout(oid: Seq<char>, summary: Option<Seq<char>>, line: Seq<char>, seconds: i64)
    ensures
        ({
            let first = "COMMIT ID: "@ + oid + " | COMMIT TIME: "@ + utc_date_time_text(seconds) + "\n"@;
            let body = "COMMIT MESSAGE: "@ + match summary {
                Some(s) => s,
                None => Seq::<char>::empty(),
            } + "\n"@ + "COMMIT LINE CONTENTS:\n"@ + preview_text(line) + "\n"@ + REPORT_RULE@ + "\n\n"@;
            &&& timestamp_in_range(seconds) ==> hit_report_text(oid, summary, line, seconds) == first + body
            &&& !timestamp_in_range(seconds) ==> hit_report_text(oid, summary, line, seconds) == body
        }),
{
    let first = "COMMIT ID: "@ + oid + " | COMMIT TIME: "@ + utc_date_time_text(seconds) + "\n"@;
    let body = "COMMIT MESSAGE: "@ + match summary {
        Some(s) => s,
        None => Seq::<char>::empty(),
    } + "\n"@ + "COMMIT LINE CONTENTS:\n"@ + preview_text(line) + "\n"@ + REPORT_RULE@ + "\n\n"@;
    if timestamp_in_range(seconds) {
        assert(hit_report_text(oid, summary, line, seconds) =~= first + body);
    } else {
        assert(hit_report_text(oid, summary, line, seconds) =~= body);
    }
}

/// A hit's report shows the UTC text of exactly the hit's seconds: two hits
/// that differ only in their seconds have reports that differ only in that
/// text.
pub proof fn law_report_time_is_own_seconds(oid: Seq<char>, summary: Option<Seq<char>>, line: Seq<char>, seconds: i64)
    requires
        timestamp_in_range(seconds),
    ensures
        hit_report_text(oid, summary, line, seconds).take(("COMMIT ID: "@ + oid + " | COMMIT TIME: "@ + utc_date_time_text(seconds) + "\n"@).len() as int)
            == "COMMIT ID: "@ + oid + " | COMMIT TIME: "@ + utc_date_time_text(seconds) + "\n"@,
{
    law_report_layout(oid, summary, line, seconds);
    let first = "COMMIT ID: "@ + oid + " | COMMIT TIME: "@ + utc_date_time_text(seconds) + "\n"@;
    let r = hit_report_text(oid, summary, line, seconds);
    assert(r.take(first.len() as int) =~= first);
}

impl PhraseHit {
    /// The block the report shows for this hit: id and time (when the time
    /// is representable), summary, line contents, and the rule.
    pub fn report(&self) -> (r: String)
        requires
            previewable(self.line_contents@),
        ensures
            r@ == hit_report_text(
                self.oid@,
                match self.summary {
                    Some(s) => Some(s@),
                    None => None,
                },
                self.line_contents@,
                self.seconds,
            ),
    {
        let mut out = String::new();
        match utc_time_text(self.seconds) {
            Some(time) => {
                out.append("COMMIT ID: ");
                out.append(self.oid.as_str());
                out.append(" | COMMIT TIME: ");
                out.append(time.as_str());
                out.append("\n");
            },
            None => {},
        }
        out.append("COMMIT MESSAGE: ");
        match &self.summary {
            Some(s) => out.append(s.as_str()),
            None => {},
        }
        out.append("\n");
        out.append("COMMIT LINE CONTENTS:\n");
        let preview = preview_line(self.line_contents.as_str());
        out.append(preview.as_str());
        out.append("\n");
        out.append(REPORT_RULE);
        out.append("\n\n");
        out
    }
}

} // verus!
