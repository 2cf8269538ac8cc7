use vstd::prelude::*;
use vstd::utf8::*;
use vstd::string::*;

verus! {

// ---------------------------------------------------------------------------
// Decoding bytes
// ---------------------------------------------------------------------------

/// What `String::from_utf8_lossy` makes of a byte sequence: the decoded text,
/// with each maximal invalid subsequence replaced by U+FFFD.
pub uninterp spec fn utf8_lossy(bytes: Seq<u8>) -> Seq<char>;

/// Calls `std::str::from_utf8`. The contract restates its documentation: the
/// bytes are accepted exactly when they are valid UTF-8, and then the text
/// is their decoding.
#[verifier::external_body]
pub(crate) fn str_from_utf8(bytes: &[u8]) -> (r: Option<&str>)
    ensures
        r is Some <==> valid_utf8(bytes@),
        r matches Some(s) ==> s@ == decode_utf8(bytes@),
{
    std::str::from_utf8(bytes).ok()
}

/// Calls `String::from_utf8_lossy` and takes the owned text. The contract names
/// the result (`utf8_lossy`) and states what the documentation promises of
/// valid input: it is decoded unchanged.
#[verifier::external_body]
pub(crate) fn string_from_utf8_lossy(bytes: &[u8]) -> (r: String)
    ensures
        r@ == utf8_lossy(bytes@),
        valid_utf8(bytes@) ==> r@ == decode_utf8(bytes@),
{
    String::from_utf8_lossy(bytes).into_owned()
}

/// Lossy text of a byte sequence (valid UTF-8 is decoded as is).
pub fn lossy_text(bytes: &[u8]) -> (r: String)
    ensures
        r@ == utf8_lossy(bytes@),
        valid_utf8(bytes@) ==> r@ == decode_utf8(bytes@),
{
    string_from_utf8_lossy(bytes)
}

/// Calls `ToString::to_string` on a character: the one-character text.
#[verifier::external_body]
pub(crate) fn char_to_string(c: char) -> (r: String)
    ensures
        r@ == seq![c],
{
    c.to_string()
}

/// The decimal digit character of `d`.
pub open spec fn digit_char(d: nat) -> char {
    ((48 + d) as u8) as char
}

/// The decimal text of `n` (as `Display` shows an unsigned integer).
pub open spec fn decimal_text(n: nat) -> Seq<char>
    decreases n,
{
    if n < 10 {
        seq![digit_char(n)]
    } else {
        decimal_text(n / 10) + seq![digit_char(n % 10)]
    }
}

/// The decimal text of `n`.
pub fn decimal_string(n: usize) -> (r: String)
    ensures
        r@ == decimal_text(n as nat),
    decreases n,
{
    let d: u8 = (n % 10) as u8;
    let digit = char_to_string((48u8 + d) as char);
    if n < 10 {
        digit
    } else {
        let mut out = decimal_string(n / 10);
        out.append(digit.as_str());
        out
    }
}

/// The characters of `s`, in order.
pub fn chars_of(s: &str) -> (r: Vec<char>)
    ensures
        r@ == s@,
{
    let mut r: Vec<char> = Vec::new();
    for c in it: s.chars()
        invariant
            it.seq() == s@,
            r@ == it.seq().take(it.index() as int),
    {
        r.push(c);
    }
    r
}

// ---------------------------------------------------------------------------
// Searching for a phrase
// ---------------------------------------------------------------------------

/// `needle` stands in `hay` starting at position `i`.
pub open spec fn occurs_at(hay: Seq<char>, needle: Seq<char>, i: int) -> bool {
    &&& 0 <= i
    &&& i + needle.len() <= hay.len()
    &&& hay.subrange(i, i + needle.len()) == needle
}

/// `needle` is a contiguous part of `hay` (the empty text is part of every text).
pub open spec fn contains_text(hay: Seq<char>, needle: Seq<char>) -> bool {
    exists|i: int| occurs_at(hay, needle, i)
}

/// Whether `needle` matches `hay` at position `i`.
fn matches_at(hay: &Vec<char>, needle: &Vec<char>, i: usize) -> (r: bool)
    requires
        i + needle@.len() <= hay@.len(),
    ensures
        r == occurs_at(hay@, needle@, i as int),
{
    let n: usize = needle.len();
    let mut j: usize = 0;
    while j < n
        invariant
            n == needle@.len(),
            i + n <= hay.len(),
            j <= n,
            forall|k: int| 0 <= k < j ==> hay@[i + k] == needle@[k],
        decreases n - j,
    {
        if hay[i + j] != needle[j] {
            assert(hay@.subrange(i as int, i + n)[j as int] != needle@[j as int]);
            return false;
        }
        j = j + 1;
    }
    assert(hay@.subrange(i as int, i + n) =~= needle@);
    true
}

/// Whether `needle` occurs in `hay` as a contiguous run of characters.
pub fn contains_phrase(hay: &str, needle: &str) -> (r: bool)
    ensures
        r == contains_text(hay@, needle@),
{
    let h = chars_of(hay);
    let n = chars_of(needle);
    if n.len() > h.len() {
        assert forall|i: int| !occurs_at(hay@, needle@, i) by {}
        return false;
    }
    let last: usize = h.len() - n.len();
    for i in 0..last
        invariant
            h@ == hay@,
            n@ == needle@,
            last == h@.len() - n@.len(),
            forall|k: int| 0 <= k < i ==> !occurs_at(hay@, needle@, k),
    {
        if matches_at(&h, &n, i) {
            return true;
        }
    }
    if matches_at(&h, &n, last) {
        return true;
    }
    assert forall|k: int| !occurs_at(hay@, needle@, k) by {
        if 0 <= k < last {
        }
    }
    false
}

// ---------------------------------------------------------------------------
// Whitespace and the first line of a message
// ---------------------------------------------------------------------------

/// The characters with the Unicode `White_Space` property.
pub open spec fn is_white_space(c: char) -> bool {
    let u: u32 = c as u32;
    ||| 0x09 <= u <= 0x0D
    ||| u == 0x20
    ||| u == 0x85
    ||| u == 0xA0
    ||| u == 0x1680
    ||| 0x2000 <= u <= 0x200A
    ||| u == 0x2028
    ||| u == 0x2029
    ||| u == 0x202F
    ||| u == 0x205F
    ||| u == 0x3000
}

/// Calls `char::is_whitespace`, which the standard library documents as the
/// Unicode `White_Space` property; the contract lists those characters.
#[verifier::external_body]
pub(crate) fn char_is_whitespace(c: char) -> (r: bool)
    ensures
        r == is_white_space(c),
{
    c.is_whitespace()
}

/// Number of leading white-space characters of `s`.
pub open spec fn leading_ws(s: Seq<char>) -> nat
    decreases s.len(),
{
    if s.len() > 0 && is_white_space(s[0]) {
        1 + leading_ws(s.drop_first())
    } else {
        0
    }
}

/// Number of trailing white-space characters of `s`.
pub open spec fn trailing_ws(s: Seq<char>) -> nat
    decreases s.len(),
{
    if s.len() > 0 && is_white_space(s.last()) {
        1 + trailing_ws(s.drop_last())
    } else {
        0
    }
}

/// `s` without its leading and trailing white space (what `str::trim` gives).
pub open spec fn trimmed(s: Seq<char>) -> Seq<char> {
    let t = s.skip(leading_ws(s) as int);
    t.take(t.len() - trailing_ws(t))
}

/// First position of `c` in `s`, if any.
pub open spec fn first_index_of(s: Seq<char>, c: char) -> Option<int>
    decreases s.len(),
{
    if s.len() == 0 {
        None
    } else if s[0] == c {
        Some(0)
    } else {
        match first_index_of(s.drop_first(), c) {
            Some(k) => Some(k + 1),
            None => None,
        }
    }
}

/// The first line of `s` as `str::lines` gives it: the text before the first
/// `'\n'`, without a `'\r'` that ends it; the whole of `s` when it has no
/// `'\n'`; and nothing when `s` is empty.
pub open spec fn first_line(s: Seq<char>) -> Seq<char> {
    match first_index_of(s, '\n') {
        Some(k) => if k > 0 && s[k - 1] == '\r' {
            s.take(k - 1)
        } else {
            s.take(k)
        },
        None => s,
    }
}

proof fn lemma_leading_ws(s: Seq<char>, k: int)
    requires
        0 <= k <= s.len(),
        forall|i: int| 0 <= i < k ==> is_white_space(#[trigger] s[i]),
        k == s.len() || !is_white_space(s[k]),
    ensures
        leading_ws(s) == k,
    decreases k,
{
    if k > 0 {
        assert forall|i: int| 0 <= i < k - 1 implies is_white_space(#[trigger] s.drop_first()[i]) by {
            assert(s.drop_first()[i] == s[i + 1]);
        }
        lemma_leading_ws(s.drop_first(), k - 1);
    }
}

proof fn lemma_trailing_ws(s: Seq<char>, m: int)
    requires
        0 <= m <= s.len(),
        forall|i: int| s.len() - m <= i < s.len() ==> is_white_space(#[trigger] s[i]),
        m == s.len() || !is_white_space(s[s.len() - m - 1]),
    ensures
        trailing_ws(s) == m,
    decreases m,
{
    if m > 0 {
        assert(is_white_space(s[s.len() - 1]));
        assert forall|i: int| s.drop_last().len() - (m - 1) <= i < s.drop_last().len()
            implies is_white_space(#[trigger] s.drop_last()[i]) by {
            assert(s.drop_last()[i] == s[i]);
        }
        if m - 1 != s.drop_last().len() {
            assert(s.drop_last()[s.drop_last().len() - (m - 1) - 1] == s[s.len() - m - 1]);
        }
        lemma_trailing_ws(s.drop_last(), m - 1);
    }
}

proof fn lemma_first_index_found(s: Seq<char>, c: char, k: int)
    requires
        0 <= k < s.len(),
        s[k] == c,
        forall|i: int| 0 <= i < k ==> #[trigger] s[i] != c,
    ensures
        first_index_of(s, c) == Some(k),
    decreases k,
{
    if k > 0 {
        assert(s[0] != c);
        assert forall|i: int| 0 <= i < k - 1 implies #[trigger] s.drop_first()[i] != c by {
            assert(s.drop_first()[i] == s[i + 1]);
        }
        lemma_first_index_found(s.drop_first(), c, k - 1);
    }
}

proof fn lemma_first_index_absent(s: Seq<char>, c: char)
    requires
        forall|i: int| 0 <= i < s.len() ==> #[trigger] s[i] != c,
    ensures
        first_index_of(s, c) is None,
    decreases s.len(),
{
    if s.len() > 0 {
        assert(s[0] != c);
        assert forall|i: int| 0 <= i < s.drop_first().len() implies #[trigger] s.drop_first()[i] != c by {
            assert(s.drop_first()[i] == s[i + 1]);
        }
        lemma_first_index_absent(s.drop_first(), c);
    }
}

/// The first line of `s` once its surrounding white space is trimmed
/// (`s.trim().lines().next()`, or the empty text when there is no line).
pub fn trimmed_first_line(s: &str) -> (r: String)
    ensures
        r@ == first_line(trimmed(s@)),
{
    let c = chars_of(s);
    let len: usize = c.len();
    let mut start: usize = 0;
    while start < len && char_is_whitespace(c[start])
        invariant
            c@ == s@,
            len == c@.len(),
            start <= len,
            forall|i: int| 0 <= i < start ==> is_white_space(#[trigger] c@[i]),
        decreases len - start,
    {
        start = start + 1;
    }
    proof {
        lemma_leading_ws(s@, start as int);
    }
    let mut end: usize = len;
    while end > start && char_is_whitespace(c[end - 1])
        invariant
            c@ == s@,
            len == c@.len(),
            start <= end <= len,
            forall|i: int| end <= i < len ==> is_white_space(#[trigger] c@[i]),
        decreases end,
    {
        end = end - 1;
    }
    let ghost t = s@.skip(start as int);
    let ghost tr = s@.subrange(start as int, end as int);
    proof {
        assert forall|i: int| t.len() - (len - end) <= i < t.len()
            implies is_white_space(#[trigger] t[i]) by {
            assert(t[i] == s@[start + i]);
        }
        if len - end != t.len() {
            assert(t[t.len() - (len - end) - 1] == s@[end - 1]);
        }
        lemma_trailing_ws(t, (len - end) as int);
        assert(trimmed(s@) =~= tr);
    }
    let mut k: usize = start;
    while k < end && c[k] != '\n'
        invariant
            c@ == s@,
            len == c@.len(),
            start <= k <= end <= len,
            forall|i: int| start <= i < k ==> #[trigger] c@[i] != '\n',
        decreases end - k,
    {
        k = k + 1;
    }
    let mut line_end: usize = k;
    if k < end {
        proof {
            assert forall|i: int| 0 <= i < k - start implies #[trigger] tr[i] != '\n' by {
                assert(tr[i] == s@[start + i]);
            }
            lemma_first_index_found(tr, '\n', (k - start) as int);
        }
        if k > start && c[k - 1] == '\r' {
            line_end = k - 1;
        }
    } else {
        proof {
            assert forall|i: int| 0 <= i < tr.len() implies #[trigger] tr[i] != '\n' by {
                assert(tr[i] == s@[start + i]);
            }
            lemma_first_index_absent(tr, '\n');
        }
    }
    let piece = s.substring_char(start, line_end);
    let r = String::from_str(piece);
    assert(r@ =~= first_line(trimmed(s@)));
    r
}

proof fn lemma_first_index_props(s: Seq<char>, c: char)
    ensures
        first_index_of(s, c) matches Some(k) ==> 0 <= k < s.len() && s[k] == c
            && forall|i: int| 0 <= i < k ==> s[i] != c,
        first_index_of(s, c) is None ==> forall|i: int| 0 <= i < s.len() ==> s[i] != c,
    decreases s.len(),
{
    if s.len() > 0 {
        lemma_first_index_props(s.drop_first(), c);
        if s[0] != c {
            assert forall|i: int| 1 <= i < s.len() implies s[i] == s.drop_first()[i - 1] by {}
        }
    }
}

/// The first line of a text holds no line break.
pub proof fn law_first_line_has_no_newline(s: Seq<char>)
    ensures
        forall|i: int| 0 <= i < first_line(s).len() ==> first_line(s)[i] != '\n',
{
    lemma_first_index_props(s, '\n');
}

/// Trimmed text neither starts nor ends with white space.
pub proof fn law_trimmed_has_no_outer_white_space(s: Seq<char>)
    ensures
        trimmed(s).len() > 0 ==> !is_white_space(trimmed(s)[0]) && !is_white_space(trimmed(s).last()),
{
    let t = s.skip(leading_ws(s) as int);
    lemma_leading_ws_props(s);
    lemma_trailing_ws_props(t);
}

proof fn lemma_leading_ws_props(s: Seq<char>)
    ensures
        leading_ws(s) <= s.len(),
        leading_ws(s) < s.len() ==> !is_white_space(s[leading_ws(s) as int]),
    decreases s.len(),
{
    if s.len() > 0 && is_white_space(s[0]) {
        lemma_leading_ws_props(s.drop_first());
    }
}

proof fn lemma_trailing_ws_props(s: Seq<char>)
    ensures
        trailing_ws(s) <= s.len(),
        trailing_ws(s) < s.len() ==> !is_white_space(s[s.len() - trailing_ws(s) - 1]),
    decreases s.len(),
{
    if s.len() > 0 && is_white_space(s.last()) {
        lemma_trailing_ws_props(s.drop_last());
    }
}

/// The empty text is part of every text, and every text is part of itself.
pub proof fn law_contains_text_basics(s: Seq<char>)
    ensures
        contains_text(s, Seq::empty()),
        contains_text(s, s),
{
    assert(s.subrange(0, 0) =~= Seq::<char>::empty());
    assert(occurs_at(s, Seq::empty(), 0));
    assert(s.subrange(0, s.len() as int) =~= s);
    assert(occurs_at(s, s, 0));
}

/// A text contains a phrase exactly when the phrase stands somewhere in it:
/// whatever comes before and after, `a + phrase + b` contains `phrase`; and a
/// phrase longer than the text is never contained.
pub proof fn law_contains_text_placement(a: Seq<char>, phrase: Seq<char>, b: Seq<char>, hay: Seq<char>)
    ensures
        contains_text(a + phrase + b, phrase),
        phrase.len() > hay.len() ==> !contains_text(hay, phrase),
        contains_text(hay, phrase) ==> exists|i: int| 0 <= i && i + phrase.len() <= hay.len()
            && #[trigger] hay.subrange(i, i + phrase.len()) == phrase,
{
    let s = a + phrase + b;
    assert(s.subrange(a.len() as int, (a.len() + phrase.len()) as int) =~= phrase);
    assert(occurs_at(s, phrase, a.len() as int));
    if contains_text(hay, phrase) {
        let i = choose|i: int| occurs_at(hay, phrase, i);
        assert(hay.subrange(i, i + phrase.len()) == phrase);
    }
}

/// `str::trim` removes white space only: the text is its leading white
/// space, the trimmed text, and its trailing white space, in that order.
pub proof fn law_trimmed_is_the_middle(s: Seq<char>)
    ensures
        exists|i: int, j: int| {
            &&& 0 <= i <= j <= s.len()
            &&& #[trigger] s.subrange(i, j) == trimmed(s)
            &&& forall|k: int| 0 <= k < i ==> is_white_space(#[trigger] s[k])
            &&& forall|k: int| j <= k < s.len() ==> is_white_space(#[trigger] s[k])
        },
{
    let lead = leading_ws(s) as int;
    lemma_leading_ws_all(s);
    let t = s.skip(lead);
    lemma_trailing_ws_all(t);
    let tr = trailing_ws(t) as int;
    let j = s.len() - tr;
    assert(s.subrange(lead, j) =~= trimmed(s));
    assert forall|k: int| j <= k < s.len() implies is_white_space(#[trigger] s[k]) by {
        assert(s[k] == t[k - lead]);
    }
}

proof fn lemma_leading_ws_all(s: Seq<char>)
    ensures
        leading_ws(s) <= s.len(),
        forall|k: int| 0 <= k < leading_ws(s) ==> is_white_space(#[trigger] s[k]),
    decreases s.len(),
{
    if s.len() > 0 && is_white_space(s[0]) {
        lemma_leading_ws_all(s.drop_first());
        assert forall|k: int| 0 <= k < leading_ws(s) implies is_white_space(#[trigger] s[k]) by {
            if k > 0 {
                assert(s[k] == s.drop_first()[k - 1]);
            }
        }
    }
}

proof fn lemma_trailing_ws_all(s: Seq<char>)
    ensures
        trailing_ws(s) <= s.len(),
        forall|k: int| s.len() - trailing_ws(s) <= k < s.len() ==> is_white_space(#[trigger] s[k]),
    decreases s.len(),
{
    if s.len() > 0 && is_white_space(s.last()) {
        lemma_trailing_ws_all(s.drop_last());
        assert forall|k: int| s.len() - trailing_ws(s) <= k < s.len() implies is_white_space(#[trigger] s[k]) by {
            if k < s.len() - 1 {
                assert(s[k] == s.drop_last()[k]);
            }
        }
    }
}

/// The first line of a text without a line break is the whole text; of a
/// text `a + "\n" + b` where `a` holds no line break, it is `a`, without a
/// carriage return that ends it.
pub proof fn law_first_line_cases(a: Seq<char>, b: Seq<char>)
    ensures
        (forall|k: int| 0 <= k < a.len() ==> a[k] != '\n') ==> first_line(a) == a,
        (forall|k: int| 0 <= k < a.len() ==> a[k] != '\n') ==> first_line(a + seq!['\n'] + b) == if a.len() > 0 && a.last() == '\r' {
            a.drop_last()
        } else {
            a
        },
{
    if forall|k: int| 0 <= k < a.len() ==> a[k] != '\n' {
        lemma_first_index_absent(a, '\n');
        let s = a + seq!['\n'] + b;
        assert forall|k: int| 0 <= k < a.len() implies #[trigger] s[k] != '\n' by {
            assert(s[k] == a[k]);
        }
        lemma_first_index_found(s, '\n', a.len() as int);
        assert(s.take(a.len() as int) =~= a);
        if a.len() > 0 && a.last() == '\r' {
            assert(s.take(a.len() - 1) =~= a.drop_last());
        }
    }
}

/// The characters with the Unicode `White_Space` property are exactly tab,
/// line feed, vertical tab, form feed, carriage return, space, next line,
/// no-break space, ogham space mark, the spaces U+2000 to U+200A, the line and
/// paragraph separators, narrow no-break space, medium mathematical space and
/// ideographic space.
pub proof fn law_white_space_characters(c: char)
    ensures
        is_white_space(c) <==> (c == '\t' || c == '\n' || c == '\u{0B}' || c == '\u{0C}' || c == '\r'
            || c == ' ' || c == '\u{85}' || c == '\u{A0}' || c == '\u{1680}'
            || ('\u{2000}' <= c && c <= '\u{200A}') || c == '\u{2028}' || c == '\u{2029}'
            || c == '\u{202F}' || c == '\u{205F}' || c == '\u{3000}'),
{
}

/// Decimal text: a single digit is its digit character, and a number of two
/// or more digits is the text of all but its last digit followed by that
/// digit; digit characters are `'0'` to `'9'` in order.
pub proof fn law_decimal_text_digits(n: nat, d: nat)
    requires
        d < 10,
    ensures
        decimal_text(d) == seq![digit_char(d)],
        n > 0 ==> decimal_text(n * 10 + d) == decimal_text(n) + seq![digit_char(d)],
        digit_char(d) as u32 == 48 + d,
{
    assert((n * 10 + d) / 10 == n) by (nonlinear_arith)
        requires
            d < 10,
    ;
    assert((n * 10 + d) % 10 == d) by (nonlinear_arith)
        requires
            d < 10,
    ;
}

} // verus!
