//! Character-level reading of program output: whitespace, trimming, tokens and lines.

use vstd::prelude::*;
use vstd::std_specs::iter::IteratorSpec;
use vstd::utf8::decode_utf8;
use vstd::utf8::valid_utf8;

verus! {

broadcast use vstd::string::group_string_axioms;

/// The characters that count as whitespace: the Unicode `White_Space` code points.
pub open spec fn is_space(c: char) -> bool {
    let u = c as u32;
    ||| 0x09 <= u <= 0x0D
    ||| u == 0x20
    ||| u == 0x85
    ||| u == 0xA0
    ||| u == 0x1680
    ||| 0x2000 <= u <= 0x200A
    ||| u == 0x2028
    ||| u == 0x2029
    ||| u == 0x202F
    ||| u == 0x205F
    ||| u == 0x3000
}

/// Whether `c` is whitespace.
pub fn is_whitespace(c: char) -> (space: bool)
    ensures
        space == is_space(c),
{
    let u: u32 = c as u32;
    (0x09 <= u && u <= 0x0D) || u == 0x20 || u == 0x85 || u == 0xA0 || u == 0x1680 || (0x2000 <= u
        && u <= 0x200A) || u == 0x2028 || u == 0x2029 || u == 0x202F || u == 0x205F || u == 0x3000
}

/// The characters of `s`, in order.
pub fn chars_of(s: &str) -> (chars: Vec<char>)
    ensures
        chars@ == s@,
{
    let mut chars: Vec<char> = Vec::new();
    for c in it: s.chars()
        invariant
            it.seq() == s@,
            chars@ == s@.take(it.index()),
    {
        chars.push(c);
    }
    chars
}

/// `s` without its leading whitespace.
pub open spec fn trim_start(s: Seq<char>) -> Seq<char>
    decreases s.len(),
{
    if s.len() > 0 && is_space(s.first()) {
        trim_start(s.drop_first())
    } else {
        s
    }
}

/// `s` without its trailing whitespace.
pub open spec fn trim_end(s: Seq<char>) -> Seq<char>
    decreases s.len(),
{
    if s.len() > 0 && is_space(s.last()) {
        trim_end(s.drop_last())
    } else {
        s
    }
}

/// `s` without its leading and trailing whitespace.
pub open spec fn trim(s: Seq<char>) -> Seq<char> {
    trim_end(trim_start(s))
}

/// The longest suffix of `s` that holds no whitespace.
pub open spec fn last_run(s: Seq<char>) -> Seq<char>
    decreases s.len(),
{
    if s.len() > 0 && !is_space(s.last()) {
        last_run(s.drop_last()).push(s.last())
    } else {
        Seq::empty()
    }
}

/// The last whitespace-delimited token of `s`: what is left at the end of `s` once it is
/// trimmed and cut after its last inner whitespace. It is empty where `s` has no token:
/// where it holds nothing but whitespace.
pub open spec fn last_token(s: Seq<char>) -> Seq<char> {
    last_run(trim(s))
}

/// Where the leading whitespace of `s[from..to]` ends.
fn skip_spaces(s: &Vec<char>, from: usize, to: usize) -> (at: usize)
    requires
        from <= to <= s.len(),
    ensures
        from <= at <= to,
        trim_start(s@.subrange(from as int, to as int)) == s@.subrange(at as int, to as int),
{
    let mut at: usize = from;
    while at < to && is_whitespace(s[at])
        invariant
            from <= at <= to <= s.len(),
            trim_start(s@.subrange(from as int, to as int)) == trim_start(
                s@.subrange(at as int, to as int),
            ),
        decreases to - at,
    {
        assert(s@.subrange(at as int, to as int).drop_first() == s@.subrange(
            at as int + 1,
            to as int,
        ));
        at = at + 1;
    }
    at
}

/// Where the trailing whitespace of `s[from..to]` starts.
fn skip_spaces_back(s: &Vec<char>, from: usize, to: usize) -> (at: usize)
    requires
        from <= to <= s.len(),
    ensures
        from <= at <= to,
        trim_end(s@.subrange(from as int, to as int)) == s@.subrange(from as int, at as int),
{
    let mut at: usize = to;
    while at > from && is_whitespace(s[at - 1])
        invariant
            from <= at <= to <= s.len(),
            trim_end(s@.subrange(from as int, to as int)) == trim_end(
                s@.subrange(from as int, at as int),
            ),
        decreases at - from,
    {
        assert(s@.subrange(from as int, at as int).drop_last() == s@.subrange(
            from as int,
            at as int - 1,
        ));
        at = at - 1;
    }
    at
}

/// Where the last whitespace-free run of `s[from..to]` starts.
fn run_start(s: &Vec<char>, from: usize, to: usize) -> (at: usize)
    requires
        from <= to <= s.len(),
    ensures
        from <= at <= to,
        last_run(s@.subrange(from as int, to as int)) == s@.subrange(at as int, to as int),
{
    let mut at: usize = to;
    while at > from && !is_whitespace(s[at - 1])
        invariant
            from <= at <= to <= s.len(),
            last_run(s@.subrange(from as int, to as int)) == last_run(
                s@.subrange(from as int, at as int),
            ) + s@.subrange(at as int, to as int),
        decreases at - from,
    {
        assert(s@.subrange(from as int, at as int).drop_last() == s@.subrange(
            from as int,
            at as int - 1,
        ));
        assert(seq![s@[at as int - 1]] + s@.subrange(at as int, to as int) == s@.subrange(
            at as int - 1,
            to as int,
        ));
        at = at - 1;
    }
    at
}

/// The last whitespace-delimited token of `text`.
pub fn last_word(text: &str) -> (word: String)
    ensures
        word@ == last_token(text@),
{
    let chars = chars_of(text);
    let start = skip_spaces(&chars, 0, chars.len());
    let end = skip_spaces_back(&chars, start, chars.len());
    let at = run_start(&chars, start, end);
    proof {
        assert(chars@.subrange(0, chars@.len() as int) == chars@);
        assert(chars@.subrange(start as int, chars@.len() as int).subrange(
            0,
            end as int - start as int,
        ) == chars@.subrange(start as int, end as int));
    }
    text.substring_char(at, end).to_owned()
}

/// Whether `s` holds a character and no whitespace.
pub open spec fn is_word(s: Seq<char>) -> bool {
    s.len() > 0 && forall|i: int| 0 <= i < s.len() ==> !is_space(#[trigger] s[i])
}

/// Whether `s` holds nothing but whitespace.
pub open spec fn is_blank(s: Seq<char>) -> bool {
    forall|i: int| 0 <= i < s.len() ==> is_space(#[trigger] s[i])
}

/// Trimming at the start stops at the first character that is no whitespace and
/// leaves what follows it alone.
pub proof fn lemma_trim_start_stops(head: Seq<char>, rest: Seq<char>)
    requires
        rest.len() > 0,
        !is_space(rest.first()),
    ensures
        trim_start(head + rest) == trim_start(head) + rest,
    decreases head.len(),
{
    if head.len() == 0 {
        assert(head + rest == rest);
        assert(trim_start(head) + rest == rest);
    } else {
        assert((head + rest).first() == head.first());
        assert((head + rest).drop_first() == head.drop_first() + rest);
        if is_space(head.first()) {
            lemma_trim_start_stops(head.drop_first(), rest);
        }
    }
}

/// What trimming at the start leaves is empty or ends as the text did.
pub proof fn lemma_trim_start_keeps_end(s: Seq<char>)
    ensures
        trim_start(s).len() > 0 ==> s.len() > 0 && trim_start(s).last() == s.last(),
    decreases s.len(),
{
    if s.len() > 0 && is_space(s.first()) {
        lemma_trim_start_keeps_end(s.drop_first());
    }
}

/// Trimming at the end takes trailing whitespace away and nothing else.
pub proof fn lemma_trim_end_drops_blank(s: Seq<char>, tail: Seq<char>)
    requires
        is_blank(tail),
    ensures
        trim_end(s + tail) == trim_end(s),
    decreases tail.len(),
{
    if tail.len() == 0 {
        assert(s + tail == s);
    } else {
        assert((s + tail).last() == tail.last());
        assert((s + tail).drop_last() == s + tail.drop_last());
        lemma_trim_end_drops_blank(s, tail.drop_last());
    }
}

/// A word at the end of a text is the end of its last whitespace-free run.
pub proof fn lemma_last_run_takes_word(head: Seq<char>, word: Seq<char>)
    requires
        forall|i: int| 0 <= i < word.len() ==> !is_space(#[trigger] word[i]),
    ensures
        last_run(head + word) == last_run(head) + word,
    decreases word.len(),
{
    if word.len() == 0 {
        assert(head + word == head);
        assert(last_run(head) + word == last_run(head));
    } else {
        assert((head + word).last() == word.last());
        assert((head + word).drop_last() == head + word.drop_last());
        lemma_last_run_takes_word(head, word.drop_last());
        assert((last_run(head) + word.drop_last()).push(word.last()) == last_run(head) + word);
    }
}

/// A text that holds nothing but whitespace has no last token.
pub proof fn lemma_blank_has_no_token(s: Seq<char>)
    requires
        is_blank(s),
    ensures
        last_token(s).len() == 0,
    decreases s.len(),
{
    if s.len() > 0 {
        assert(is_space(s[0]));
        lemma_blank_has_no_token(s.drop_first());
    }
}

/// The last token of a text that ends with a word and trailing whitespace is that
/// word, where the word stands at the start of the text or after whitespace.
pub proof fn lemma_last_token_is_final_word(head: Seq<char>, word: Seq<char>, tail: Seq<char>)
    requires
        head.len() == 0 || is_space(head.last()),
        is_word(word),
        is_blank(tail),
    ensures
        last_token(head + word + tail) == word,
{
    let kept = trim_start(head);
    assert(head + word + tail == head + (word + tail));
    assert((word + tail).first() == word[0]);
    lemma_trim_start_stops(head, word + tail);
    assert(kept + (word + tail) == (kept + word) + tail);
    lemma_trim_end_drops_blank(kept + word, tail);
    assert((kept + word).last() == word[word.len() - 1]);
    assert(trim_end(kept + word) == kept + word);
    lemma_last_run_takes_word(kept, word);
    lemma_trim_start_keeps_end(head);
    assert(last_run(kept) == Seq::<char>::empty());
    assert(Seq::<char>::empty() + word == word);
}

/// The text that `bytes` encode, where they are well-formed UTF-8.
///
/// Trusted: this is `std::str::from_utf8`. The contract claims what its documentation
/// says: the call succeeds exactly on well-formed UTF-8, and the slice it returns holds
/// the characters that the bytes encode.
#[verifier::external_body]
pub(crate) fn decode(bytes: &[u8]) -> (text: Option<&str>)
    ensures
        text is Some <==> valid_utf8(bytes@),
        text matches Some(t) ==> t@ == decode_utf8(bytes@),
{
    std::str::from_utf8(bytes).ok()
}

/// How many characters of `s` stand before its first line feed.
pub open spec fn line_len(s: Seq<char>) -> nat
    decreases s.len(),
{
    if s.len() == 0 || s.first() == '\n' {
        0
    } else {
        1 + line_len(s.drop_first())
    }
}

/// `line` without the carriage return that ends it, if one does.
pub open spec fn without_cr(line: Seq<char>) -> Seq<char> {
    if line.len() > 0 && line.last() == '\r' {
        line.drop_last()
    } else {
        line
    }
}

/// The lines of `s`. A line ends with a line feed, or with a carriage return and a line
/// feed; neither belongs to the line. What follows the last line feed is a line of its
/// own unless it is empty.
pub open spec fn lines_of(s: Seq<char>) -> Seq<Seq<char>>
    decreases s.len(),
{
    let n = line_len(s) as int;
    if s.len() == 0 {
        Seq::empty()
    } else if n < s.len() {
        seq![without_cr(s.take(n))] + lines_of(s.skip(n + 1))
    } else {
        seq![s]
    }
}

/// `line_len` is at most the length, and counts up to the first line feed.
pub proof fn lemma_line_len(s: Seq<char>, k: int)
    requires
        0 <= k <= s.len(),
        forall|j: int| 0 <= j < k ==> s[j] != '\n',
        k < s.len() ==> s[k] == '\n',
    ensures
        line_len(s) == k,
    decreases k,
{
    if k > 0 {
        lemma_line_len(s.drop_first(), k - 1);
    }
}

/// The views of the strings of `v`.
pub open spec fn views(v: Seq<String>) -> Seq<Seq<char>> {
    v.map_values(|s: String| s@)
}

/// The lines of `text`.
pub fn lines(text: &str) -> (out: Vec<String>)
    ensures
        views(out@) == lines_of(text@),
{
    let chars = chars_of(text);
    let n = chars.len();
    let mut out: Vec<String> = Vec::new();
    let mut start: usize = 0;
    let mut at: usize = 0;
    proof {
        assert(chars@.skip(0) == chars@);
        assert(views(out@) + lines_of(chars@) == lines_of(chars@));
    }
    while at < n
        invariant
            start <= at <= n == chars.len(),
            chars@ == text@,
            forall|j: int| start <= j < at ==> chars@[j] != '\n',
            lines_of(text@) == views(out@) + lines_of(chars@.skip(start as int)),
        decreases n - at,
    {
        if chars[at] == '\n' {
            let ghost rest = chars@.skip(start as int);
            proof {
                lemma_line_len(rest, at - start);
                assert(rest.take(at - start) == chars@.subrange(start as int, at as int));
                assert(rest.skip(at - start + 1) == chars@.skip(at as int + 1));
            }
            let end = if at > start && chars[at - 1] == '\r' {
                at - 1
            } else {
                at
            };
            let line = text.substring_char(start, end).to_owned();
            proof {
                assert(line@ == without_cr(rest.take(at - start)));
                assert(views(out@.push(line)) == views(out@).push(line@));
            }
            out.push(line);
            start = at + 1;
        }
        at = at + 1;
    }
    if start < n {
        let ghost rest = chars@.skip(start as int);
        proof {
            lemma_line_len(rest, n - start);
        }
        let line = text.substring_char(start, n).to_owned();
        proof {
            assert(line@ == rest);
            assert(views(out@.push(line)) == views(out@).push(line@));
        }
        out.push(line);
    } else {
        assert(lines_of(chars@.skip(start as int)) == Seq::<Seq<char>>::empty());
    }
    out
}

/// `s` with every character in lower case, as Unicode defines it.
pub uninterp spec fn lowercase(s: Seq<char>) -> Seq<char>;

/// `s` in lower case.
///
/// Trusted: this is `str::to_lowercase`, whose result depends on the characters of
/// `s` alone. The contract gives that result its name.
#[verifier::external_body]
pub(crate) fn to_lowercase(s: &str) -> (lowered: String)
    ensures
        lowered@ == lowercase(s@),
{
    s.to_lowercase()
}

/// Whether `s` ends with `suffix`.
pub fn ends_with(s: &str, suffix: &str) -> (yes: bool)
    ensures
        yes == suffix@.is_suffix_of(s@),
{
    let whole = chars_of(s);
    let part = chars_of(suffix);
    if part.len() > whole.len() {
        return false;
    }
    let skip = whole.len() - part.len();
    let mut at: usize = 0;
    while at < part.len()
        invariant
            whole@ == s@,
            part@ == suffix@,
            at <= part.len() <= whole.len(),
            skip == whole.len() - part.len(),
            forall|j: int| 0 <= j < at ==> whole@[skip + j] == part@[j],
        decreases part.len() - at,
    {
        if whole[skip + at] != part[at] {
            assert(whole@.subrange(skip as int, whole@.len() as int)[at as int] != part@[at as int]);
            return false;
        }
        at = at + 1;
    }
    assert(part@ =~= whole@.subrange(skip as int, whole@.len() as int));
    true
}

/// Whether `a` and `b` hold the same characters.
pub fn same_text(a: &str, b: &str) -> (same: bool)
    ensures
        same == (a@ == b@),
{
    a.to_owned() == b.to_owned()
}

/// The decimal digit for `d`.
pub open spec fn digit_of(d: nat) -> char {
    if d == 0 {
        '0'
    } else if d == 1 {
        '1'
    } else if d == 2 {
        '2'
    } else if d == 3 {
        '3'
    } else if d == 4 {
        '4'
    } else if d == 5 {
        '5'
    } else if d == 6 {
        '6'
    } else if d == 7 {
        '7'
    } else if d == 8 {
        '8'
    } else {
        '9'
    }
}

/// `n` in decimal digits, without leading zeros.
pub open spec fn decimal_of(n: nat) -> Seq<char>
    decreases n,
{
    if n < 10 {
        seq![digit_of(n)]
    } else {
        decimal_of(n / 10).push(digit_of(n % 10))
    }
}

/// The text of the decimal digit for `d`.
fn digit(d: usize) -> (text: &'static str)
    requires
        d < 10,
    ensures
        text@ == seq![digit_of(d as nat)],
{
    proof {
        reveal_strlit("0");
        reveal_strlit("1");
        reveal_strlit("2");
        reveal_strlit("3");
        reveal_strlit("4");
        reveal_strlit("5");
        reveal_strlit("6");
        reveal_strlit("7");
        reveal_strlit("8");
        reveal_strlit("9");
    }
    let text = if d == 0 {
        "0"
    } else if d == 1 {
        "1"
    } else if d == 2 {
        "2"
    } else if d == 3 {
        "3"
    } else if d == 4 {
        "4"
    } else if d == 5 {
        "5"
    } else if d == 6 {
        "6"
    } else if d == 7 {
        "7"
    } else if d == 8 {
        "8"
    } else {
        "9"
    };
    assert(text@ =~= seq![digit_of(d as nat)]);
    text
}

/// `n` in decimal digits.
pub fn decimal(n: usize) -> (text: String)
    ensures
        text@ == decimal_of(n as nat),
{
    let mut text = String::from_str(digit(n % 10));
    let mut rest: usize = n / 10;
    while rest > 0
        invariant
            rest > 0 ==> decimal_of(n as nat) == decimal_of(rest as nat) + text@,
            rest == 0 ==> decimal_of(n as nat) == text@,
        decreases rest,
    {
        let ghost before = text@;
        text = String::from_str(digit(rest % 10)).concat(text.as_str());
        proof {
            if rest >= 10 {
                assert(decimal_of((rest / 10) as nat).push(digit_of((rest % 10) as nat)) + before
                    == decimal_of((rest / 10) as nat) + text@);
            }
        }
        rest = rest / 10;
    }
    text
}

} // verus!
