//! Where a paid lwn.net article announces the day it becomes free to read.
//!
//! Such an article ends with a paragraph that says "(Alternatively, this
//! item will become freely available on June 12, 2025)". The sentence is
//! found the way the regular expression
//! `\(Alternatively, this item will become freely\s*available on ([A-Z][a-z]+ [0-9]{1,2}, [0-9]{4})\)`
//! finds it: at the first position where it matches, capturing the date.
use vstd::prelude::*;

verus! {

/// The classes of characters that the release sentence is made of.
#[derive(Copy, Clone)]
pub enum CharClass {
    /// Unicode `White_Space`, which is what `\s` matches.
    WhiteSpace,
    /// `[a-z]`
    Lower,
    /// `[0-9]`
    Digit,
}

pub open spec fn is_white_space(c: char) -> bool {
    ||| '\u{9}' <= c <= '\u{d}'
    ||| c == ' '
    ||| c == '\u{85}'
    ||| c == '\u{a0}'
    ||| c == '\u{1680}'
    ||| '\u{2000}' <= c <= '\u{200a}'
    ||| c == '\u{2028}'
    ||| c == '\u{2029}'
    ||| c == '\u{202f}'
    ||| c == '\u{205f}'
    ||| c == '\u{3000}'
}

pub open spec fn is_upper(c: char) -> bool {
    'A' <= c <= 'Z'
}

pub open spec fn is_lower(c: char) -> bool {
    'a' <= c <= 'z'
}

pub open spec fn is_digit(c: char) -> bool {
    '0' <= c <= '9'
}

pub open spec fn in_class(class: CharClass, c: char) -> bool {
    match class {
        CharClass::WhiteSpace => is_white_space(c),
        CharClass::Lower => is_lower(c),
        CharClass::Digit => is_digit(c),
    }
}

/// The end of the longest run of characters of `class` in `s` that starts at `k`.
pub open spec fn run_end(s: Seq<char>, k: int, class: CharClass) -> int
    decreases s.len() - k,
{
    if 0 <= k < s.len() && in_class(class, s[k]) {
        run_end(s, k + 1, class)
    } else {
        k
    }
}

/// The words that open the release sentence.
pub open spec fn opening_words() -> Seq<char> {
    "(Alternatively, this item will become freely"@
}

/// The words that come before the date, after some white space.
pub open spec fn closing_words() -> Seq<char> {
    "available on "@
}

/// `s` holds `word` from position `i` on.
pub open spec fn holds_at(s: Seq<char>, i: int, word: Seq<char>) -> bool {
    0 <= i && i + word.len() <= s.len() && s.subrange(i, i + word.len()) == word
}

/// The date part of the sentence, `[A-Z][a-z]+ [0-9]{1,2}, [0-9]{4}` followed by `)`,
/// when it starts at `c`: the position where the date ends.
pub open spec fn date_end_at(s: Seq<char>, c: int) -> Option<int> {
    let d = run_end(s, c + 1, CharClass::Lower);
    let e = run_end(s, d + 1, CharClass::Digit);
    if 0 <= c && c < s.len() && is_upper(s[c]) && d > c + 1 && d < s.len() && s[d] == ' '
        && d + 2 <= e <= d + 3 && e + 6 < s.len() && s[e] == ',' && s[e + 1] == ' '
        && is_digit(s[e + 2]) && is_digit(s[e + 3]) && is_digit(s[e + 4]) && is_digit(s[e + 5])
        && s[e + 6] == ')' {
        Some(e + 6)
    } else {
        None
    }
}

/// Where the captured date lies when the release sentence starts at `i`.
pub open spec fn capture_at(s: Seq<char>, i: int) -> Option<(int, int)> {
    let a = i + opening_words().len();
    let b = run_end(s, a, CharClass::WhiteSpace);
    let c = b + closing_words().len();
    if holds_at(s, i, opening_words()) && holds_at(s, b, closing_words()) {
        match date_end_at(s, c) {
            Some(e) => Some((c, e)),
            None => None,
        }
    } else {
        None
    }
}

/// The first position from `i` on where the release sentence starts, with its capture.
pub open spec fn first_capture_from(s: Seq<char>, i: int) -> Option<(int, int)>
    decreases s.len() + 1 - i,
{
    if i < 0 || i > s.len() {
        None
    } else {
        match capture_at(s, i) {
            Some(span) => Some(span),
            None => first_capture_from(s, i + 1),
        }
    }
}

/// The date that the release sentence of `s` announces, if it has one.
pub open spec fn release_date_text(s: Seq<char>) -> Option<Seq<char>> {
    match first_capture_from(s, 0) {
        Some((c, e)) => Some(s.subrange(c, e)),
        None => None,
    }
}

pub proof fn lemma_run_end(s: Seq<char>, k: int, class: CharClass)
    requires
        0 <= k,
    ensures
        k <= run_end(s, k, class),
        k <= s.len() ==> run_end(s, k, class) <= s.len(),
        forall|j: int| k <= j < run_end(s, k, class) ==> in_class(class, #[trigger] s[j]),
        run_end(s, k, class) < s.len() ==> !in_class(class, s[run_end(s, k, class)]),
    decreases s.len() - k,
{
    if 0 <= k < s.len() && in_class(class, s[k]) {
        lemma_run_end(s, k + 1, class);
    }
}

/// Whether `c` is of `class`.
pub fn is_in_class(class: CharClass, c: char) -> (b: bool)
    ensures
        b == in_class(class, c),
{
    match class {
        CharClass::WhiteSpace => {
            ('\u{9}' <= c && c <= '\u{d}') || c == ' ' || c == '\u{85}' || c == '\u{a0}'
                || c == '\u{1680}' || ('\u{2000}' <= c && c <= '\u{200a}') || c == '\u{2028}'
                || c == '\u{2029}' || c == '\u{202f}' || c == '\u{205f}' || c == '\u{3000}'
        },
        CharClass::Lower => 'a' <= c && c <= 'z',
        CharClass::Digit => '0' <= c && c <= '9',
    }
}

/// The characters of `text`, in order.
pub fn chars_of(text: &str) -> (chars: Vec<char>)
    ensures
        chars@ == text@,
{
    let mut chars: Vec<char> = Vec::new();
    for c in it: text.chars()
        invariant
            chars@ == it.seq().take(it.index() as int),
    {
        chars.push(c);
    }
    chars
}

/// The end of the longest run of characters of `class` in `chars` that starts at `k`.
fn scan_run(chars: &Vec<char>, k: usize, class: CharClass) -> (end: usize)
    requires
        k <= chars@.len(),
    ensures
        end == run_end(chars@, k as int, class),
        k <= end <= chars@.len(),
{
    let mut j = k;
    while j < chars.len() && is_in_class(class, chars[j])
        invariant
            k <= j <= chars@.len(),
            run_end(chars@, k as int, class) == run_end(chars@, j as int, class),
        decreases chars@.len() - j,
    {
        j = j + 1;
    }
    j
}

/// Whether `chars` holds `word` from position `i` on.
fn holds_word_at(chars: &Vec<char>, i: usize, word: &Vec<char>) -> (b: bool)
    ensures
        b == holds_at(chars@, i as int, word@),
        b ==> i + word@.len() <= chars@.len(),
{
    if i > chars.len() || word.len() > chars.len() - i {
        return false;
    }
    let mut j: usize = 0;
    while j < word.len()
        invariant
            i + word.len() <= chars.len(),
            i + word@.len() <= chars@.len(),
            0 <= j <= word@.len(),
            forall|m: int| 0 <= m < j ==> chars@[i + m] == word@[m],
        decreases word@.len() - j,
    {
        if chars[i + j] != word[j] {
            assert(chars@.subrange(i as int, i + word@.len())[j as int] != word@[j as int]);
            return false;
        }
        j = j + 1;
    }
    assert(chars@.subrange(i as int, i + word@.len()) =~= word@);
    true
}

/// Where the date that starts at `c` ends, when a date of the release sentence starts there.
fn date_end(chars: &Vec<char>, c: usize) -> (end: Option<usize>)
    requires
        c <= chars@.len(),
    ensures
        match end {
            Some(e) => date_end_at(chars@, c as int) == Some(e as int),
            None => date_end_at(chars@, c as int) is None,
        },
{
    let ghost s = chars@;
    let len = chars.len();
    if c >= len || !('A' <= chars[c] && chars[c] <= 'Z') {
        return None;
    }
    let d = scan_run(chars, c + 1, CharClass::Lower);
    if !(d > c + 1 && d < len && chars[d] == ' ') {
        return None;
    }
    let e = scan_run(chars, d + 1, CharClass::Digit);
    if !(e - d >= 2 && e - d <= 3 && e < len && len - e > 6) {
        return None;
    }
    if chars[e] == ',' && chars[e + 1] == ' ' && is_in_class(CharClass::Digit, chars[e + 2])
        && is_in_class(CharClass::Digit, chars[e + 3]) && is_in_class(CharClass::Digit, chars[e + 4])
        && is_in_class(CharClass::Digit, chars[e + 5]) && chars[e + 6] == ')' {
        Some(e + 6)
    } else {
        None
    }
}

/// Where the captured date lies when the release sentence starts at `i`.
fn capture(chars: &Vec<char>, i: usize, opening: &Vec<char>, closing: &Vec<char>) -> (span: Option<(usize, usize)>)
    requires
        i <= chars@.len(),
        opening@ == opening_words(),
        closing@ == closing_words(),
    ensures
        match span {
            Some((c, e)) => capture_at(chars@, i as int) == Some((c as int, e as int)),
            None => capture_at(chars@, i as int) is None,
        },
{
    let n = chars.len();
    if !holds_word_at(chars, i, opening) {
        return None;
    }
    assert(i + opening@.len() <= n);
    let a = i + opening.len();
    let b = scan_run(chars, a, CharClass::WhiteSpace);
    if !holds_word_at(chars, b, closing) {
        return None;
    }
    assert(b + closing@.len() <= n);
    let c = b + closing.len();
    match date_end(chars, c) {
        Some(e) => Some((c, e)),
        None => None,
    }
}

/// The date that the release sentence of `text` announces: the capture of its first match.
pub fn find_release_date(text: &str) -> (date: Option<String>)
    ensures
        match date {
            Some(d) => release_date_text(text@) == Some(d@),
            None => release_date_text(text@) is None,
        },
{
    let chars = chars_of(text);
    let opening = chars_of("(Alternatively, this item will become freely");
    let closing = chars_of("available on ");
    let ghost s = chars@;
    let mut i: usize = 0;
    while i <= chars.len()
        invariant
            s == chars@,
            s == text@,
            opening@ == opening_words(),
            closing@ == closing_words(),
            0 <= i <= s.len() + 1,
            first_capture_from(s, 0) == first_capture_from(s, i as int),
        decreases s.len() + 1 - i,
    {
        match capture(&chars, i, &opening, &closing) {
            Some((c, e)) => {
                proof {
                    lemma_capture_within(s, i as int);
                }
                let date = text.substring_char(c, e).to_owned();
                return Some(date);
            },
            None => {},
        }
        if i == chars.len() {
            assert(first_capture_from(s, i + 1) is None);
            return None;
        }
        i = i + 1;
    }
    None
}

/// A capture lies within the text.
pub proof fn lemma_capture_within(s: Seq<char>, i: int)
    ensures
        capture_at(s, i) matches Some((c, e)) ==> 0 <= c <= e <= s.len(),
{
    let a = i + opening_words().len();
    let b = run_end(s, a, CharClass::WhiteSpace);
    let c = b + closing_words().len();
    if holds_at(s, i, opening_words()) && holds_at(s, b, closing_words()) {
        lemma_run_end(s, a, CharClass::WhiteSpace);
        if c >= 0 {
            lemma_run_end(s, c + 1, CharClass::Lower);
            let d = run_end(s, c + 1, CharClass::Lower);
            if d + 1 >= 0 {
                lemma_run_end(s, d + 1, CharClass::Digit);
            }
        }
    }
}

/// The date that [`release_date_text`] finds is the capture of the first position where
/// the release sentence starts; where it finds none, the sentence starts nowhere.
pub proof fn lemma_release_date_is_first_match(s: Seq<char>)
    ensures
        release_date_text(s) is None ==> forall|i: int| 0 <= i <= s.len() ==> #[trigger] capture_at(s, i) is None,
        release_date_text(s) matches Some(date) ==> exists|i: int| {
            &&& 0 <= i <= s.len()
            &&& #[trigger] capture_at(s, i) matches Some((c, e))
            &&& date == s.subrange(c, e)
            &&& forall|j: int| 0 <= j < i ==> capture_at(s, j) is None
        },
{
    lemma_first_capture(s, 0);
}

proof fn lemma_first_capture(s: Seq<char>, i: int)
    requires
        0 <= i <= s.len() + 1,
    ensures
        first_capture_from(s, i) is None ==> forall|j: int| i <= j <= s.len() ==> #[trigger] capture_at(s, j) is None,
        first_capture_from(s, i) matches Some(span) ==> exists|k: int| {
            &&& i <= k <= s.len()
            &&& #[trigger] capture_at(s, k) == Some(span)
            &&& forall|j: int| i <= j < k ==> capture_at(s, j) is None
        },
    decreases s.len() + 1 - i,
{
    if i <= s.len() {
        lemma_first_capture(s, i + 1);
        if capture_at(s, i) is Some {
            assert(capture_at(s, i) == first_capture_from(s, i));
        } else {
            if let Some(span) = first_capture_from(s, i) {
                let k = choose|k: int| {
                    &&& i + 1 <= k <= s.len()
                    &&& #[trigger] capture_at(s, k) == Some(span)
                    &&& forall|j: int| i + 1 <= j < k ==> capture_at(s, j) is None
                };
                assert(capture_at(s, k) == Some(span));
            }
        }
    }
}

/// The date that the release sentence announces ends with a space and the four digits of
/// its year.
pub proof fn lemma_release_date_shape(s: Seq<char>)
    ensures
        release_date_text(s) matches Some(date) ==> crate::dates::ends_with_four_digits(date),
{
    lemma_release_date_is_first_match(s);
    if let Some(date) = release_date_text(s) {
        let i = choose|i: int| {
            &&& 0 <= i <= s.len()
            &&& #[trigger] capture_at(s, i) matches Some((c, e))
            &&& date == s.subrange(c, e)
            &&& forall|j: int| 0 <= j < i ==> capture_at(s, j) is None
        };
        let (c, e) = capture_at(s, i)->Some_0;
        let d = run_end(s, c + 1, CharClass::Lower);
        let e0 = run_end(s, d + 1, CharClass::Digit);
        lemma_capture_within(s, i);
        assert(e == e0 + 6);
        assert(date.len() == e - c);
        assert(date[date.len() - 5] == s[e0 + 1]);
        assert forall|k: int| date.len() - 4 <= k < date.len() implies '0' <= #[trigger] date[k] <= '9' by {
            assert(date[k] == s[c + k]);
        }
    }
}

} // verus!
