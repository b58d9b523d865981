//! Character-level text helpers shared by the layout and formatting logic:
//! whitespace classification, trimming, line splitting and decimal numbers.
use vstd::prelude::*;

verus! {

/// Appends one character to a string.
///
/// Calls std's `String::push`, whose documentation says it appends the
/// character to the end of the string; the contract claims exactly that and
/// is not proved here.
#[verifier::external_body]
pub(crate) fn push_char(s: &mut String, c: char)
    ensures
        final(s)@ == old(s)@.push(c),
{
    s.push(c);
}

/// The characters of `s`, in order.
pub fn chars_of(s: &str) -> (chars: Vec<char>)
    ensures
        chars@ == s@,
{
    let mut chars: Vec<char> = Vec::new();
    for c in it: s.chars()
        invariant
            it.seq() == s@,
            chars@ == it.seq().take(it.index() as int),
    {
        chars.push(c);
    }
    assert(s@.take(s@.len() as int) == s@);
    chars
}

/// A string holding `chars`.
pub fn string_from_chars(chars: &[char]) -> (s: String)
    ensures
        s@ == chars@,
{
    let mut s = String::new();
    let mut i: usize = 0;
    while i < chars.len()
        invariant
            i <= chars@.len(),
            s@ == chars@.take(i as int),
        decreases chars@.len() - i,
    {
        push_char(&mut s, chars[i]);
        assert(chars@.take(i + 1) == chars@.take(i as int).push(chars@[i as int]));
        i = i + 1;
    }
    assert(chars@.take(chars@.len() as int) == chars@);
    s
}

/// Appends the characters of `text` to `s`.
pub fn push_chars(s: &mut String, text: &str)
    ensures
        final(s)@ == old(s)@ + text@,
{
    let v = chars_of(text);
    let mut i: usize = 0;
    while i < v.len()
        invariant
            v@ == text@,
            i <= v@.len(),
            s@ == old(s)@ + text@.take(i as int),
        decreases v@.len() - i,
    {
        push_char(s, v[i]);
        assert(text@.take(i + 1) == text@.take(i as int).push(text@[i as int]));
        i = i + 1;
    }
    assert(text@.take(v@.len() as int) == text@);
}

/// Whether `c` is a Unicode `White_Space` character (what `char::is_whitespace`
/// and `str::trim` treat as whitespace).
pub open spec fn is_whitespace(c: char) -> bool {
    let u = c as u32;
    (0x09 <= u <= 0x0d) || u == 0x20 || u == 0x85 || u == 0xa0 || u == 0x1680 || (0x2000 <= u
        <= 0x200a) || u == 0x2028 || u == 0x2029 || u == 0x202f || u == 0x205f || u == 0x3000
}

/// Whether `c` is a Unicode `White_Space` character.
pub fn char_is_whitespace(c: char) -> (ws: bool)
    ensures
        ws == is_whitespace(c),
{
    let u = c as u32;
    (0x09 <= u && u <= 0x0d) || u == 0x20 || u == 0x85 || u == 0xa0 || u == 0x1680 || (0x2000 <= u
        && u <= 0x200a) || u == 0x2028 || u == 0x2029 || u == 0x202f || u == 0x205f || u == 0x3000
}

/// Whether every character of `s` is whitespace (so `s.trim()` is empty).
pub open spec fn is_blank(s: Seq<char>) -> bool {
    forall|i: int| 0 <= i < s.len() ==> #[trigger] is_whitespace(s[i])
}

/// Whether `text` is empty once surrounding whitespace is trimmed.
pub fn trims_to_empty(text: &str) -> (blank: bool)
    ensures
        blank == is_blank(text@),
{
    let chars = chars_of(text);
    let mut i: usize = 0;
    while i < chars.len()
        invariant
            chars@ == text@,
            i <= chars@.len(),
            forall|k: int| 0 <= k < i ==> #[trigger] is_whitespace(chars@[k]),
        decreases chars@.len() - i,
    {
        if !char_is_whitespace(chars[i]) {
            return false;
        }
        i = i + 1;
    }
    true
}

/// Number of leading whitespace characters of `s`.
pub open spec fn leading_ws(s: Seq<char>) -> int
    decreases s.len(),
{
    if s.len() > 0 && is_whitespace(s[0]) {
        1 + leading_ws(s.drop_first())
    } else {
        0
    }
}

/// Number of trailing whitespace characters of `s`.
pub open spec fn trailing_ws(s: Seq<char>) -> int
    decreases s.len(),
{
    if s.len() > 0 && is_whitespace(s.last()) {
        1 + trailing_ws(s.drop_last())
    } else {
        0
    }
}

/// `s` without leading and trailing whitespace (`str::trim`).
pub open spec fn trimmed(s: Seq<char>) -> Seq<char> {
    let front = s.skip(leading_ws(s));
    front.take(front.len() - trailing_ws(front))
}

proof fn lemma_leading_ws(s: Seq<char>)
    ensures
        0 <= leading_ws(s) <= s.len(),
        forall|k: int| 0 <= k < leading_ws(s) ==> is_whitespace(#[trigger] s[k]),
        leading_ws(s) < s.len() ==> !is_whitespace(s[leading_ws(s)]),
    decreases s.len(),
{
    if s.len() > 0 && is_whitespace(s[0]) {
        lemma_leading_ws(s.drop_first());
        assert forall|k: int| 0 <= k < leading_ws(s) implies is_whitespace(#[trigger] s[k]) by {
            if k > 0 {
                assert(s[k] == s.drop_first()[k - 1]);
            }
        }
    }
}

proof fn lemma_trailing_ws(s: Seq<char>)
    ensures
        0 <= trailing_ws(s) <= s.len(),
        forall|k: int| s.len() - trailing_ws(s) <= k < s.len() ==> is_whitespace(#[trigger] s[k]),
        trailing_ws(s) < s.len() ==> !is_whitespace(s[s.len() - trailing_ws(s) - 1]),
    decreases s.len(),
{
    if s.len() > 0 && is_whitespace(s.last()) {
        lemma_trailing_ws(s.drop_last());
        assert forall|k: int| s.len() - trailing_ws(s) <= k < s.len() implies is_whitespace(
            #[trigger] s[k],
        ) by {
            if k < s.len() - 1 {
                assert(s[k] == s.drop_last()[k]);
            }
        }
    }
}

/// `text` with leading and trailing whitespace removed, as characters.
pub fn trim_chars(text: &str) -> (out: Vec<char>)
    ensures
        out@ == trimmed(text@),
{
    let chars = chars_of(text);
    let n = chars.len();
    proof {
        lemma_leading_ws(text@);
    }
    let mut lo: usize = 0;
    while lo < n && char_is_whitespace(chars[lo])
        invariant
            chars@ == text@,
            n == chars@.len(),
            lo <= leading_ws(text@),
            forall|k: int| 0 <= k < leading_ws(text@) ==> is_whitespace(#[trigger] text@[k]),
            leading_ws(text@) < n ==> !is_whitespace(text@[leading_ws(text@)]),
            leading_ws(text@) <= n,
        decreases n - lo,
    {
        lo = lo + 1;
    }
    let ghost front = text@.skip(lo as int);
    assert(lo == leading_ws(text@));
    proof {
        lemma_trailing_ws(front);
    }
    let mut hi: usize = n;
    while hi > lo && char_is_whitespace(chars[hi - 1])
        invariant
            chars@ == text@,
            n == chars@.len(),
            lo <= hi <= n,
            front == text@.skip(lo as int),
            n - hi <= trailing_ws(front),
            forall|k: int|
                front.len() - trailing_ws(front) <= k < front.len() ==> is_whitespace(
                    #[trigger] front[k],
                ),
            trailing_ws(front) < front.len() ==> !is_whitespace(
                front[front.len() - trailing_ws(front) - 1],
            ),
            trailing_ws(front) <= front.len(),
        decreases hi - lo,
    {
        assert(front[hi - 1 - lo] == chars@[hi - 1]);
        hi = hi - 1;
    }
    if hi > lo {
        assert(front[hi - 1 - lo] == chars@[hi - 1]);
    }
    assert(n - hi == trailing_ws(front));
    let mut out: Vec<char> = Vec::new();
    let mut i: usize = lo;
    while i < hi
        invariant
            chars@ == text@,
            lo <= i <= hi <= n,
            n == chars@.len(),
            out@ == text@.subrange(lo as int, i as int),
        decreases hi - i,
    {
        out.push(chars[i]);
        i = i + 1;
    }
    assert(trimmed(text@) == text@.subrange(lo as int, hi as int));
    out
}

/// The decimal digits of `n`, most significant first.
pub open spec fn decimal(n: nat) -> Seq<char>
    decreases n,
{
    if n < 10 {
        seq![digit_char(n)]
    } else {
        decimal(n / 10).push(digit_char(n % 10))
    }
}

/// The ASCII digit for `d` (0 through 9).
pub open spec fn digit_char(d: nat) -> char {
    ((d + 48) as u8) as char
}

/// Appends the decimal representation of `n` (as `{n}` formats it).
pub fn push_decimal(s: &mut String, n: u64)
    ensures
        final(s)@ == old(s)@ + decimal(n as nat),
    decreases n,
{
    if n >= 10 {
        push_decimal(s, n / 10);
    }
    let d: u8 = (n % 10) as u8;
    push_char(s, (d + 48) as char);
    proof {
        if n >= 10 {
            assert(old(s)@ + decimal(n as nat) == (old(s)@ + decimal((n / 10) as nat)).push(
                digit_char((n % 10) as nat),
            ));
        } else {
            assert(decimal(n as nat) == seq![digit_char(n as nat)]);
        }
    }
}

/// Length of the first line of `s`, counting its `\n` terminator if any.
pub open spec fn first_line_len(s: Seq<char>) -> int
    decreases s.len(),
{
    if s.len() == 0 {
        0
    } else if s[0] == '\n' {
        1
    } else {
        1 + first_line_len(s.drop_first())
    }
}

/// `s` split after every `\n` (`str::split_inclusive('\n')`), with no pieces
/// for empty input.
pub open spec fn split_lines(s: Seq<char>) -> Seq<Seq<char>>
    decreases s.len(),
{
    if s.len() == 0 {
        Seq::empty()
    } else {
        let k = first_line_len(s);
        if 0 < k <= s.len() {
            seq![s.take(k)].add(split_lines(s.skip(k)))
        } else {
            seq![s]
        }
    }
}

pub proof fn lemma_first_line_len(s: Seq<char>)
    ensures
        s.len() > 0 ==> 0 < first_line_len(s) <= s.len(),
        s.len() == 0 ==> first_line_len(s) == 0,
        forall|k: int| 0 <= k < first_line_len(s) - 1 ==> #[trigger] s[k] != '\n',
        first_line_len(s) > 0 && first_line_len(s) < s.len() ==> s[first_line_len(s) - 1]
            == '\n',
        first_line_len(s) > 0 && s[first_line_len(s) - 1] != '\n' ==> first_line_len(s)
            == s.len(),
    decreases s.len(),
{
    if s.len() > 0 && s[0] != '\n' {
        lemma_first_line_len(s.drop_first());
        assert forall|k: int| 0 <= k < first_line_len(s) - 1 implies #[trigger] s[k] != '\n' by {
            if k > 0 {
                assert(s[k] == s.drop_first()[k - 1]);
            }
        }
    }
}

/// Splitting into lines and concatenating the lines gives back the text.
pub proof fn lemma_split_lines_flatten(s: Seq<char>)
    ensures
        split_lines(s).flatten() == s,
    decreases s.len(),
{
    lemma_first_line_len(s);
    if s.len() > 0 {
        let k = first_line_len(s);
        lemma_split_lines_flatten(s.skip(k));
        assert(split_lines(s) == seq![s.take(k)].add(split_lines(s.skip(k))));
        assert(seq![s.take(k)].add(split_lines(s.skip(k))).flatten() == s.take(k)
            + split_lines(s.skip(k)).flatten()) by {
            lemma_flatten_prepend(s.take(k), split_lines(s.skip(k)));
        }
        assert(s.take(k) + s.skip(k) == s);
    } else {
        assert(split_lines(s) =~= Seq::<Seq<char>>::empty());
    }
}

/// Every line is non-empty, holds no line feed but possibly its last
/// character, and every line but the last ends in a line feed; only empty
/// text has no lines.
pub proof fn lemma_split_lines_shape(s: Seq<char>)
    ensures
        (s.len() == 0) <==> (split_lines(s).len() == 0),
        forall|i: int| 0 <= i < split_lines(s).len() ==> #[trigger] split_lines(s)[i].len() > 0,
        forall|i: int, k: int|
            0 <= i < split_lines(s).len() && 0 <= k < split_lines(s)[i].len() - 1 ==> #[trigger] split_lines(s)[i][k] != '\n',
        forall|i: int| 0 <= i < split_lines(s).len() - 1 ==> #[trigger] split_lines(s)[i].last() == '\n',
    decreases s.len(),
{
    lemma_first_line_len(s);
    if s.len() > 0 {
        let k = first_line_len(s);
        let rest = split_lines(s.skip(k));
        lemma_split_lines_shape(s.skip(k));
        let lines = split_lines(s);
        assert(lines == seq![s.take(k)].add(rest));
        assert(lines[0] == s.take(k));
        assert forall|i: int| 0 <= i < lines.len() implies #[trigger] lines[i].len() > 0 by {
            if i > 0 {
                assert(lines[i] == rest[i - 1]);
            }
        }
        assert forall|i: int, j: int|
            0 <= i < lines.len() && 0 <= j < lines[i].len() - 1 implies #[trigger] lines[i][j] != '\n' by {
            if i > 0 {
                assert(lines[i] == rest[i - 1]);
                assert(rest[i - 1][j] != '\n');
            } else {
                assert(lines[0][j] == s[j]);
            }
        }
        assert forall|i: int| 0 <= i < lines.len() - 1 implies #[trigger] lines[i].last() == '\n' by {
            if i > 0 {
                assert(lines[i] == rest[i - 1]);
            } else {
                assert(rest.len() > 0);
                assert(s.skip(k).len() > 0);
                assert(lines[0].last() == s[k - 1]);
            }
        }
    } else {
        assert(split_lines(s) =~= Seq::<Seq<char>>::empty());
    }
}

pub proof fn lemma_flatten_prepend(x: Seq<char>, rest: Seq<Seq<char>>)
    ensures
        seq![x].add(rest).flatten() == x + rest.flatten(),
{
    let whole = seq![x].add(rest);
    assert(whole.drop_first() == rest);
    assert(whole.first() == x);
}

/// Whether two strings hold the same characters.
pub fn str_eq(a: &str, b: &str) -> (eq: bool)
    ensures
        eq == (a@ == b@),
{
    let x = chars_of(a);
    let y = chars_of(b);
    if x.len() != y.len() {
        return false;
    }
    let mut i: usize = 0;
    while i < x.len()
        invariant
            x@ == a@,
            y@ == b@,
            x@.len() == y@.len(),
            i <= x@.len(),
            forall|k: int| 0 <= k < i ==> x@[k] == y@[k],
        decreases x@.len() - i,
    {
        if x[i] != y[i] {
            return false;
        }
        i = i + 1;
    }
    assert(x@ == y@);
    true
}

/// Number of leading characters of `s` that are not whitespace.
pub open spec fn leading_non_ws(s: Seq<char>) -> int
    decreases s.len(),
{
    if s.len() > 0 && !is_whitespace(s[0]) {
        1 + leading_non_ws(s.drop_first())
    } else {
        0
    }
}

/// The first whitespace-separated token of `s` (what
/// `split_whitespace().next()` yields), if `s` is not blank.
pub open spec fn first_token(s: Seq<char>) -> Option<Seq<char>> {
    let rest = s.skip(leading_ws(s));
    if rest.len() == 0 {
        None
    } else {
        Some(rest.take(leading_non_ws(rest)))
    }
}

proof fn lemma_leading_ws_is(s: Seq<char>, k: int)
    requires
        0 <= k <= s.len(),
        forall|j: int| 0 <= j < k ==> is_whitespace(#[trigger] s[j]),
        k < s.len() ==> !is_whitespace(s[k]),
    ensures
        leading_ws(s) == k,
    decreases k,
{
    if k > 0 {
        assert(is_whitespace(s[0]));
        let t = s.drop_first();
        assert forall|j: int| 0 <= j < k - 1 implies is_whitespace(#[trigger] t[j]) by {
            assert(t[j] == s[j + 1]);
        }
        if k - 1 < t.len() {
            assert(t[k - 1] == s[k]);
        }
        lemma_leading_ws_is(t, k - 1);
    }
}

proof fn lemma_leading_non_ws_is(s: Seq<char>, k: int)
    requires
        0 <= k <= s.len(),
        forall|j: int| 0 <= j < k ==> !is_whitespace(#[trigger] s[j]),
        k < s.len() ==> is_whitespace(s[k]),
    ensures
        leading_non_ws(s) == k,
    decreases k,
{
    if k > 0 {
        assert(!is_whitespace(s[0]));
        let t = s.drop_first();
        assert forall|j: int| 0 <= j < k - 1 implies !is_whitespace(#[trigger] t[j]) by {
            assert(t[j] == s[j + 1]);
        }
        if k - 1 < t.len() {
            assert(t[k - 1] == s[k]);
        }
        lemma_leading_non_ws_is(t, k - 1);
    }
}

/// The first whitespace-separated token of `text`, or `None` when `text`
/// is blank.
pub fn first_token_of(text: &str) -> (token: Option<String>)
    ensures
        match first_token(text@) {
            Some(t) => token matches Some(s) && s@ == t,
            None => token is None,
        },
{
    let chars = chars_of(text);
    let mut start: usize = 0;
    while start < chars.len() && char_is_whitespace(chars[start])
        invariant
            chars@ == text@,
            start <= chars@.len(),
            forall|j: int| 0 <= j < start ==> is_whitespace(#[trigger] chars@[j]),
        decreases chars@.len() - start,
    {
        start = start + 1;
    }
    proof {
        lemma_leading_ws_is(text@, start as int);
    }
    if start == chars.len() {
        return None;
    }
    let mut end: usize = start;
    while end < chars.len() && !char_is_whitespace(chars[end])
        invariant
            chars@ == text@,
            start <= end <= chars@.len(),
            forall|j: int| start <= j < end ==> !is_whitespace(#[trigger] chars@[j]),
        decreases chars@.len() - end,
    {
        end = end + 1;
    }
    let ghost rest = text@.skip(start as int);
    proof {
        assert forall|j: int| 0 <= j < end - start implies !is_whitespace(#[trigger] rest[j]) by {
            assert(rest[j] == chars@[start + j]);
        }
        if end < chars@.len() {
            assert(rest[end - start] == chars@[end as int]);
        }
        lemma_leading_non_ws_is(rest, end - start);
    }
    let mut token = String::new();
    let mut i: usize = start;
    while i < end
        invariant
            chars@ == text@,
            start <= i <= end <= chars@.len(),
            token@ == text@.subrange(start as int, i as int),
        decreases end - i,
    {
        push_char(&mut token, chars[i]);
        proof {
            assert(token@ =~= text@.subrange(start as int, (i + 1) as int));
        }
        i = i + 1;
    }
    proof {
        assert(rest.take(end - start) =~= text@.subrange(start as int, end as int));
    }
    Some(token)
}

} // verus!
