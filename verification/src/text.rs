//! Text as sequences of characters: searching for a character or a phrase,
//! splitting at white space, the last segment of a path, and integers in
//! decimal digits.
//!
//! Every executable function here takes `&str` and is specified over the
//! string's view, a `Seq<char>`.

use vstd::prelude::*;
use vstd::string::*;

verus! {

/// The characters of `s`, in order.
pub fn chars_of(s: &str) -> (cs: Vec<char>)
    ensures
        cs@ == s@,
{
    let mut cs: Vec<char> = Vec::new();
    for c in it: s.chars()
        invariant
            it.seq() == s@,
            cs@ == s@.take(it.index() as int),
    {
        cs.push(c);
    }
    cs
}

/// The least index at or after `from` at which `s` holds `c`, or the length
/// of `s` if there is none.
pub open spec fn find_from(s: Seq<char>, c: char, from: int) -> int
    recommends
        0 <= from <= s.len(),
    decreases s.len() - from,
{
    if from < 0 || from >= s.len() {
        s.len() as int
    } else if s[from] == c {
        from
    } else {
        find_from(s, c, from + 1)
    }
}

/// `find_from` is the first occurrence: nothing before it matches, and it
/// matches unless it is the length.
pub proof fn lemma_find_from(s: Seq<char>, c: char, from: int)
    requires
        0 <= from <= s.len(),
    ensures
        from <= find_from(s, c, from) <= s.len(),
        forall|j: int| from <= j < find_from(s, c, from) ==> s[j] != c,
        find_from(s, c, from) < s.len() ==> s[find_from(s, c, from)] == c,
    decreases s.len() - from,
{
    if from < s.len() && s[from] != c {
        lemma_find_from(s, c, from + 1);
    }
}

/// Finds the first `c` in `cs` at or after index `from`; gives the length
/// of `cs` if there is none.
pub fn find_char(cs: &Vec<char>, c: char, from: usize) -> (at: usize)
    ensures
        at == find_from(cs@, c, from as int),
        at <= cs.len(),
        from <= cs.len() ==> from <= at,
{
    let n = cs.len();
    if from >= n {
        return n;
    }
    let mut i = from;
    while i < n && cs[i] != c
        invariant
            n == cs.len(),
            from <= i <= n,
            find_from(cs@, c, from as int) == find_from(cs@, c, i as int),
        decreases n - i,
    {
        i += 1;
    }
    i
}

/// `needle` stands in `hay` at index `i`.
pub open spec fn occurs_at(hay: Seq<char>, needle: Seq<char>, i: int) -> bool {
    0 <= i && i + needle.len() <= hay.len() && hay.subrange(i, i + needle.len()) == needle
}

/// `needle` stands somewhere in `hay`. The empty phrase stands in every text.
pub open spec fn contains_text(hay: Seq<char>, needle: Seq<char>) -> bool {
    exists|i: int| occurs_at(hay, needle, i)
}

fn matches_at(hay: &Vec<char>, needle: &Vec<char>, i: usize) -> (hit: bool)
    requires
        i + needle.len() <= hay.len(),
    ensures
        hit == occurs_at(hay@, needle@, i as int),
{
    let m = needle.len();
    let mut k: usize = 0;
    while k < m && hay[i + k] == needle[k]
        invariant
            m == needle.len(),
            i + m <= hay.len(),
            k <= m,
            forall|j: int| 0 <= j < k ==> hay@[i + j] == needle@[j],
        decreases m - k,
    {
        k += 1;
    }
    proof {
        if k == m {
            assert(hay@.subrange(i as int, i + m) =~= needle@);
        }
    }
    k == m
}

/// Tells whether the phrase `needle` stands somewhere in `hay`.
pub fn contains(hay: &str, needle: &str) -> (found: bool)
    ensures
        found == contains_text(hay@, needle@),
{
    let h = chars_of(hay);
    let n = chars_of(needle);
    if n.len() > h.len() {
        return false;
    }
    let last = h.len() - n.len();
    let mut i: usize = 0;
    while i < last
        invariant
            last == h.len() - n.len(),
            h@ == hay@,
            n@ == needle@,
            i <= last,
            forall|j: int| 0 <= j < i ==> !occurs_at(hay@, needle@, j),
        decreases last - i,
    {
        if matches_at(&h, &n, i) {
            return true;
        }
        i += 1;
    }
    matches_at(&h, &n, last)
}

/// White space as Unicode defines it (the property `White_Space`).
pub open spec fn is_whitespace(c: char) -> bool {
    let u = c as u32;
    ||| 0x09 <= u <= 0x0D
    ||| u == 0x20
    ||| u == 0x85
    ||| u == 0xA0
    ||| u == 0x1680
    ||| 0x2000 <= u <= 0x200A
    ||| u == 0x2028
    ||| u == 0x2029
    ||| u == 0x202F
    ||| u == 0x205F
    ||| u == 0x3000
}

/// Tells whether `c` is white space.
pub fn whitespace(c: char) -> (yes: bool)
    ensures
        yes == is_whitespace(c),
{
    let u: u32 = c as u32;
    (0x09 <= u && u <= 0x0D) || u == 0x20 || u == 0x85 || u == 0xA0 || u == 0x1680 || (0x2000 <= u
        && u <= 0x200A) || u == 0x2028 || u == 0x2029 || u == 0x202F || u == 0x205F || u == 0x3000
}

/// The number of characters from index `from` on up to, not including, the
/// next white space or the end of `s`.
pub open spec fn word_len(s: Seq<char>, from: int) -> nat
    decreases s.len() - from,
{
    if from < 0 || from >= s.len() || is_whitespace(s[from]) {
        0
    } else {
        1 + word_len(s, from + 1)
    }
}

/// The tokens of `s` that begin at or after index `from`, which is not
/// inside a token.
pub open spec fn tokens_from(s: Seq<char>, from: int) -> Seq<Seq<char>>
    decreases s.len() - from,
{
    if from < 0 || from >= s.len() {
        Seq::empty()
    } else if is_whitespace(s[from]) {
        tokens_from(s, from + 1)
    } else {
        let end = from + 1 + word_len(s, from + 1);
        proof {
            lemma_word_len_bound(s, from + 1);
        }
        seq![s.subrange(from, end)] + tokens_from(s, end)
    }
}

/// The tokens of `s`: its maximal stretches free of white space, in order.
pub open spec fn tokens(s: Seq<char>) -> Seq<Seq<char>> {
    tokens_from(s, 0)
}

/// A word that starts inside `s` ends inside `s`.
pub proof fn lemma_word_len_bound(s: Seq<char>, from: int)
    requires
        0 <= from <= s.len(),
    ensures
        from + word_len(s, from) <= s.len(),
        forall|j: int| from <= j < from + word_len(s, from) ==> !is_whitespace(s[j]),
        from + word_len(s, from) < s.len() ==> is_whitespace(s[from + word_len(s, from)]),
    decreases s.len() - from,
{
    if from < s.len() && !is_whitespace(s[from]) {
        lemma_word_len_bound(s, from + 1);
    }
}

/// Every token is a word: it is not empty and holds no white space.
pub proof fn lemma_tokens_are_words(s: Seq<char>, from: int, k: int)
    requires
        0 <= from,
        0 <= k < tokens_from(s, from).len(),
    ensures
        tokens_from(s, from)[k].len() > 0,
        forall|j: int|
            0 <= j < tokens_from(s, from)[k].len() ==> !is_whitespace(
                #[trigger] tokens_from(s, from)[k][j],
            ),
    decreases s.len() - from,
{
    if from < s.len() {
        if is_whitespace(s[from]) {
            lemma_tokens_are_words(s, from + 1, k);
        } else {
            let end = from + 1 + word_len(s, from + 1);
            lemma_word_len_bound(s, from + 1);
            if k > 0 {
                lemma_tokens_are_words(s, end, k - 1);
            }
        }
    }
}

/// A text has no token exactly when it holds nothing but white space.
pub proof fn lemma_no_token_means_blank(s: Seq<char>, from: int)
    requires
        0 <= from,
    ensures
        tokens_from(s, from).len() == 0 <==> forall|j: int|
            from <= j < s.len() ==> is_whitespace(#[trigger] s[j]),
    decreases s.len() - from,
{
    if from < s.len() && is_whitespace(s[from]) {
        lemma_no_token_means_blank(s, from + 1);
    }
}

/// The views of the strings of `v`, in order.
pub open spec fn texts(v: Seq<String>) -> Seq<Seq<char>> {
    Seq::new(v.len(), |i: int| v[i]@)
}

/// Splits `s` at white space into its tokens.
pub fn split_tokens(s: &str) -> (toks: Vec<String>)
    ensures
        texts(toks@) == tokens(s@),
{
    let cs = chars_of(s);
    let n = cs.len();
    let mut toks: Vec<String> = Vec::new();
    let mut i: usize = 0;
    while i < n
        invariant
            n == cs.len(),
            cs@ == s@,
            i <= n,
            texts(toks@) + tokens_from(s@, i as int) == tokens(s@),
        decreases n - i,
    {
        if whitespace(cs[i]) {
            i += 1;
        } else {
            let start = i;
            while i < n && !whitespace(cs[i])
                invariant
                    n == cs.len(),
                    cs@ == s@,
                    start <= i <= n,
                    word_len(s@, start as int) == (i - start) + word_len(s@, i as int),
                decreases n - i,
            {
                i += 1;
            }
            let word = s.substring_char(start, i);
            toks.push(String::from_str(word));
        }
    }
    toks
}

/// The length of what is left of the first `end` characters of `p` once
/// the `/` at their end are taken off.
pub open spec fn segment_end(p: Seq<char>, end: int) -> int
    decreases end,
{
    if end <= 0 || end > p.len() {
        0
    } else if p[end - 1] != '/' {
        end
    } else {
        segment_end(p, end - 1)
    }
}

/// The index at which the stretch without `/` that ends before index `end`
/// of `p` begins.
pub open spec fn segment_start(p: Seq<char>, end: int) -> int
    decreases end,
{
    if end <= 0 || end > p.len() {
        0
    } else if p[end - 1] == '/' {
        end
    } else {
        segment_start(p, end - 1)
    }
}

/// The last segment of the `/`-separated path `p`: its last stretch
/// without `/` that is not empty. A `/` at the end of the path does not
/// count. Empty where `p` holds nothing but `/`.
pub open spec fn last_segment(p: Seq<char>) -> Seq<char> {
    let end = segment_end(p, p.len() as int);
    p.subrange(segment_start(p, end), end)
}

/// The last segment lies between a `/`, or the start of the path, and a
/// run of `/` that reaches to the end of the path, or that end; it holds no
/// `/`; and it is empty only where the path holds nothing but `/`.
pub proof fn lemma_last_segment(p: Seq<char>)
    ensures
        ({
            let end = segment_end(p, p.len() as int);
            let start = segment_start(p, end);
            &&& 0 <= start <= end <= p.len()
            &&& forall|j: int| end <= j < p.len() ==> p[j] == '/'
            &&& forall|j: int| start <= j < end ==> p[j] != '/'
            &&& start > 0 ==> p[start - 1] == '/'
            &&& start == end <==> forall|j: int| 0 <= j < p.len() ==> p[j] == '/'
        }),
{
    lemma_segment_end(p, p.len() as int);
    lemma_segment_start(p, segment_end(p, p.len() as int));
}

proof fn lemma_segment_end(p: Seq<char>, end: int)
    requires
        0 <= end <= p.len(),
    ensures
        0 <= segment_end(p, end) <= end,
        forall|j: int| segment_end(p, end) <= j < end ==> p[j] == '/',
        segment_end(p, end) > 0 ==> p[segment_end(p, end) - 1] != '/',
    decreases end,
{
    if end > 0 && p[end - 1] == '/' {
        lemma_segment_end(p, end - 1);
    }
}

proof fn lemma_segment_start(p: Seq<char>, end: int)
    requires
        0 <= end <= p.len(),
    ensures
        0 <= segment_start(p, end) <= end,
        forall|j: int| segment_start(p, end) <= j < end ==> p[j] != '/',
        segment_start(p, end) > 0 ==> p[segment_start(p, end) - 1] == '/',
    decreases end,
{
    if end > 0 && p[end - 1] != '/' {
        lemma_segment_start(p, end - 1);
    }
}

/// The last segment of the `/`-separated path `p`.
pub fn last_path_segment(p: &str) -> (seg: String)
    ensures
        seg@ == last_segment(p@),
{
    let cs = chars_of(p);
    let n = cs.len();
    let mut end = n;
    while end > 0 && cs[end - 1] == '/'
        invariant
            n == cs.len(),
            cs@ == p@,
            end <= n,
            segment_end(p@, n as int) == segment_end(p@, end as int),
        decreases end,
    {
        end -= 1;
    }
    let mut start = end;
    while start > 0 && cs[start - 1] != '/'
        invariant
            n == cs.len(),
            cs@ == p@,
            start <= end <= n,
            segment_start(p@, end as int) == segment_start(p@, start as int),
        decreases start,
    {
        start -= 1;
    }
    String::from_str(p.substring_char(start, end))
}

/// The decimal digit `d` as a text.
pub open spec fn digit_text(d: int) -> Seq<char>
    recommends
        0 <= d < 10,
{
    if d == 0 {
        "0"@
    } else if d == 1 {
        "1"@
    } else if d == 2 {
        "2"@
    } else if d == 3 {
        "3"@
    } else if d == 4 {
        "4"@
    } else if d == 5 {
        "5"@
    } else if d == 6 {
        "6"@
    } else if d == 7 {
        "7"@
    } else if d == 8 {
        "8"@
    } else {
        "9"@
    }
}

/// The natural number `n` in decimal digits, without leading zeros.
pub open spec fn decimal_text(n: nat) -> Seq<char>
    decreases n,
{
    if n < 10 {
        digit_text(n as int)
    } else {
        decimal_text(n / 10) + digit_text((n % 10) as int)
    }
}

/// The integer `n` in decimal digits, after a minus sign if it is negative.
pub open spec fn integer_text(n: int) -> Seq<char> {
    if n < 0 {
        "-"@ + decimal_text((-n) as nat)
    } else {
        decimal_text(n as nat)
    }
}

fn digit(d: u64) -> (text: &'static str)
    requires
        d < 10,
    ensures
        text@ == digit_text(d as int),
{
    if d == 0 {
        "0"
    } else if d == 1 {
        "1"
    } else if d == 2 {
        "2"
    } else if d == 3 {
        "3"
    } else if d == 4 {
        "4"
    } else if d == 5 {
        "5"
    } else if d == 6 {
        "6"
    } else if d == 7 {
        "7"
    } else if d == 8 {
        "8"
    } else {
        "9"
    }
}

fn append_decimal(text: &mut String, n: u64)
    ensures
        final(text)@ == old(text)@ + decimal_text(n as nat),
    decreases n,
{
    if n >= 10 {
        append_decimal(text, n / 10);
    }
    text.append(digit(n % 10));
}

/// Writes `n` in decimal digits.
pub fn integer(n: i32) -> (text: String)
    ensures
        text@ == integer_text(n as int),
{
    let wide: i64 = n as i64;
    let mut text = String::new();
    if wide < 0 {
        text.append("-");
        append_decimal(&mut text, (-wide) as u64);
    } else {
        append_decimal(&mut text, wide as u64);
    }
    text
}

} // verus!
