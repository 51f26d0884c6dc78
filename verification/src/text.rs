//! Character-level text functions: white space, words, trimming, splitting
//! and lines, each stated over `Seq<char>` and computed on `&str`.

use vstd::prelude::*;
use vstd::string::*;
use vstd::utf8::{encode_scalar, encode_utf8};

verus! {

/// The views of a sequence of strings.
pub open spec fn texts(v: Seq<String>) -> Seq<Seq<char>> {
    Seq::new(v.len(), |k: int| v[k]@)
}

/// The views of a longer sequence are those of the shorter one and that of
/// what was added.
pub proof fn lemma_texts_push(v: Seq<String>, w: String)
    ensures
        texts(v.push(w)) == texts(v).push(w@),
{
    assert(texts(v.push(w)) =~= texts(v).push(w@));
}

/// The views of two sequences in a row are the views of the first and then
/// those of the second.
pub proof fn lemma_texts_add(a: Seq<String>, b: Seq<String>)
    ensures
        texts(a + b) == texts(a) + texts(b),
{
    assert(texts(a + b) =~= texts(a) + texts(b));
}

/// Moves the strings of `more` to the end of `out`.
pub fn push_all(out: &mut Vec<String>, more: Vec<String>)
    ensures
        texts(final(out)@) == texts(old(out)@) + texts(more@),
{
    let mut more = more;
    proof {
        lemma_texts_add(out@, more@);
    }
    out.append(&mut more);
}

/// The characters of `s`, in order.
pub fn chars_of(s: &str) -> (v: Vec<char>)
    ensures
        v@ == s@,
{
    let mut v: Vec<char> = Vec::new();
    for c in it: s.chars()
        invariant
            it.seq() == s@,
            v@ == it.seq().take(it.index()),
    {
        v.push(c);
    }
    v
}

/// The characters of `s` from position `from` up to, not including, `to`.
pub fn piece(s: &str, from: usize, to: usize) -> (r: String)
    requires
        from <= to <= s@.len(),
    ensures
        r@ == s@.subrange(from as int, to as int),
{
    s.substring_char(from, to).to_owned()
}

/// Whether `c` has the Unicode property White_Space.
pub open spec fn is_white_space(c: char) -> bool {
    ||| '\u{9}' <= c <= '\u{d}'
    ||| c == ' '
    ||| c == '\u{85}'
    ||| c == '\u{a0}'
    ||| c == '\u{1680}'
    ||| '\u{2000}' <= c <= '\u{200a}'
    ||| c == '\u{2028}'
    ||| c == '\u{2029}'
    ||| c == '\u{202f}'
    ||| c == '\u{205f}'
    ||| c == '\u{3000}'
}

/// Whether `c` is white space.
pub fn white_space(c: char) -> (b: bool)
    ensures
        b == is_white_space(c),
{
    (c >= '\u{9}' && c <= '\u{d}') || c == ' ' || c == '\u{85}' || c == '\u{a0}' || c == '\u{1680}'
        || (c >= '\u{2000}' && c <= '\u{200a}') || c == '\u{2028}' || c == '\u{2029}' || c
        == '\u{202f}' || c == '\u{205f}' || c == '\u{3000}'
}

/// How many characters from position `i` on are not white space, up to the
/// first that is.
pub open spec fn word_len(s: Seq<char>, i: int) -> nat
    decreases s.len() - i,
{
    if 0 <= i < s.len() && !is_white_space(s[i]) {
        1 + word_len(s, i + 1)
    } else {
        0
    }
}

/// A run of characters that are not white space ends within the text.
pub proof fn lemma_word_len_bound(s: Seq<char>, i: int)
    requires
        0 <= i <= s.len(),
    ensures
        i + word_len(s, i) <= s.len(),
    decreases s.len() - i,
{
    if i < s.len() && !is_white_space(s[i]) {
        lemma_word_len_bound(s, i + 1);
    }
}

/// The words of `s` that begin at position `i` or later: the maximal runs of
/// characters that are not white space.
pub open spec fn words_from(s: Seq<char>, i: int) -> Seq<Seq<char>>
    decreases s.len() - i,
{
    if i < 0 || i >= s.len() {
        Seq::empty()
    } else if is_white_space(s[i]) {
        words_from(s, i + 1)
    } else {
        let j = i + word_len(s, i);
        proof {
            lemma_word_len_bound(s, i);
        }
        seq![s.subrange(i, j)] + words_from(s, j)
    }
}

/// The words of `s`: what is left when `s` is cut at white space and the
/// empty pieces are dropped.
pub open spec fn words(s: Seq<char>) -> Seq<Seq<char>> {
    words_from(s, 0)
}

/// Cuts `s` at white space into its words.
pub fn split_words(s: &str) -> (out: Vec<String>)
    ensures
        texts(out@) == words(s@),
{
    let cs = chars_of(s);
    let n = cs.len();
    let mut out: Vec<String> = Vec::new();
    let mut i: usize = 0;
    while i < n
        invariant
            i <= n,
            n == cs.len(),
            cs@ == s@,
            words(s@) == texts(out@) + words_from(s@, i as int),
        decreases n - i,
    {
        if white_space(cs[i]) {
            i = i + 1;
        } else {
            let mut j: usize = i + 1;
            while j < n && !white_space(cs[j])
                invariant
                    i < j <= n,
                    n == cs.len(),
                    cs@ == s@,
                    word_len(s@, i as int) == (j - i) + word_len(s@, j as int),
                decreases n - j,
            {
                j = j + 1;
            }
            let w = piece(s, i, j);
            proof {
                assert(texts(out@.push(w)) =~= texts(out@).push(w@));
            }
            out.push(w);
            i = j;
        }
    }
    out
}


/// Whether `w` can be a word: it is not empty and holds no white space.
pub open spec fn is_word(w: Seq<char>) -> bool {
    w.len() > 0 && forall|k: int| 0 <= k < w.len() ==> !is_white_space(#[trigger] w[k])
}

proof fn lemma_word_run(s: Seq<char>, i: int)
    requires
        0 <= i <= s.len(),
    ensures
        forall|k: int| i <= k < i + word_len(s, i) ==> !is_white_space(#[trigger] s[k]),
    decreases s.len() - i,
{
    if i < s.len() && !is_white_space(s[i]) {
        lemma_word_run(s, i + 1);
    }
}

/// Each of the words of a text is a word, and so is never empty.
pub proof fn lemma_words_are_words(s: Seq<char>, i: int)
    requires
        0 <= i,
    ensures
        forall|k: int| 0 <= k < words_from(s, i).len() ==> is_word(#[trigger] words_from(s, i)[k]),
    decreases s.len() - i,
{
    if i < s.len() {
        if is_white_space(s[i]) {
            lemma_words_are_words(s, i + 1);
            assert(words_from(s, i) == words_from(s, i + 1));
        } else {
            let j = i + word_len(s, i);
            lemma_word_len_bound(s, i);
            lemma_word_run(s, i);
            lemma_words_are_words(s, j);
            assert(is_word(s.subrange(i, j)));
            assert forall|k: int| 0 <= k < words_from(s, i).len() implies is_word(
                #[trigger] words_from(s, i)[k],
            ) by {
                if k > 0 {
                    assert(words_from(s, i)[k] == words_from(s, j)[k - 1]);
                } else {
                    assert(words_from(s, i)[0] == s.subrange(i, j));
                }
            }
        }
    }
}

/// How many characters from position `i` on are white space, up to the first
/// that is not.
pub open spec fn lead_spaces(s: Seq<char>, i: int) -> nat
    decreases s.len() - i,
{
    if 0 <= i < s.len() && is_white_space(s[i]) {
        1 + lead_spaces(s, i + 1)
    } else {
        0
    }
}

/// How many characters before position `j` are white space, back to the last
/// that is not.
pub open spec fn trail_spaces(s: Seq<char>, j: int) -> nat
    decreases j,
{
    if 0 < j <= s.len() && is_white_space(s[j - 1]) {
        1 + trail_spaces(s, j - 1)
    } else {
        0
    }
}

/// `s` without the white space at its two ends.
pub open spec fn trimmed(s: Seq<char>) -> Seq<char> {
    let a = lead_spaces(s, 0);
    if a >= s.len() {
        Seq::empty()
    } else {
        s.subrange(a as int, s.len() - trail_spaces(s, s.len() as int))
    }
}

proof fn lemma_lead_spaces(s: Seq<char>, i: int)
    requires
        0 <= i <= s.len(),
    ensures
        i + lead_spaces(s, i) <= s.len(),
        i + lead_spaces(s, i) < s.len() ==> !is_white_space(s[i + lead_spaces(s, i)]),
    decreases s.len() - i,
{
    if i < s.len() && is_white_space(s[i]) {
        lemma_lead_spaces(s, i + 1);
    }
}

proof fn lemma_trail_spaces(s: Seq<char>, j: int, a: int)
    requires
        0 <= a < j <= s.len(),
        !is_white_space(s[a]),
    ensures
        a < j - trail_spaces(s, j),
        !is_white_space(s[j - trail_spaces(s, j) - 1]),
    decreases j,
{
    if is_white_space(s[j - 1]) {
        lemma_trail_spaces(s, j - 1, a);
    }
}

/// What is left of a text without the white space at its ends is empty, or
/// begins and ends with characters that are not white space.
pub proof fn lemma_trimmed_ends(s: Seq<char>)
    ensures
        trimmed(s).len() == 0 || (!is_white_space(trimmed(s).first()) && !is_white_space(
            trimmed(s).last(),
        )),
{
    let a = lead_spaces(s, 0) as int;
    lemma_lead_spaces(s, 0);
    if a < s.len() {
        lemma_trail_spaces(s, s.len() as int, a);
    }
}

/// Removes the white space at the two ends of `s`.
pub fn trim(s: &str) -> (r: String)
    ensures
        r@ == trimmed(s@),
{
    let cs = chars_of(s);
    let n = cs.len();
    let mut a: usize = 0;
    while a < n && white_space(cs[a])
        invariant
            a <= n,
            n == cs.len(),
            cs@ == s@,
            lead_spaces(s@, 0) == a + lead_spaces(s@, a as int),
        decreases n - a,
    {
        a = a + 1;
    }
    if a >= n {
        return piece(s, 0, 0);
    }
    let mut b: usize = n;
    while white_space(cs[b - 1])
        invariant
            a < b <= n,
            n == cs.len(),
            cs@ == s@,
            !is_white_space(s@[a as int]),
            trail_spaces(s@, n as int) == (n - b) + trail_spaces(s@, b as int),
        decreases b,
    {
        b = b - 1;
    }
    piece(s, a, b)
}

/// How many characters from position `i` on come before the next two
/// hyphens in a row, or before the end where there are none.
pub open spec fn dash_gap(s: Seq<char>, i: int) -> nat
    decreases s.len() - i,
{
    if i < 0 || i >= s.len() {
        0
    } else if i + 1 < s.len() && s[i] == '-' && s[i + 1] == '-' {
        0
    } else {
        1 + dash_gap(s, i + 1)
    }
}

/// What comes before the next two hyphens ends within the text, and where
/// it ends before the end of the text, two hyphens follow.
pub proof fn lemma_dash_gap_bound(s: Seq<char>, i: int)
    requires
        0 <= i <= s.len(),
    ensures
        i + dash_gap(s, i) <= s.len(),
        i + dash_gap(s, i) < s.len() ==> i + dash_gap(s, i) + 2 <= s.len(),
        i + dash_gap(s, i) < s.len() ==> s[i + dash_gap(s, i)] == '-' && s[i + dash_gap(s, i) + 1]
            == '-',
    decreases s.len() - i,
{
    if i < s.len() && !(i + 1 < s.len() && s[i] == '-' && s[i + 1] == '-') {
        lemma_dash_gap_bound(s, i + 1);
    }
}

/// The pieces of `s` from position `i` on, cut at each two hyphens in a
/// row, taken from the left.
pub open spec fn dash_parts_from(s: Seq<char>, i: int) -> Seq<Seq<char>>
    decreases s.len() - i,
{
    if i < 0 || i > s.len() {
        Seq::empty()
    } else {
        let k = i + dash_gap(s, i);
        proof {
            lemma_dash_gap_bound(s, i);
        }
        if k >= s.len() {
            seq![s.subrange(i, s.len() as int)]
        } else {
            seq![s.subrange(i, k)] + dash_parts_from(s, k + 2)
        }
    }
}

/// The pieces of `s` between its separators `--`. There is always at least
/// one; a piece may be empty.
pub open spec fn dash_parts(s: Seq<char>) -> Seq<Seq<char>> {
    dash_parts_from(s, 0)
}

/// The texts `parts` in a row with `--` between each two.
pub open spec fn joined_by_dashes(parts: Seq<Seq<char>>) -> Seq<char>
    decreases parts.len(),
{
    if parts.len() == 0 {
        Seq::empty()
    } else if parts.len() == 1 {
        parts[0]
    } else {
        parts[0] + seq!['-', '-'] + joined_by_dashes(parts.drop_first())
    }
}

proof fn lemma_dash_parts_join_from(s: Seq<char>, i: int)
    requires
        0 <= i <= s.len(),
    ensures
        dash_parts_from(s, i).len() >= 1,
        joined_by_dashes(dash_parts_from(s, i)) == s.skip(i),
    decreases s.len() - i,
{
    let k = i + dash_gap(s, i);
    lemma_dash_gap_bound(s, i);
    if k >= s.len() {
        assert(s.subrange(i, s.len() as int) =~= s.skip(i));
    } else {
        lemma_dash_parts_join_from(s, k + 2);
        let rest = dash_parts_from(s, k + 2);
        let all = dash_parts_from(s, i);
        assert(all.drop_first() =~= rest);
        assert(s.subrange(i, k) + seq!['-', '-'] + s.skip(k + 2) =~= s.skip(i));
    }
}

/// The pieces of a text, put together again with `--` between each two,
/// are the text.
pub proof fn lemma_dash_parts_join(s: Seq<char>)
    ensures
        dash_parts(s).len() >= 1,
        joined_by_dashes(dash_parts(s)) == s,
{
    lemma_dash_parts_join_from(s, 0);
    assert(s.skip(0) =~= s);
}

/// Cuts `s` at each `--`.
pub fn split_dashes(s: &str) -> (out: Vec<String>)
    ensures
        texts(out@) == dash_parts(s@),
        out@.len() >= 1,
{
    let cs = chars_of(s);
    let n = cs.len();
    let mut out: Vec<String> = Vec::new();
    let mut i: usize = 0;
    loop
        invariant_except_break
            i <= n,
            n == cs.len(),
            cs@ == s@,
            dash_parts(s@) == texts(out@) + dash_parts_from(s@, i as int),
        ensures
            texts(out@) == dash_parts(s@),
            out@.len() >= 1,
        decreases n - i,
    {
        let mut k: usize = i;
        while k < n && !(k + 1 < n && cs[k] == '-' && cs[k + 1] == '-')
            invariant
                i <= k <= n,
                n == cs.len(),
                cs@ == s@,
                dash_gap(s@, i as int) == (k - i) + dash_gap(s@, k as int),
            decreases n - k,
        {
            k = k + 1;
        }
        proof {
            lemma_dash_gap_bound(s@, i as int);
        }
        if k >= n {
            let w = piece(s, i, n);
            proof {
                assert(texts(out@.push(w)) =~= texts(out@).push(w@));
            }
            out.push(w);
            break;
        }
        let w = piece(s, i, k);
        proof {
            assert(texts(out@.push(w)) =~= texts(out@).push(w@));
        }
        out.push(w);
        i = k + 2;
    }
    out
}

/// How many characters from position `i` on come before the next line feed,
/// or before the end where there is none.
pub open spec fn line_len(s: Seq<char>, i: int) -> nat
    decreases s.len() - i,
{
    if 0 <= i < s.len() && s[i] != '\n' {
        1 + line_len(s, i + 1)
    } else {
        0
    }
}

/// What comes before the next line feed ends within the text.
pub proof fn lemma_line_len_bound(s: Seq<char>, i: int)
    requires
        0 <= i <= s.len(),
    ensures
        i + line_len(s, i) <= s.len(),
    decreases s.len() - i,
{
    if i < s.len() && s[i] != '\n' {
        lemma_line_len_bound(s, i + 1);
    }
}

/// The lines of `s` from position `i` on. A line ends at a line feed; the
/// line feed, and a carriage return right before it, are no part of the line.
/// What follows the last line feed is a line only if it is not empty.
pub open spec fn lines_from(s: Seq<char>, i: int) -> Seq<Seq<char>>
    decreases s.len() - i,
{
    if i < 0 || i >= s.len() {
        Seq::empty()
    } else {
        let k = i + line_len(s, i);
        proof {
            lemma_line_len_bound(s, i);
        }
        if k >= s.len() {
            seq![s.subrange(i, s.len() as int)]
        } else if k > i && s[k - 1] == '\r' {
            seq![s.subrange(i, k - 1)] + lines_from(s, k + 1)
        } else {
            seq![s.subrange(i, k)] + lines_from(s, k + 1)
        }
    }
}

/// The lines of `s`.
pub open spec fn lines(s: Seq<char>) -> Seq<Seq<char>> {
    lines_from(s, 0)
}

/// Cuts `s` into its lines.
pub fn split_lines(s: &str) -> (out: Vec<String>)
    ensures
        texts(out@) == lines(s@),
{
    let cs = chars_of(s);
    let n = cs.len();
    let mut out: Vec<String> = Vec::new();
    let mut i: usize = 0;
    while i < n
        invariant
            i <= n,
            n == cs.len(),
            cs@ == s@,
            lines(s@) == texts(out@) + lines_from(s@, i as int),
        decreases n - i,
    {
        let mut k: usize = i;
        while k < n && cs[k] != '\n'
            invariant
                i <= k <= n,
                n == cs.len(),
                cs@ == s@,
                line_len(s@, i as int) == (k - i) + line_len(s@, k as int),
            decreases n - k,
        {
            k = k + 1;
        }
        let w = if k < n && k > i && cs[k - 1] == '\r' {
            piece(s, i, k - 1)
        } else {
            piece(s, i, k)
        };
        proof {
            assert(texts(out@.push(w)) =~= texts(out@).push(w@));
        }
        out.push(w);
        if k >= n {
            i = n;
        } else {
            i = k + 1;
        }
    }
    out
}

/// Whether `s` begins with `p`.
pub fn starts_with(s: &str, p: &str) -> (b: bool)
    ensures
        b == p@.is_prefix_of(s@),
{
    let cs = chars_of(s);
    let cp = chars_of(p);
    if cp.len() > cs.len() {
        return false;
    }
    let mut i: usize = 0;
    while i < cp.len()
        invariant
            i <= cp.len() <= cs.len(),
            cs@ == s@,
            cp@ == p@,
            forall|k: int| 0 <= k < i ==> s@[k] == p@[k],
        decreases cp.len() - i,
    {
        if cs[i] != cp[i] {
            assert(s@.subrange(0, p@.len() as int)[i as int] != p@[i as int]);
            return false;
        }
        i = i + 1;
    }
    assert(p@ =~= s@.subrange(0, p@.len() as int));
    true
}


/// `n` blanks.
pub open spec fn spaces(n: nat) -> Seq<char> {
    Seq::new(n, |k: int| ' ')
}

/// Appends `n` blanks to `out`.
pub fn push_spaces(out: &mut String, n: usize)
    ensures
        final(out)@ == old(out)@ + spaces(n as nat),
{
    let mut k: usize = 0;
    while k < n
        invariant
            k <= n,
            out@ == old(out)@ + spaces(k as nat),
        decreases n - k,
    {
        proof {
            reveal_strlit(" ");
            assert(spaces(k as nat) + " "@ =~= spaces((k + 1) as nat));
        }
        out.append(" ");
        k = k + 1;
    }
}

/// The decimal digit for `d`, which is below ten.
pub open spec fn digit(d: nat) -> char {
    if d == 0 {
        '0'
    } else if d == 1 {
        '1'
    } else if d == 2 {
        '2'
    } else if d == 3 {
        '3'
    } else if d == 4 {
        '4'
    } else if d == 5 {
        '5'
    } else if d == 6 {
        '6'
    } else if d == 7 {
        '7'
    } else if d == 8 {
        '8'
    } else {
        '9'
    }
}

/// `n` written in decimal digits, without a sign and without leading zeros.
pub open spec fn decimal(n: nat) -> Seq<char>
    decreases n,
{
    if n < 10 {
        seq![digit(n)]
    } else {
        decimal(n / 10).push(digit(n % 10))
    }
}

fn digit_text(d: u64) -> (r: &'static str)
    requires
        d < 10,
    ensures
        r@ == seq![digit(d as nat)],
{
    proof {
        reveal_strlit("0");
        reveal_strlit("1");
        reveal_strlit("2");
        reveal_strlit("3");
        reveal_strlit("4");
        reveal_strlit("5");
        reveal_strlit("6");
        reveal_strlit("7");
        reveal_strlit("8");
        reveal_strlit("9");
    }
    let r = if d == 0 {
        "0"
    } else if d == 1 {
        "1"
    } else if d == 2 {
        "2"
    } else if d == 3 {
        "3"
    } else if d == 4 {
        "4"
    } else if d == 5 {
        "5"
    } else if d == 6 {
        "6"
    } else if d == 7 {
        "7"
    } else if d == 8 {
        "8"
    } else {
        "9"
    };
    assert(r@ =~= seq![digit(d as nat)]);
    r
}

/// Appends `n` in decimal digits to `out`.
pub fn push_decimal(out: &mut String, n: u64)
    ensures
        final(out)@ == old(out)@ + decimal(n as nat),
    decreases n,
{
    if n < 10 {
        out.append(digit_text(n));
    } else {
        push_decimal(out, n / 10);
        out.append(digit_text(n % 10));
        assert(out@ =~= old(out)@ + decimal(n as nat));
    }
}

/// The number of bytes that `c` takes in UTF-8.
pub open spec fn utf8_width(c: char) -> nat {
    if c <= '\u{7f}' {
        1
    } else if c <= '\u{7ff}' {
        2
    } else if c <= '\u{ffff}' {
        3
    } else {
        4
    }
}

/// The number of bytes that `s` takes in UTF-8.
pub open spec fn utf8_len(s: Seq<char>) -> nat
    decreases s.len(),
{
    if s.len() == 0 {
        0
    } else {
        utf8_len(s.drop_last()) + utf8_width(s.last())
    }
}

/// How many characters of `s` from position `i` on take no more than `room`
/// bytes together.
pub open spec fn utf8_fit(s: Seq<char>, i: int, room: int) -> nat
    decreases s.len() - i,
{
    if 0 <= i < s.len() && utf8_width(s[i]) <= room {
        1 + utf8_fit(s, i + 1, room - utf8_width(s[i]))
    } else {
        0
    }
}

/// A text takes at least one byte for each character, and a part of it
/// takes no more than the whole.
pub proof fn lemma_utf8_len_bounds(s: Seq<char>, k: int)
    requires
        0 <= k <= s.len(),
    ensures
        k <= utf8_len(s.take(k)) <= utf8_len(s),
    decreases s.len() - k,
{
    if k == s.len() {
        assert(s.take(k) =~= s);
        lemma_utf8_len_at_least(s);
    } else {
        lemma_utf8_len_bounds(s, k + 1);
        assert(s.take(k + 1).drop_last() =~= s.take(k));
        lemma_utf8_len_at_least(s.take(k));
    }
}

proof fn lemma_utf8_len_at_least(s: Seq<char>)
    ensures
        s.len() <= utf8_len(s),
    decreases s.len(),
{
    if s.len() > 0 {
        lemma_utf8_len_at_least(s.drop_last());
    }
}

proof fn lemma_encoded_width(c: char)
    ensures
        encode_scalar(c as u32).len() == utf8_width(c),
{
}

proof fn lemma_encoded_push(s: Seq<char>, c: char)
    ensures
        encode_utf8(s.push(c)).len() == encode_utf8(s).len() + utf8_width(c),
    decreases s.len(),
{
    lemma_encoded_width(c);
    if s.len() == 0 {
        assert(s.push(c).drop_first() =~= Seq::<char>::empty());
        assert(encode_utf8(s.push(c).drop_first()).len() == 0);
    } else {
        assert(s.push(c).drop_first() =~= s.drop_first().push(c));
        lemma_encoded_push(s.drop_first(), c);
    }
}

/// The number of bytes counted here is the length of the text's UTF-8
/// encoding, which is what the standard library calls the length of a
/// string.
pub proof fn lemma_utf8_len_is_encoded_len(s: Seq<char>)
    ensures
        utf8_len(s) == encode_utf8(s).len(),
    decreases s.len(),
{
    if s.len() > 0 {
        lemma_utf8_len_is_encoded_len(s.drop_last());
        lemma_encoded_push(s.drop_last(), s.last());
        assert(s.drop_last().push(s.last()) =~= s);
    }
}

fn width_of(c: char) -> (w: usize)
    ensures
        w == utf8_width(c),
{
    if c <= '\u{7f}' {
        1
    } else if c <= '\u{7ff}' {
        2
    } else if c <= '\u{ffff}' {
        3
    } else {
        4
    }
}

/// Whether `cs` takes no more than `limit` bytes in UTF-8.
pub fn fits_in(cs: &Vec<char>, limit: usize) -> (b: bool)
    requires
        limit <= usize::MAX - 4,
    ensures
        b == (utf8_len(cs@) <= limit),
{
    let n = cs.len();
    let mut total: usize = 0;
    let mut i: usize = 0;
    while i < n
        invariant
            i <= n,
            n == cs.len(),
            total <= limit <= usize::MAX - 4,
            total == utf8_len(cs@.take(i as int)),
        decreases n - i,
    {
        proof {
            assert(cs@.take(i + 1).drop_last() =~= cs@.take(i as int));
            lemma_utf8_len_bounds(cs@, i + 1);
        }
        total = total + width_of(cs[i]);
        if total > limit {
            return false;
        }
        i = i + 1;
    }
    assert(cs@.take(n as int) =~= cs@);
    true
}

/// The number of leading characters of `cs` that fit in `limit` bytes.
pub fn leading_fit(cs: &Vec<char>, limit: usize) -> (k: usize)
    ensures
        k == utf8_fit(cs@, 0, limit as int),
        k <= cs@.len(),
{
    let n = cs.len();
    let mut room: usize = limit;
    let mut i: usize = 0;
    while i < n && width_of(cs[i]) <= room
        invariant
            i <= n,
            n == cs.len(),
            utf8_fit(cs@, 0, limit as int) == i + utf8_fit(cs@, i as int, room as int),
        decreases n - i,
    {
        room = room - width_of(cs[i]);
        i = i + 1;
    }
    i
}

/// Whether `a` comes before `b` from position `i` on, given that the two
/// agree before it.
pub open spec fn precedes_from(a: Seq<char>, b: Seq<char>, i: int) -> bool
    decreases b.len() - i,
{
    if i < 0 || i >= b.len() {
        false
    } else if i >= a.len() {
        true
    } else if a[i] != b[i] {
        a[i] < b[i]
    } else {
        precedes_from(a, b, i + 1)
    }
}

/// Whether `a` comes before `b` in the order of a dictionary, with the
/// characters taken by their code points.
pub open spec fn precedes(a: Seq<char>, b: Seq<char>) -> bool {
    precedes_from(a, b, 0)
}

proof fn lemma_precedes_one_way(a: Seq<char>, b: Seq<char>, i: int)
    requires
        precedes_from(a, b, i),
    ensures
        !precedes_from(b, a, i),
    decreases b.len() - i,
{
    if 0 <= i < b.len() && i < a.len() && a[i] == b[i] {
        lemma_precedes_one_way(a, b, i + 1);
    }
}

proof fn lemma_precedes_chain(a: Seq<char>, b: Seq<char>, c: Seq<char>, i: int)
    requires
        !precedes_from(a, b, i),
        !precedes_from(b, c, i),
        0 <= i,
    ensures
        !precedes_from(a, c, i),
    decreases c.len() - i,
{
    if i < c.len() && i < b.len() && i < a.len() && a[i] == b[i] && b[i] == c[i] {
        lemma_precedes_chain(a, b, c, i + 1);
    }
}

proof fn lemma_precedes_or_equal(a: Seq<char>, b: Seq<char>, i: int)
    requires
        0 <= i,
        !precedes_from(a, b, i),
        !precedes_from(b, a, i),
        a.take(i) == b.take(i),
        i <= a.len(),
        i <= b.len(),
    ensures
        a == b,
    decreases b.len() - i,
{
    if i < a.len() && i < b.len() {
        assert(a.take(i + 1) =~= a.take(i).push(a[i]));
        assert(b.take(i + 1) =~= b.take(i).push(b[i]));
        lemma_precedes_or_equal(a, b, i + 1);
    } else {
        assert(a.take(i) =~= a);
        assert(b.take(i) =~= b);
    }
}

/// The order of a dictionary is an order: of two texts at most one comes
/// before the other, and exactly one where they differ; and where neither
/// the first comes before the second nor the second before the third, the
/// first does not come before the third.
pub proof fn lemma_precedes_is_an_order(a: Seq<char>, b: Seq<char>, c: Seq<char>)
    ensures
        !(precedes(a, b) && precedes(b, a)),
        precedes(a, b) || precedes(b, a) || a == b,
        !precedes(a, a),
        !precedes(a, b) && !precedes(b, c) ==> !precedes(a, c),
{
    if precedes(a, b) {
        lemma_precedes_one_way(a, b, 0);
    }
    if precedes(a, a) {
        lemma_precedes_one_way(a, a, 0);
    }
    if !precedes(a, b) && !precedes(b, a) {
        assert(a.take(0) =~= b.take(0));
        lemma_precedes_or_equal(a, b, 0);
    }
    if !precedes(a, b) && !precedes(b, c) {
        lemma_precedes_chain(a, b, c, 0);
    }
}

/// Whether `a` comes before `b` in the order of a dictionary.
pub fn text_precedes(a: &Vec<char>, b: &Vec<char>) -> (r: bool)
    ensures
        r == precedes(a@, b@),
{
    let mut i: usize = 0;
    while i < a.len() && i < b.len()
        invariant
            i <= a.len(),
            i <= b.len(),
            precedes(a@, b@) == precedes_from(a@, b@, i as int),
        decreases b.len() - i,
    {
        if a[i] != b[i] {
            return a[i] < b[i];
        }
        i = i + 1;
    }
    i < b.len()
}

} // verus!
