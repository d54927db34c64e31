//! Text as sequences of characters: the searches, splits and joins that the
//! generator needs, each with its meaning stated over `Seq<char>`.

use vstd::prelude::*;

verus! {

/// `part` stands in `text` at position `at`.
pub open spec fn occurs_at(text: Seq<char>, part: Seq<char>, at: int) -> bool {
    &&& 0 <= at
    &&& at + part.len() <= text.len()
    &&& text.subrange(at, at + part.len()) == part
}

/// `part` stands somewhere in `text`.
pub open spec fn has_substring(text: Seq<char>, part: Seq<char>) -> bool {
    exists|at: int| occurs_at(text, part, at)
}

/// `text` begins with `prefix`.
pub open spec fn has_prefix(text: Seq<char>, prefix: Seq<char>) -> bool {
    occurs_at(text, prefix, 0)
}

/// The views of a sequence of strings.
pub open spec fn texts(parts: Seq<String>) -> Seq<Seq<char>> {
    Seq::new(parts.len(), |i: int| parts[i]@)
}

/// The parts in order, with `sep` between each two neighbours.
pub open spec fn join_text(parts: Seq<Seq<char>>, sep: Seq<char>) -> Seq<char>
    decreases parts.len(),
{
    if parts.len() == 0 {
        Seq::empty()
    } else if parts.len() == 1 {
        parts[0]
    } else {
        join_text(parts.drop_last(), sep) + sep + parts.last()
    }
}

/// Four spaces for each level of nesting.
pub open spec fn indent_text(depth: nat) -> Seq<char>
    decreases depth,
{
    if depth == 0 {
        Seq::empty()
    } else {
        indent_text((depth - 1) as nat) + "    "@
    }
}

/// The character for one decimal digit; `'0'` outside `0..=9`.
pub open spec fn digit_char(d: int) -> char {
    if d == 1 {
        '1'
    } else if d == 2 {
        '2'
    } else if d == 3 {
        '3'
    } else if d == 4 {
        '4'
    } else if d == 5 {
        '5'
    } else if d == 6 {
        '6'
    } else if d == 7 {
        '7'
    } else if d == 8 {
        '8'
    } else if d == 9 {
        '9'
    } else {
        '0'
    }
}

/// A natural number in decimal, without leading zeros.
pub open spec fn decimal_text(n: nat) -> Seq<char>
    decreases n,
{
    if n < 10 {
        seq![digit_char(n as int)]
    } else {
        decimal_text(n / 10).push(digit_char((n % 10) as int))
    }
}

/// A share given in hundredths of a percent, with two decimals: `464` is
/// `4.64`, `10000` is `100.00`.
pub open spec fn percent_text(hundredths: nat) -> Seq<char> {
    decimal_text(hundredths / 100).push('.').push(digit_char(((hundredths / 10) % 10) as int)).push(
        digit_char((hundredths % 10) as int),
    )
}

/// A share given in hundredths of a percent, with as many decimals as it
/// needs and no more: `10000` is `100`, `50` is `0.5`, `464` is `4.64`.
pub open spec fn share_text(hundredths: nat) -> Seq<char> {
    if hundredths % 100 == 0 {
        decimal_text(hundredths / 100)
    } else if hundredths % 10 == 0 {
        decimal_text(hundredths / 100).push('.').push(digit_char(((hundredths / 10) % 10) as int))
    } else {
        percent_text(hundredths)
    }
}

/// The character for one hexadecimal digit, in lower case; `'0'` outside
/// `0..=15`.
pub open spec fn hex_digit_char(d: int) -> char {
    if d == 10 {
        'a'
    } else if d == 11 {
        'b'
    } else if d == 12 {
        'c'
    } else if d == 13 {
        'd'
    } else if d == 14 {
        'e'
    } else if d == 15 {
        'f'
    } else {
        digit_char(d)
    }
}

/// A natural number in hexadecimal, in lower case and without leading zeros.
pub open spec fn hex_text(n: nat) -> Seq<char>
    decreases n,
{
    if n < 16 {
        seq![hex_digit_char(n as int)]
    } else {
        hex_text(n / 16).push(hex_digit_char((n % 16) as int))
    }
}

/// One character as it stands inside a string literal: a backslash escape
/// for tab, carriage return, line feed, both quotes and the backslash, the
/// character itself where it is printable ASCII, and `\u{..}` with the
/// code point in hexadecimal for any other.
pub open spec fn escape_char(c: char) -> Seq<char> {
    if c == '\t' {
        seq!['\\', 't']
    } else if c == '\r' {
        seq!['\\', 'r']
    } else if c == '\n' {
        seq!['\\', 'n']
    } else if c == '\'' {
        seq!['\\', '\'']
    } else if c == '"' {
        seq!['\\', '"']
    } else if c == '\\' {
        seq!['\\', '\\']
    } else if 0x20 <= (c as u32) <= 0x7e {
        seq![c]
    } else {
        seq!['\\', 'u', '{'] + hex_text(c as u32 as nat) + seq!['}']
    }
}

/// A text with each character escaped as `escape_char` says.
pub open spec fn escape_text(s: Seq<char>) -> Seq<char>
    decreases s.len(),
{
    if s.len() == 0 {
        Seq::empty()
    } else {
        escape_text(s.drop_last()) + escape_char(s.last())
    }
}

/// Unicode's `White_Space` characters.
pub open spec fn is_space(c: char) -> bool {
    let n: u32 = c as u32;
    (0x09 <= n <= 0x0d) || n == 0x20 || n == 0x85 || n == 0xa0 || n == 0x1680 || (0x2000 <= n
        <= 0x200a) || n == 0x2028 || n == 0x2029 || n == 0x202f || n == 0x205f || n == 0x3000
}

/// The number of leading white-space characters of `s`.
pub open spec fn leading_spaces(s: Seq<char>) -> nat
    decreases s.len(),
{
    if s.len() > 0 && is_space(s[0]) {
        1 + leading_spaces(s.skip(1))
    } else {
        0
    }
}

/// `s` without its leading white space.
pub open spec fn trim_start_text(s: Seq<char>) -> Seq<char> {
    s.skip(leading_spaces(s) as int)
}

/// Whether `c` stands nowhere in `s`.
pub open spec fn free_of(s: Seq<char>, c: char) -> bool {
    forall|i: int| 0 <= i < s.len() ==> s[i] != c
}

/// Whether the character at `i`, if it is a star, stands alone and inside:
/// the characters before and after it exist and are no stars.
pub open spec fn star_alone(s: Seq<char>, i: int) -> bool {
    s[i] == '*' ==> 0 < i < s.len() - 1 && s[i - 1] != '*' && s[i + 1] != '*'
}

/// Whether every star in `s` stands alone and inside.
pub open spec fn star_safe(s: Seq<char>) -> bool {
    forall|i: int| 0 <= i < s.len() ==> #[trigger] star_alone(s, i)
}

/// The position of the first `c` in `s`, or the length of `s` when it
/// holds none.
pub open spec fn first_index(s: Seq<char>, c: char) -> nat
    decreases s.len(),
{
    if s.len() == 0 || s[0] == c {
        0
    } else {
        1 + first_index(s.skip(1), c)
    }
}

/// The position of the first line feed in `s`, or the length of `s` when it
/// holds none.
pub open spec fn line_end(s: Seq<char>) -> nat {
    first_index(s, '\n')
}

/// `line` without one trailing carriage return.
pub open spec fn strip_cr(line: Seq<char>) -> Seq<char> {
    if line.len() > 0 && line.last() == '\r' {
        line.drop_last()
    } else {
        line
    }
}

/// The lines of `s`. A line ends at a line feed; the carriage return before
/// that line feed is dropped with it. What follows the last line feed is a
/// line of its own unless it is empty, and keeps a trailing carriage return.
pub open spec fn text_lines(s: Seq<char>) -> Seq<Seq<char>>
    decreases s.len(),
{
    if s.len() == 0 {
        Seq::empty()
    } else {
        let k: int = line_end(s) as int;
        if k >= s.len() {
            seq![s]
        } else {
            seq![strip_cr(s.take(k))] + text_lines(s.skip(k + 1))
        }
    }
}

/// How often `c` stands in `s`.
pub open spec fn count_char(s: Seq<char>, c: char) -> nat
    decreases s.len(),
{
    if s.len() == 0 {
        0
    } else {
        count_char(s.drop_last(), c) + if s.last() == c {
            1nat
        } else {
            0nat
        }
    }
}

/// The sum of the lengths of `parts`.
pub open spec fn total_len(parts: Seq<Seq<char>>) -> nat
    decreases parts.len(),
{
    if parts.len() == 0 {
        0
    } else {
        total_len(parts.drop_last()) + parts.last().len()
    }
}

/// The views of a sequence of character vectors.
pub open spec fn rows(parts: Seq<Vec<char>>) -> Seq<Seq<char>> {
    Seq::new(parts.len(), |i: int| parts[i]@)
}

/// `first_index` is at most the length, points at a `c` where it is below
/// the length, and has no `c` before it.
pub proof fn lemma_first_index_bound(s: Seq<char>, c: char)
    ensures
        first_index(s, c) <= s.len(),
        first_index(s, c) < s.len() ==> s[first_index(s, c) as int] == c,
        forall|i: int| 0 <= i < first_index(s, c) ==> s[i] != c,
    decreases s.len(),
{
    if s.len() == 0 || s[0] == c {
    } else {
        lemma_first_index_bound(s.skip(1), c);
        assert forall|i: int| 0 <= i < first_index(s, c) implies s[i] != c by {
            if i > 0 {
                assert(s.skip(1)[i - 1] == s[i]);
            }
        }
    }
}

/// A text without `c` in its first `k` characters, and with one at `k` or
/// ending there, has its first `c` at `k`.
pub proof fn lemma_first_index_is(s: Seq<char>, c: char, k: int)
    requires
        0 <= k <= s.len(),
        forall|i: int| 0 <= i < k ==> s[i] != c,
        k < s.len() ==> s[k] == c,
    ensures
        first_index(s, c) == k,
    decreases k,
{
    if k == 0 {
    } else {
        let t = s.skip(1);
        assert forall|i: int| 0 <= i < k - 1 implies t[i] != c by {
            assert(t[i] == s[i + 1]);
        }
        lemma_first_index_is(t, c, k - 1);
    }
}

/// A text stands in whatever is written around it.
pub proof fn lemma_occurs_in_middle(a: Seq<char>, b: Seq<char>, c: Seq<char>)
    ensures
        occurs_at(a + b + c, b, a.len() as int),
        has_substring(a + b + c, b),
{
    assert((a + b + c).subrange(a.len() as int, (a.len() + b.len()) as int) =~= b);
}

/// What stands in a text stands in whatever is written around that text.
pub proof fn lemma_substring_extends(
    text: Seq<char>,
    part: Seq<char>,
    before: Seq<char>,
    after: Seq<char>,
)
    requires
        has_substring(text, part),
    ensures
        has_substring(before + text + after, part),
{
    let at = choose|at: int| occurs_at(text, part, at);
    assert((before + text + after).subrange(before.len() + at, before.len() + at + part.len())
        =~= text.subrange(at, at + part.len()));
    assert(occurs_at(before + text + after, part, before.len() + at));
}

/// A prefix of a text is a prefix of the text with more written after it.
pub proof fn lemma_prefix_extends(text: Seq<char>, prefix: Seq<char>, after: Seq<char>)
    requires
        has_prefix(text, prefix),
    ensures
        has_prefix(text + after, prefix),
{
    assert((text + after).subrange(0, prefix.len() as int) =~= text.subrange(
        0,
        prefix.len() as int,
    ));
}

/// A text without line feed, a line feed, and more text: the first line is
/// the text without a trailing carriage return, and the other lines are
/// those of what follows.
pub proof fn lemma_lines_after_first(a: Seq<char>, rest: Seq<char>)
    requires
        free_of(a, '\n'),
    ensures
        text_lines(a + "\n"@ + rest) == seq![strip_cr(a)] + text_lines(rest),
{
    reveal_strlit("\n");
    let s = a + "\n"@ + rest;
    assert(s[a.len() as int] == '\n');
    assert forall|i: int| 0 <= i < a.len() implies s[i] != '\n' by {
        assert(s[i] == a[i]);
    }
    lemma_first_index_is(s, '\n', a.len() as int);
    assert(s.take(a.len() as int) =~= a);
    assert(s.skip((a.len() + 1) as int) =~= rest);
}

/// The first line of a text begins with whatever the text begins with, as
/// far as that holds no line feed and does not end in a carriage return.
pub proof fn lemma_first_line_keeps_prefix(pre: Seq<char>, rest: Seq<char>)
    requires
        pre.len() > 0,
        free_of(pre, '\n'),
        pre.last() != '\r',
    ensures
        text_lines(pre + rest).len() > 0,
        has_prefix(text_lines(pre + rest)[0], pre),
{
    let s = pre + rest;
    let k = line_end(s) as int;
    lemma_first_index_bound(s, '\n');
    if k < pre.len() {
        assert(s[k] == pre[k]);
    }
    if k >= s.len() {
        assert(s.subrange(0, pre.len() as int) =~= pre);
    } else {
        let t = s.take(k);
        if t.len() > 0 && t.last() == '\r' {
            if k == pre.len() {
                assert(t.last() == pre.last());
            }
            assert(t.drop_last().subrange(0, pre.len() as int) =~= pre);
        } else {
            assert(t.subrange(0, pre.len() as int) =~= pre);
        }
    }
}

/// No digit is a line feed.
pub proof fn lemma_decimal_has_no_line_feed(n: nat)
    ensures
        free_of(decimal_text(n), '\n'),
    decreases n,
{
    if n >= 10 {
        lemma_decimal_has_no_line_feed(n / 10);
    }
}

/// A share written with two decimals holds no line feed.
pub proof fn lemma_percent_has_no_line_feed(hundredths: nat)
    ensures
        free_of(percent_text(hundredths), '\n'),
{
    lemma_decimal_has_no_line_feed(hundredths / 100);
}

/// Texts in which every star stands alone and inside make such a text
/// when written one after the other.
pub proof fn lemma_star_safe_concat(a: Seq<char>, b: Seq<char>)
    requires
        star_safe(a),
        star_safe(b),
    ensures
        star_safe(a + b),
{
    let s = a + b;
    assert forall|i: int| 0 <= i < s.len() implies #[trigger] star_alone(s, i) by {
        if i < a.len() {
            assert(star_alone(a, i));
            if a[i] == '*' {
                assert(s[i - 1] == a[i - 1]);
                assert(s[i + 1] == a[i + 1]);
            }
        } else {
            assert(star_alone(b, i - a.len()));
            if b[i - a.len()] == '*' {
                assert(s[i - 1] == b[i - a.len() - 1]);
                assert(s[i + 1] == b[i - a.len() + 1]);
            }
        }
    }
}

/// A text without star is one in which every star stands alone.
pub proof fn lemma_free_is_star_safe(s: Seq<char>)
    requires
        free_of(s, '*'),
    ensures
        star_safe(s),
{
}

/// A text in which every star stands alone holds no two stars in a row.
pub proof fn lemma_star_safe_has_no_pair(s: Seq<char>)
    requires
        star_safe(s),
    ensures
        !has_substring(s, "**"@),
{
    reveal_strlit("**");
    if has_substring(s, "**"@) {
        let at = choose|at: int| occurs_at(s, "**"@, at);
        assert(s.subrange(at, at + 2)[0] == '*');
        assert(s.subrange(at, at + 2)[1] == '*');
        assert(s[at] == '*');
        assert(s[at + 1] == '*');
        assert(star_alone(s, at));
    }
}

/// Parts and a separator in which every star stands alone join to such a
/// text.
pub proof fn lemma_star_safe_join(parts: Seq<Seq<char>>, sep: Seq<char>)
    requires
        forall|i: int| 0 <= i < parts.len() ==> star_safe(#[trigger] parts[i]),
        star_safe(sep),
    ensures
        star_safe(join_text(parts, sep)),
    decreases parts.len(),
{
    if parts.len() >= 2 {
        let init = parts.drop_last();
        assert forall|i: int| 0 <= i < init.len() implies star_safe(#[trigger] init[i]) by {
            assert(init[i] == parts[i]);
        }
        lemma_star_safe_join(init, sep);
        lemma_star_safe_concat(join_text(init, sep), sep);
        lemma_star_safe_concat(join_text(init, sep) + sep, parts.last());
    }
}

/// Escaping a text without star gives a text without star.
pub proof fn lemma_escape_keeps_free_of_star(s: Seq<char>)
    requires
        free_of(s, '*'),
    ensures
        free_of(escape_text(s), '*'),
    decreases s.len(),
{
    if s.len() > 0 {
        lemma_escape_keeps_free_of_star(s.drop_last());
        lemma_hex_has_no_star(s.last() as u32 as nat);
    }
}

/// No hexadecimal digit is a star.
pub proof fn lemma_hex_has_no_star(n: nat)
    ensures
        free_of(hex_text(n), '*'),
    decreases n,
{
    if n >= 16 {
        lemma_hex_has_no_star(n / 16);
    }
}

/// What stands in one of the parts stands in the parts joined.
pub proof fn lemma_join_holds_part(parts: Seq<Seq<char>>, sep: Seq<char>, i: int, x: Seq<char>)
    requires
        0 <= i < parts.len(),
        has_substring(parts[i], x),
    ensures
        has_substring(join_text(parts, sep), x),
    decreases parts.len(),
{
    if parts.len() >= 2 {
        let init = parts.drop_last();
        if i < parts.len() - 1 {
            assert(init[i] == parts[i]);
            lemma_join_holds_part(init, sep, i, x);
            lemma_substring_extends(join_text(init, sep), x, Seq::empty(), sep + parts.last());
            assert(Seq::<char>::empty() + join_text(init, sep) + (sep + parts.last()) =~= join_text(
                parts,
                sep,
            ));
        } else {
            lemma_substring_extends(parts.last(), x, join_text(init, sep) + sep, Seq::empty());
            assert(join_text(init, sep) + sep + parts.last() + Seq::<char>::empty() =~= join_text(
                parts,
                sep,
            ));
        }
    }
}

/// Three texts in which every star stands alone make such a text.
pub proof fn lemma_star_safe_3(a: Seq<char>, b: Seq<char>, c: Seq<char>)
    requires
        star_safe(a),
        star_safe(b),
        star_safe(c),
    ensures
        star_safe(a + b + c),
{
    lemma_star_safe_concat(a, b);
    lemma_star_safe_concat(a + b, c);
}

/// Five texts in which every star stands alone make such a text.
pub proof fn lemma_star_safe_5(a: Seq<char>, b: Seq<char>, c: Seq<char>, d: Seq<char>, e: Seq<char>)
    requires
        star_safe(a),
        star_safe(b),
        star_safe(c),
        star_safe(d),
        star_safe(e),
    ensures
        star_safe(a + b + c + d + e),
{
    lemma_star_safe_3(a, b, c);
    lemma_star_safe_3(a + b + c, d, e);
}

/// Seven texts in which every star stands alone make such a text.
pub proof fn lemma_star_safe_7(
    a: Seq<char>,
    b: Seq<char>,
    c: Seq<char>,
    d: Seq<char>,
    e: Seq<char>,
    f: Seq<char>,
    g: Seq<char>,
)
    requires
        star_safe(a),
        star_safe(b),
        star_safe(c),
        star_safe(d),
        star_safe(e),
        star_safe(f),
        star_safe(g),
    ensures
        star_safe(a + b + c + d + e + f + g),
{
    lemma_star_safe_5(a, b, c, d, e);
    lemma_star_safe_3(a + b + c + d + e, f, g);
}

/// In an indentation every star stands alone: it holds none.
pub proof fn lemma_indent_is_star_safe(depth: nat)
    ensures
        star_safe(indent_text(depth)),
    decreases depth,
{
    if depth > 0 {
        lemma_indent_is_star_safe((depth - 1) as nat);
        assert(star_safe("    "@)) by {
            reveal_strlit("    ");
        }
        lemma_star_safe_concat(indent_text((depth - 1) as nat), "    "@);
    }
}

/// The first `n` parts are together no longer than all of them.
pub proof fn lemma_total_len_take(parts: Seq<Seq<char>>, n: int)
    requires
        0 <= n <= parts.len(),
    ensures
        total_len(parts.take(n)) <= total_len(parts),
    decreases parts.len(),
{
    if n == parts.len() {
        assert(parts.take(n) =~= parts);
    } else {
        lemma_total_len_take(parts.drop_last(), n);
        assert(parts.drop_last().take(n) =~= parts.take(n));
    }
}

/// One more part adds its length.
pub proof fn lemma_total_len_push(parts: Seq<Seq<char>>, last: Seq<char>)
    ensures
        total_len(parts.push(last)) == total_len(parts) + last.len(),
{
    assert(parts.push(last).drop_last() =~= parts);
}

/// `String::push`: afterwards `s` holds what it held, and `c` after it.
#[verifier::external_body]
pub(crate) fn push_char(s: &mut String, c: char)
    ensures
        final(s)@ == old(s)@.push(c),
{
    s.push(c)
}

/// The characters of `s`, one by one.
pub fn to_chars(s: &str) -> (v: Vec<char>)
    ensures
        v@ == s@,
{
    let mut v: Vec<char> = Vec::new();
    for c in it: s.chars()
        invariant
            v@ == it.seq().take(it.index() as int),
    {
        v.push(c);
    }
    v
}

/// Appends the characters `v[from..to]` to `out`.
pub fn push_chars(out: &mut String, v: &Vec<char>, from: usize, to: usize)
    requires
        from <= to <= v.len(),
    ensures
        final(out)@ == old(out)@ + v@.subrange(from as int, to as int),
{
    let mut i: usize = from;
    assert(v@.subrange(from as int, from as int) =~= Seq::<char>::empty());
    assert(out@ + Seq::<char>::empty() =~= out@);
    while i < to
        invariant
            from <= i <= to <= v.len(),
            out@ == old(out)@ + v@.subrange(from as int, i as int),
        decreases to - i,
    {
        push_char(out, v[i]);
        assert(v@.subrange(from as int, i + 1) =~= v@.subrange(from as int, i as int).push(
            v@[i as int],
        ));
        assert((old(out)@ + v@.subrange(from as int, i as int)).push(v@[i as int]) =~= old(out)@
            + v@.subrange(from as int, i + 1));
        i = i + 1;
    }
}

/// The string that holds the characters `v[from..to]`.
pub fn from_chars(v: &Vec<char>, from: usize, to: usize) -> (s: String)
    requires
        from <= to <= v.len(),
    ensures
        s@ == v@.subrange(from as int, to as int),
{
    let mut s = String::new();
    push_chars(&mut s, v, from, to);
    assert(Seq::<char>::empty() + v@.subrange(from as int, to as int) =~= v@.subrange(
        from as int,
        to as int,
    ));
    s
}

/// Whether `part` stands in `text` at `at`.
pub fn chars_occur_at(text: &Vec<char>, part: &Vec<char>, at: usize) -> (b: bool)
    ensures
        b == occurs_at(text@, part@, at as int),
{
    if part.len() > text.len() || at > text.len() - part.len() {
        return false;
    }
    let mut i: usize = 0;
    while i < part.len()
        invariant
            i <= part.len(),
            at + part.len() <= text.len(),
            forall|j: int| 0 <= j < i ==> text@[at + j] == part@[j],
        decreases part.len() - i,
    {
        if text[at + i] != part[i] {
            proof {
                if occurs_at(text@, part@, at as int) {
                    assert(text@.subrange(at as int, at + part.len())[i as int] == part@[i as int]);
                }
            }
            return false;
        }
        i = i + 1;
    }
    assert(text@.subrange(at as int, at + part.len()) =~= part@);
    true
}

/// Whether `part` stands somewhere in `text`.
pub fn chars_contain(text: &Vec<char>, part: &Vec<char>) -> (b: bool)
    ensures
        b == has_substring(text@, part@),
{
    if part.len() > text.len() {
        return false;
    }
    let last: usize = text.len() - part.len();
    let mut at: usize = 0;
    while at < last
        invariant
            last == text.len() - part.len(),
            part.len() <= text.len(),
            at <= last,
            forall|k: int| 0 <= k < at ==> !occurs_at(text@, part@, k),
        decreases last - at,
    {
        if chars_occur_at(text, part, at) {
            return true;
        }
        at = at + 1;
    }
    chars_occur_at(text, part, last)
}

/// Whether `part` stands somewhere in `text`.
pub fn contains(text: &str, part: &str) -> (b: bool)
    ensures
        b == has_substring(text@, part@),
{
    let t = to_chars(text);
    let p = to_chars(part);
    chars_contain(&t, &p)
}

/// Whether two texts hold the same characters.
pub fn same_text(a: &str, b: &str) -> (r: bool)
    ensures
        r == (a@ == b@),
{
    let x = to_chars(a);
    let y = to_chars(b);
    if x.len() != y.len() {
        return false;
    }
    let r = chars_occur_at(&x, &y, 0);
    proof {
        assert(x@.subrange(0, y@.len() as int) =~= x@);
    }
    r
}

/// Whether the character `c` stands in `text`.
pub fn contains_char(text: &str, c: char) -> (b: bool)
    ensures
        b == text@.contains(c),
{
    let t = to_chars(text);
    let mut i: usize = 0;
    while i < t.len()
        invariant
            i <= t.len(),
            t@ == text@,
            forall|j: int| 0 <= j < i ==> t@[j] != c,
        decreases t.len() - i,
    {
        if t[i] == c {
            return true;
        }
        i = i + 1;
    }
    false
}

/// Four spaces for each level of `depth`.
pub fn indent(depth: usize) -> (s: String)
    ensures
        s@ == indent_text(depth as nat),
{
    let mut s = String::new();
    let mut i: usize = 0;
    while i < depth
        invariant
            i <= depth,
            s@ == indent_text(i as nat),
        decreases depth - i,
    {
        s.append("    ");
        i = i + 1;
    }
    s
}

/// The parts in order, with `sep` between each two neighbours.
pub fn join(parts: &Vec<String>, sep: &str) -> (s: String)
    ensures
        s@ == join_text(texts(parts@), sep@),
{
    let mut s = String::new();
    let mut i: usize = 0;
    let ghost all = texts(parts@);
    assert(all.take(0) =~= Seq::<Seq<char>>::empty());
    while i < parts.len()
        invariant
            i <= parts.len(),
            all == texts(parts@),
            s@ == join_text(all.take(i as int), sep@),
        decreases parts.len() - i,
    {
        proof {
            assert(all.take(i + 1).drop_last() =~= all.take(i as int));
            assert(all.take(i + 1).last() == parts@[i as int]@);
        }
        if i > 0 {
            s.append(sep);
        } else {
            assert(Seq::<char>::empty() + parts@[0]@ =~= parts@[0]@);
            assert(all.take(1)[0] == parts@[0]@);
        }
        s.append(parts[i].as_str());
        i = i + 1;
    }
    assert(all.take(parts.len() as int) =~= all);
    s
}

/// The character for the decimal digit `d`; `'0'` for any other number.
pub fn digit(d: u64) -> (c: char)
    ensures
        c == digit_char(d as int),
{
    if d == 1 {
        '1'
    } else if d == 2 {
        '2'
    } else if d == 3 {
        '3'
    } else if d == 4 {
        '4'
    } else if d == 5 {
        '5'
    } else if d == 6 {
        '6'
    } else if d == 7 {
        '7'
    } else if d == 8 {
        '8'
    } else if d == 9 {
        '9'
    } else {
        '0'
    }
}

/// Appends `n` in decimal to `out`.
pub fn push_decimal(out: &mut String, n: u64)
    ensures
        final(out)@ == old(out)@ + decimal_text(n as nat),
    decreases n,
{
    if n >= 10 {
        push_decimal(out, n / 10);
    }
    push_char(out, digit(n % 10));
    proof {
        if n >= 10 {
            assert((old(out)@ + decimal_text((n / 10) as nat)).push(digit_char((n % 10) as int))
                =~= old(out)@ + decimal_text(n as nat));
        } else {
            assert(old(out)@.push(digit_char(n as int)) =~= old(out)@ + decimal_text(n as nat));
        }
    }
}

/// `n` in decimal.
pub fn decimal(n: u64) -> (s: String)
    ensures
        s@ == decimal_text(n as nat),
{
    let mut s = String::new();
    push_decimal(&mut s, n);
    assert(Seq::<char>::empty() + decimal_text(n as nat) =~= decimal_text(n as nat));
    s
}

/// A share in hundredths of a percent, written with two decimals.
pub fn percent(hundredths: u32) -> (s: String)
    ensures
        s@ == percent_text(hundredths as nat),
{
    let h: u64 = hundredths as u64;
    let mut s = decimal(h / 100);
    push_char(&mut s, '.');
    push_char(&mut s, digit((h / 10) % 10));
    push_char(&mut s, digit(h % 10));
    s
}

/// The character for the hexadecimal digit `d`; `'0'` for any other number.
pub fn hex_digit(d: u32) -> (c: char)
    ensures
        c == hex_digit_char(d as int),
{
    if d == 10 {
        'a'
    } else if d == 11 {
        'b'
    } else if d == 12 {
        'c'
    } else if d == 13 {
        'd'
    } else if d == 14 {
        'e'
    } else if d == 15 {
        'f'
    } else {
        digit(d as u64)
    }
}

/// Appends `n` in hexadecimal to `out`.
pub fn push_hex(out: &mut String, n: u32)
    ensures
        final(out)@ == old(out)@ + hex_text(n as nat),
    decreases n,
{
    if n >= 16 {
        push_hex(out, n / 16);
    }
    push_char(out, hex_digit(n % 16));
    proof {
        if n >= 16 {
            assert((old(out)@ + hex_text((n / 16) as nat)).push(hex_digit_char((n % 16) as int))
                =~= old(out)@ + hex_text(n as nat));
        } else {
            assert(old(out)@.push(hex_digit_char(n as int)) =~= old(out)@ + hex_text(n as nat));
        }
    }
}

/// Appends `c`, escaped, to `out`.
pub fn push_escaped_char(out: &mut String, c: char)
    ensures
        final(out)@ == old(out)@ + escape_char(c),
{
    let n: u32 = c as u32;
    if c == '\t' {
        push_char(out, '\\');
        push_char(out, 't');
        assert(old(out)@.push('\\').push('t') =~= old(out)@ + escape_char(c));
    } else if c == '\r' {
        push_char(out, '\\');
        push_char(out, 'r');
        assert(old(out)@.push('\\').push('r') =~= old(out)@ + escape_char(c));
    } else if c == '\n' {
        push_char(out, '\\');
        push_char(out, 'n');
        assert(old(out)@.push('\\').push('n') =~= old(out)@ + escape_char(c));
    } else if c == '\'' || c == '"' || c == '\\' {
        push_char(out, '\\');
        push_char(out, c);
        assert(old(out)@.push('\\').push(c) =~= old(out)@ + escape_char(c));
    } else if 0x20 <= n && n <= 0x7e {
        push_char(out, c);
        assert(old(out)@.push(c) =~= old(out)@ + escape_char(c));
    } else {
        push_char(out, '\\');
        push_char(out, 'u');
        push_char(out, '{');
        push_hex(out, n);
        push_char(out, '}');
        assert((old(out)@.push('\\').push('u').push('{') + hex_text(n as nat)).push('}') =~= old(
            out,
        )@ + escape_char(c));
    }
}

/// `s` with each character escaped as `escape_char` says.
pub fn escape(s: &str) -> (r: String)
    ensures
        r@ == escape_text(s@),
{
    let v = to_chars(s);
    let mut r = String::new();
    let mut i: usize = 0;
    assert(v@.take(0) =~= Seq::<char>::empty());
    while i < v.len()
        invariant
            i <= v.len(),
            r@ == escape_text(v@.take(i as int)),
        decreases v.len() - i,
    {
        assert(v@.take(i + 1).drop_last() =~= v@.take(i as int));
        push_escaped_char(&mut r, v[i]);
        i = i + 1;
    }
    assert(v@.take(v.len() as int) =~= v@);
    r
}

/// A share in hundredths of a percent, written with as many decimals as it
/// needs.
pub fn share(hundredths: u32) -> (s: String)
    ensures
        s@ == share_text(hundredths as nat),
{
    let h: u64 = hundredths as u64;
    if h % 100 == 0 {
        decimal(h / 100)
    } else if h % 10 == 0 {
        let mut s = decimal(h / 100);
        push_char(&mut s, '.');
        push_char(&mut s, digit((h / 10) % 10));
        s
    } else {
        percent(hundredths)
    }
}

/// Whether `c` is one of Unicode's `White_Space` characters.
pub fn char_is_space(c: char) -> (b: bool)
    ensures
        b == is_space(c),
{
    let n: u32 = c as u32;
    (0x09 <= n && n <= 0x0d) || n == 0x20 || n == 0x85 || n == 0xa0 || n == 0x1680 || (0x2000 <= n
        && n <= 0x200a) || n == 0x2028 || n == 0x2029 || n == 0x202f || n == 0x205f || n == 0x3000
}

/// The position of the first character of `line` that is no white space.
pub fn skip_spaces(line: &Vec<char>) -> (k: usize)
    ensures
        k == leading_spaces(line@),
        k <= line.len(),
{
    let mut k: usize = 0;
    assert(line@.skip(0) =~= line@);
    while k < line.len() && char_is_space(line[k])
        invariant
            k <= line.len(),
            leading_spaces(line@) == k + leading_spaces(line@.skip(k as int)),
        decreases line.len() - k,
    {
        assert(line@.skip(k as int).skip(1) =~= line@.skip(k + 1));
        k = k + 1;
    }
    k
}

/// The position of the first `c` in `v` at or after `from`, or the length
/// of `v` when none follows.
pub fn find_char(v: &Vec<char>, from: usize, c: char) -> (p: usize)
    requires
        from <= v.len(),
    ensures
        from <= p <= v.len(),
        p - from == first_index(v@.skip(from as int), c),
{
    let mut p: usize = from;
    while p < v.len() && v[p] != c
        invariant
            from <= p <= v.len(),
            forall|i: int| from <= i < p ==> v@[i] != c,
        decreases v.len() - p,
    {
        p = p + 1;
    }
    proof {
        let rest = v@.skip(from as int);
        assert forall|i: int| 0 <= i < p - from implies rest[i] != c by {
            assert(rest[i] == v@[from + i]);
        }
        lemma_first_index_is(rest, c, p - from);
    }
    p
}

/// The lines of `text`, as `text_lines` defines them.
pub fn lines(text: &Vec<char>) -> (out: Vec<Vec<char>>)
    ensures
        rows(out@) == text_lines(text@),
        total_len(rows(out@)) <= text.len(),
{
    let mut out: Vec<Vec<char>> = Vec::new();
    let mut start: usize = 0;
    assert(text@.skip(0) =~= text@);
    assert(rows(out@) =~= Seq::<Seq<char>>::empty());
    assert(Seq::<Seq<char>>::empty() + text_lines(text@) =~= text_lines(text@));
    while start < text.len()
        invariant
            start <= text.len(),
            text_lines(text@) == rows(out@) + text_lines(text@.skip(start as int)),
            total_len(rows(out@)) <= start,
        decreases text.len() - start,
    {
        let ghost rest = text@.skip(start as int);
        let mut end: usize = start;
        while end < text.len() && text[end] != '\n'
            invariant
                start <= end <= text.len(),
                forall|i: int| start <= i < end ==> text@[i] != '\n',
            decreases text.len() - end,
        {
            end = end + 1;
        }
        proof {
            assert forall|i: int| 0 <= i < end - start implies rest[i] != '\n' by {
                assert(rest[i] == text@[start + i]);
            }
            lemma_first_index_is(rest, '\n', end - start);
        }
        let mut line: Vec<char> = Vec::new();
        let mut stop: usize = end;
        if end < text.len() && end > start && text[end - 1] == '\r' {
            stop = end - 1;
        }
        let mut i: usize = start;
        while i < stop
            invariant
                start <= i <= stop <= text.len(),
                line@ == text@.subrange(start as int, i as int),
            decreases stop - i,
        {
            line.push(text[i]);
            assert(text@.subrange(start as int, i + 1) =~= text@.subrange(
                start as int,
                i as int,
            ).push(text@[i as int]));
            i = i + 1;
        }
        let ghost before = rows(out@);
        out.push(line);
        proof {
            assert(rows(out@) =~= before.push(line@));
            lemma_total_len_push(before, line@);
            if end < text.len() {
                assert(rest.take(end - start) =~= text@.subrange(start as int, end as int));
                assert(strip_cr(rest.take(end - start)) =~= line@);
                assert(rest.skip(end - start + 1) =~= text@.skip(end + 1));
                assert(before.push(line@) + text_lines(text@.skip(end + 1)) =~= before + (seq![
                    line@,
                ] + text_lines(text@.skip(end + 1))));
            } else {
                assert(line@ =~= rest);
                assert(text@.skip(text@.len() as int) =~= Seq::<char>::empty());
                assert(before.push(line@) + Seq::<Seq<char>>::empty() =~= before + seq![rest]);
            }
        }
        if end < text.len() {
            start = end + 1;
        } else {
            start = end;
        }
    }
    proof {
        assert(text@.skip(text@.len() as int) =~= Seq::<char>::empty());
        assert(rows(out@) + Seq::<Seq<char>>::empty() =~= rows(out@));
    }
    out
}

/// How often `c` stands in `line`.
pub fn count_in(line: &Vec<char>, c: char) -> (n: usize)
    ensures
        n == count_char(line@, c),
        n <= line.len(),
{
    let mut n: usize = 0;
    let mut i: usize = 0;
    assert(line@.take(0) =~= Seq::<char>::empty());
    while i < line.len()
        invariant
            i <= line.len(),
            n <= i,
            n == count_char(line@.take(i as int), c),
        decreases line.len() - i,
    {
        assert(line@.take(i + 1).drop_last() =~= line@.take(i as int));
        if line[i] == c {
            n = n + 1;
        }
        i = i + 1;
    }
    assert(line@.take(line.len() as int) =~= line@);
    n
}

} // verus!
