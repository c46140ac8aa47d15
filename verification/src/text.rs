//! Text as sequences of characters.
//!
//! The discovery files, the output of the emulator and the tokens are all
//! plain text. The spec functions here say what trimming, splitting and
//! number formatting mean on sequences of characters; the executable
//! functions compute them.

use vstd::prelude::*;

verus! {

/// Unicode `White_Space` characters.
pub open spec fn is_white(c: char) -> bool {
    ||| '\u{9}' <= c <= '\u{d}'
    ||| c == ' '
    ||| c == '\u{85}'
    ||| c == '\u{a0}'
    ||| c == '\u{1680}'
    ||| '\u{2000}' <= c <= '\u{200a}'
    ||| c == '\u{2028}'
    ||| c == '\u{2029}'
    ||| c == '\u{202f}'
    ||| c == '\u{205f}'
    ||| c == '\u{3000}'
}

/// `s` without its leading white space.
pub open spec fn trim_start(s: Seq<char>) -> Seq<char>
    decreases s.len(),
{
    if s.len() > 0 && is_white(s.first()) {
        trim_start(s.drop_first())
    } else {
        s
    }
}

/// `s` without its trailing white space.
pub open spec fn trim_end(s: Seq<char>) -> Seq<char>
    decreases s.len(),
{
    if s.len() > 0 && is_white(s.last()) {
        trim_end(s.drop_last())
    } else {
        s
    }
}

/// `s` without white space on either side.
pub open spec fn trim(s: Seq<char>) -> Seq<char> {
    trim_end(trim_start(s))
}

/// Where `c` first stands in `s`; the length of `s` where it does not.
pub open spec fn find(s: Seq<char>, c: char) -> int
    decreases s.len(),
{
    if s.len() == 0 || s.first() == c {
        0
    } else {
        1 + find(s.drop_first(), c)
    }
}

/// What stands before and after the first `c`, if there is one.
pub open spec fn split_once(s: Seq<char>, c: char) -> Option<(Seq<char>, Seq<char>)> {
    let n = find(s, c);
    if n < s.len() {
        Some((s.take(n), s.skip(n + 1)))
    } else {
        None
    }
}

pub open spec fn starts_with(s: Seq<char>, prefix: Seq<char>) -> bool {
    prefix.len() <= s.len() && s.take(prefix.len() as int) == prefix
}

/// What follows `prefix` in `s`, if `s` starts with it.
pub open spec fn strip_prefix(s: Seq<char>, prefix: Seq<char>) -> Option<Seq<char>> {
    if starts_with(s, prefix) {
        Some(s.skip(prefix.len() as int))
    } else {
        None
    }
}

/// A line that ended in a line feed, without the carriage return before it.
pub open spec fn chomp(line: Seq<char>) -> Seq<char> {
    if line.len() > 0 && line.last() == '\r' {
        line.drop_last()
    } else {
        line
    }
}

/// The lines of `s`. A line ends in `\n` or `\r\n`, which is not part of it;
/// the ending of the last line is optional.
pub open spec fn lines(s: Seq<char>) -> Seq<Seq<char>>
    decreases s.len(),
{
    let n = find(s, '\n');
    if s.len() == 0 {
        seq![]
    } else if 0 <= n < s.len() {
        seq![chomp(s.take(n))] + lines(s.skip(n + 1))
    } else {
        seq![s]
    }
}

pub open spec fn is_digit(c: char) -> bool {
    '0' <= c <= '9'
}

pub open spec fn all_digits(s: Seq<char>) -> bool {
    forall|i: int| 0 <= i < s.len() ==> is_digit(#[trigger] s[i])
}

/// The number that a sequence of decimal digits writes.
pub open spec fn digits_value(s: Seq<char>) -> nat
    decreases s.len(),
{
    if s.len() == 0 {
        0
    } else {
        (10 * digits_value(s.drop_last()) + (s.last() as int - '0' as int)) as nat
    }
}

/// `s` read as a `u16`: an optional `+` and then decimal digits, at least one
/// and nothing else, of a number that fits.
pub open spec fn parse_u16(s: Seq<char>) -> Option<u16> {
    let digits = if s.len() > 0 && s.first() == '+' {
        s.drop_first()
    } else {
        s
    };
    if digits.len() > 0 && all_digits(digits) && digits_value(digits) <= u16::MAX {
        Some(digits_value(digits) as u16)
    } else {
        None
    }
}

/// The decimal digits of `n`, without leading zeros.
pub open spec fn decimal(n: nat) -> Seq<char>
    decreases n,
{
    let last = ('0' as int + n % 10) as char;
    if n < 10 {
        seq![last]
    } else {
        decimal(n / 10).push(last)
    }
}

/// The characters of each string.
pub open spec fn views(v: Seq<String>) -> Seq<Seq<char>> {
    v.map_values(|s: String| s@)
}

/// Whether `c` is white space.
fn char_is_white(c: char) -> (res: bool)
    ensures
        res == is_white(c),
{
    ('\u{9}' <= c && c <= '\u{d}') || c == ' ' || c == '\u{85}' || c == '\u{a0}' || c == '\u{1680}'
        || ('\u{2000}' <= c && c <= '\u{200a}') || c == '\u{2028}' || c == '\u{2029}' || c
        == '\u{202f}' || c == '\u{205f}' || c == '\u{3000}'
}

/// The characters of `s`, in order.
pub fn chars_of(s: &str) -> (res: Vec<char>)
    ensures
        res@ == s@,
{
    let mut res: Vec<char> = Vec::new();
    for c in it: s.chars()
        invariant
            it.seq() == s@,
            res@ == it.seq().take(it.index() as int),
    {
        res.push(c);
    }
    res
}

/// Whether two texts are the same.
pub fn same(a: &str, b: &str) -> (res: bool)
    ensures
        res == (a@ == b@),
{
    a.to_owned() == b.to_owned()
}

fn find_from(cs: &Vec<char>, c: char, from: usize) -> (res: usize)
    requires
        from <= cs@.len(),
    ensures
        from <= res <= cs@.len(),
        res == from + find(cs@.skip(from as int), c),
{
    let mut i: usize = from;
    while i < cs.len() && cs[i] != c
        invariant
            from <= i <= cs@.len(),
            find(cs@.skip(from as int), c) == (i - from) + find(cs@.skip(i as int), c),
        decreases cs@.len() - i,
    {
        assert(cs@.skip(i as int).drop_first() =~= cs@.skip(i + 1));
        i += 1;
    }
    i
}

pub proof fn lemma_find_bounds(s: Seq<char>, c: char)
    ensures
        0 <= find(s, c) <= s.len(),
        find(s, c) < s.len() ==> s[find(s, c)] == c,
        forall|i: int| 0 <= i < find(s, c) ==> s[i] != c,
    decreases s.len(),
{
    if s.len() > 0 && s.first() != c {
        lemma_find_bounds(s.drop_first(), c);
        assert forall|i: int| 0 <= i < find(s, c) implies s[i] != c by {
            if i > 0 {
                assert(s[i] == s.drop_first()[i - 1]);
            }
        }
    }
}

/// `s` without its leading white space.
pub fn trim_start_of(s: &str) -> (res: &str)
    ensures
        res@ == trim_start(s@),
{
    let cs = chars_of(s);
    let mut i: usize = 0;
    assert(cs@.skip(0) =~= cs@);
    while i < cs.len() && char_is_white(cs[i])
        invariant
            i <= cs@.len(),
            cs@ == s@,
            trim_start(s@) == trim_start(cs@.skip(i as int)),
        decreases cs@.len() - i,
    {
        assert(cs@.skip(i as int).drop_first() =~= cs@.skip(i + 1));
        i += 1;
    }
    let res = s.substring_char(i, cs.len());
    assert(res@ =~= cs@.skip(i as int));
    res
}

/// `s` without white space on either side.
pub fn trim_of(s: &str) -> (res: &str)
    ensures
        res@ == trim(s@),
{
    let t = trim_start_of(s);
    let cs = chars_of(t);
    let mut n: usize = cs.len();
    assert(cs@.take(n as int) =~= cs@);
    while n > 0 && char_is_white(cs[n - 1])
        invariant
            n <= cs@.len(),
            cs@ == t@,
            trim_end(t@) == trim_end(cs@.take(n as int)),
        decreases n,
    {
        assert(cs@.take(n as int).drop_last() =~= cs@.take(n - 1));
        n -= 1;
    }
    let res = t.substring_char(0, n);
    assert(res@ =~= cs@.take(n as int));
    res
}

/// What stands before and after the first `c`, if there is one.
pub fn split_once_at<'a>(s: &'a str, c: char) -> (res: Option<(&'a str, &'a str)>)
    ensures
        match res {
            Some((k, v)) => split_once(s@, c) == Some((k@, v@)),
            None => split_once(s@, c) is None,
        },
{
    let cs = chars_of(s);
    let n = find_from(&cs, c, 0);
    assert(cs@.skip(0) =~= cs@);
    if n < cs.len() {
        let k = s.substring_char(0, n);
        let v = s.substring_char(n + 1, cs.len());
        assert(k@ =~= s@.take(n as int));
        assert(v@ =~= s@.skip(n + 1));
        Some((k, v))
    } else {
        None
    }
}

/// What follows `prefix` in `s`, if `s` starts with it.
pub fn strip_prefix_of<'a>(s: &'a str, prefix: &str) -> (res: Option<&'a str>)
    ensures
        match res {
            Some(rest) => strip_prefix(s@, prefix@) == Some(rest@),
            None => strip_prefix(s@, prefix@) is None,
        },
{
    let n = s.unicode_len();
    let m = prefix.unicode_len();
    if n < m {
        return None;
    }
    let head = s.substring_char(0, m);
    assert(head@ =~= s@.take(m as int));
    if same(head, prefix) {
        let rest = s.substring_char(m, n);
        assert(rest@ =~= s@.skip(m as int));
        Some(rest)
    } else {
        None
    }
}

/// The lines of `s`.
pub fn lines_of(s: &str) -> (res: Vec<String>)
    ensures
        views(res@) == lines(s@),
{
    let cs = chars_of(s);
    let mut res: Vec<String> = Vec::new();
    let mut from: usize = 0;
    assert(cs@.skip(0) =~= cs@);
    assert(views(res@) + lines(cs@.skip(0)) =~= lines(s@));
    while from < cs.len()
        invariant
            from <= cs@.len(),
            cs@ == s@,
            views(res@) + lines(cs@.skip(from as int)) == lines(s@),
        decreases cs@.len() - from,
    {
        let ghost tail = cs@.skip(from as int);
        let ghost before = views(res@);
        let n = find_from(&cs, '\n', from);
        let ghost len = find(tail, '\n');
        if n < cs.len() {
            let end = if n > from && cs[n - 1] == '\r' {
                n - 1
            } else {
                n
            };
            let line = s.substring_char(from, end).to_owned();
            assert(tail.take(len) =~= cs@.subrange(from as int, n as int));
            assert(line@ =~= chomp(tail.take(len)));
            assert(tail.skip(len + 1) =~= cs@.skip(n + 1));
            res.push(line);
            assert(views(res@) =~= before.push(line@));
            assert(before + (seq![line@] + lines(cs@.skip(n + 1))) =~= views(res@) + lines(
                cs@.skip(n + 1),
            ));
            from = n + 1;
        } else {
            let line = s.substring_char(from, cs.len()).to_owned();
            assert(line@ =~= tail);
            res.push(line);
            assert(views(res@) =~= before.push(line@));
            assert(before + seq![line@] =~= views(res@) + lines(cs@.skip(cs@.len() as int)));
            from = cs.len();
        }
    }
    assert(views(res@) + lines(cs@.skip(from as int)) =~= views(res@));
    res
}

proof fn lemma_digits_value_grows(s: Seq<char>, k: int)
    requires
        0 <= k <= s.len(),
        all_digits(s),
    ensures
        digits_value(s.take(k)) <= digits_value(s),
    decreases s.len() - k,
{
    if k == s.len() {
        assert(s.take(k) =~= s);
    } else {
        assert(s.take(k + 1).drop_last() =~= s.take(k));
        assert(is_digit(s[k]));
        lemma_digits_value_grows(s, k + 1);
    }
}

/// `s` read as a `u16`.
pub fn parse_u16_of(s: &str) -> (res: Option<u16>)
    ensures
        res == parse_u16(s@),
{
    let cs = chars_of(s);
    let from: usize = if cs.len() > 0 && cs[0] == '+' {
        1
    } else {
        0
    };
    let ghost digits = cs@.skip(from as int);
    assert(from == 0 ==> digits =~= s@);
    assert(from == 1 ==> digits =~= s@.drop_first());
    if from >= cs.len() {
        return None;
    }
    let mut value: u32 = 0;
    let mut i: usize = from;
    while i < cs.len()
        invariant
            from <= i <= cs@.len(),
            digits == cs@.skip(from as int),
            value <= u16::MAX,
            forall|j: int| 0 <= j < i - from ==> is_digit(#[trigger] digits[j]),
            value == digits_value(digits.take(i - from)),
            digits == (if s@.len() > 0 && s@.first() == '+' {
                s@.drop_first()
            } else {
                s@
            }),
        decreases cs@.len() - i,
    {
        let c = cs[i];
        assert(c == digits[i - from]);
        if !('0' <= c && c <= '9') {
            assert(!is_digit(digits[i - from]));
            return None;
        }
        value = 10 * value + (c as u32 - '0' as u32);
        assert(digits.take(i - from + 1).drop_last() =~= digits.take(i - from));
        if value > u16::MAX as u32 {
            proof {
                if all_digits(digits) {
                    lemma_digits_value_grows(digits, i - from + 1);
                }
            }
            return None;
        }
        i += 1;
    }
    assert(digits.take(i - from) =~= digits);
    Some(value as u16)
}

fn digit_text(d: u64) -> (res: &'static str)
    requires
        d < 10,
    ensures
        res@ == seq![('0' as int + d) as char],
{
    proof {
        reveal_strlit("0");
        reveal_strlit("1");
        reveal_strlit("2");
        reveal_strlit("3");
        reveal_strlit("4");
        reveal_strlit("5");
        reveal_strlit("6");
        reveal_strlit("7");
        reveal_strlit("8");
        reveal_strlit("9");
    }
    let res = match d {
        0 => "0",
        1 => "1",
        2 => "2",
        3 => "3",
        4 => "4",
        5 => "5",
        6 => "6",
        7 => "7",
        8 => "8",
        _ => "9",
    };
    assert(res@ =~= seq![('0' as int + d) as char]);
    res
}

/// The decimal digits of `n`.
pub fn decimal_of(n: u64) -> (res: String)
    ensures
        res@ == decimal(n as nat),
    decreases n,
{
    let last = digit_text(n % 10);
    if n < 10 {
        last.to_owned()
    } else {
        let mut res = decimal_of(n / 10);
        res.append(last);
        assert(res@ =~= decimal(n as nat));
        res
    }
}

/// The first `c` of `a`, `c`, `b` stands behind `a` where `a` has none.
pub proof fn lemma_split_once(a: Seq<char>, c: char, b: Seq<char>)
    requires
        !a.contains(c),
    ensures
        split_once(a + seq![c] + b, c) == Some((a, b)),
    decreases a.len(),
{
    let s = a + seq![c] + b;
    if a.len() == 0 {
        assert(s.first() == c);
    } else {
        let rest = a.drop_first();
        assert(a.contains(a[0]));
        assert forall|i: int| 0 <= i < rest.len() implies rest[i] != c by {
            assert(a.contains(a[i + 1]));
        }
        lemma_split_once(rest, c, b);
        let t = rest + seq![c] + b;
        assert(s.drop_first() =~= t);
        lemma_find_bounds(t, c);
        assert(t.take(find(t, c)) == rest);
        assert(find(t, c) == rest.len());
    }
    assert(find(s, c) == a.len());
    assert(s.take(a.len() as int) =~= a);
    assert(s.skip(a.len() as int + 1) =~= b);
}

/// Without a `c` there is nothing to split.
pub proof fn lemma_split_none(a: Seq<char>, c: char)
    requires
        !a.contains(c),
    ensures
        split_once(a, c) is None,
    decreases a.len(),
{
    if a.len() > 0 {
        let rest = a.drop_first();
        assert(a.contains(a[0]));
        assert forall|i: int| 0 <= i < rest.len() implies rest[i] != c by {
            assert(a.contains(a[i + 1]));
        }
        lemma_split_none(rest, c);
        lemma_find_bounds(rest, c);
    }
}

proof fn lemma_trim_start_side(s: Seq<char>)
    ensures
        trim_start(s).len() > 0 ==> !is_white(trim_start(s).first()),
    decreases s.len(),
{
    if s.len() > 0 && is_white(s.first()) {
        lemma_trim_start_side(s.drop_first());
    }
}

proof fn lemma_trim_end_side(s: Seq<char>)
    ensures
        trim_end(s).len() > 0 ==> !is_white(trim_end(s).last()) && trim_end(s).first() == s.first(),
    decreases s.len(),
{
    if s.len() > 0 && is_white(s.last()) {
        lemma_trim_end_side(s.drop_last());
    }
}

/// What is trimmed has no white space on its sides.
pub proof fn lemma_trim_sides(s: Seq<char>)
    ensures
        trim(s).len() > 0 ==> !is_white(trim(s).first()) && !is_white(trim(s).last()),
{
    lemma_trim_start_side(s);
    lemma_trim_end_side(trim_start(s));
}

/// The digits of a number write that number.
pub proof fn lemma_decimal_value(n: nat)
    ensures
        decimal(n).len() > 0,
        all_digits(decimal(n)),
        digits_value(decimal(n)) == n,
    decreases n,
{
    let last = ('0' as int + n % 10) as char;
    assert(is_digit(last));
    if n < 10 {
        assert(decimal(n).drop_last() =~= seq![]);
        assert(digits_value(seq![]) == 0);
    } else {
        lemma_decimal_value(n / 10);
        assert(decimal(n).drop_last() =~= decimal(n / 10));
        assert forall|i: int| 0 <= i < decimal(n).len() implies is_digit(
            #[trigger] decimal(n)[i],
        ) by {
            if i < decimal(n / 10).len() {
                assert(is_digit(decimal(n / 10)[i]));
            }
        }
    }
}

/// A port that is written in decimal is read back as that port.
pub proof fn law_port_round_trip(port: u16)
    ensures
        parse_u16(decimal(port as nat)) == Some(port),
{
    lemma_decimal_value(port as nat);
    assert(is_digit(decimal(port as nat)[0]));
}

/// A run of digits ends where something else follows: the number and what
/// follows it can be read off the text.
pub proof fn lemma_decimal_decides(m: nat, n: nat, x: Seq<char>, y: Seq<char>)
    requires
        decimal(m) + x == decimal(n) + y,
        x.len() > 0 && !is_digit(x[0]),
        y.len() > 0 && !is_digit(y[0]),
    ensures
        m == n,
        x == y,
{
    let u = decimal(m);
    let v = decimal(n);
    lemma_decimal_value(m);
    lemma_decimal_value(n);
    if u.len() < v.len() {
        assert((u + x)[u.len() as int] == x[0]);
        assert((v + y)[u.len() as int] == v[u.len() as int]);
        assert(is_digit(v[u.len() as int]));
    }
    if v.len() < u.len() {
        assert((v + y)[v.len() as int] == y[0]);
        assert((u + x)[v.len() as int] == u[v.len() as int]);
        assert(is_digit(u[v.len() as int]));
    }
    assert(u =~= (u + x).take(u.len() as int));
    assert(v =~= (v + y).take(u.len() as int));
    assert(x =~= (u + x).skip(u.len() as int));
    assert(y =~= (v + y).skip(u.len() as int));
}

/// White space is the tab, the line and page breaks, the spaces and the
/// separators of Unicode, and nothing else.
pub proof fn law_white_space(c: char)
    ensures
        is_white(c) <==> {
            let n = c as int;
            ||| 9 <= n <= 13
            ||| n == 32
            ||| n == 0x85
            ||| n == 0xa0
            ||| n == 0x1680
            ||| 0x2000 <= n <= 0x200a
            ||| 0x2028 <= n <= 0x2029
            ||| n == 0x202f
            ||| n == 0x205f
            ||| n == 0x3000
        },
{
}

proof fn lemma_trim_start(s: Seq<char>) -> (n: int)
    ensures
        0 <= n <= s.len(),
        trim_start(s) == s.skip(n),
        forall|i: int| 0 <= i < n ==> is_white(#[trigger] s[i]),
        n < s.len() ==> !is_white(s[n]),
    decreases s.len(),
{
    if s.len() > 0 && is_white(s.first()) {
        let rest = s.drop_first();
        let n = lemma_trim_start(rest);
        assert(rest.skip(n) =~= s.skip(n + 1));
        assert forall|i: int| 0 <= i < n + 1 implies is_white(#[trigger] s[i]) by {
            if i > 0 {
                assert(rest[i - 1] == s[i]);
            }
        }
        n + 1
    } else {
        assert(s.skip(0) =~= s);
        0
    }
}

proof fn lemma_trim_end(s: Seq<char>) -> (n: int)
    ensures
        0 <= n <= s.len(),
        trim_end(s) == s.take(n),
        forall|i: int| n <= i < s.len() ==> is_white(#[trigger] s[i]),
        n > 0 ==> !is_white(s[n - 1]),
    decreases s.len(),
{
    if s.len() > 0 && is_white(s.last()) {
        let rest = s.drop_last();
        let n = lemma_trim_end(rest);
        assert(rest.take(n) =~= s.take(n));
        assert forall|i: int| n <= i < s.len() implies is_white(#[trigger] s[i]) by {
            if i < rest.len() {
                assert(rest[i] == s[i]);
            }
        }
        n
    } else {
        assert(s.take(s.len() as int) =~= s);
        s.len() as int
    }
}

/// Trimming the start of a text takes off all of the white space there and
/// nothing else.
pub proof fn law_trim_start_takes_white_space(s: &str, res: &str) -> (n: int)
    requires
        call_ensures(trim_start_of, (s,), res),
    ensures
        0 <= n <= s@.len(),
        res@ == s@.skip(n),
        forall|i: int| 0 <= i < n ==> is_white(#[trigger] s@[i]),
        n < s@.len() ==> !is_white(s@[n]),
{
    lemma_trim_start(s@)
}

/// Trimming a text takes off all of the white space on both sides and nothing
/// else: what comes back is where the rest begins and where it ends.
pub proof fn law_trim_takes_white_space(s: &str, res: &str) -> (at: (int, int))
    requires
        call_ensures(trim_of, (s,), res),
    ensures
        0 <= at.0 <= at.1 <= s@.len(),
        res@ == s@.subrange(at.0, at.1),
        forall|i: int| 0 <= i < at.0 ==> is_white(#[trigger] s@[i]),
        forall|i: int| at.1 <= i < s@.len() ==> is_white(#[trigger] s@[i]),
        at.0 < at.1 ==> !is_white(s@[at.0]) && !is_white(s@[at.1 - 1]),
{
    lemma_trim(s@)
}

/// Where what is left of a text after trimming begins and ends.
pub proof fn lemma_trim(s: Seq<char>) -> (at: (int, int))
    ensures
        0 <= at.0 <= at.1 <= s.len(),
        trim(s) == s.subrange(at.0, at.1),
        forall|i: int| 0 <= i < at.0 ==> is_white(#[trigger] s[i]),
        forall|i: int| at.1 <= i < s.len() ==> is_white(#[trigger] s[i]),
        at.0 < at.1 ==> !is_white(s[at.0]) && !is_white(s[at.1 - 1]),
{
    let from = lemma_trim_start(s);
    let t = s.skip(from);
    let n = lemma_trim_end(t);
    assert(t.take(n) =~= s.subrange(from, from + n));
    assert forall|i: int| from + n <= i < s.len() implies is_white(#[trigger] s[i]) by {
        assert(t[i - from] == s[i]);
    }
    if n > 0 {
        assert(t[n - 1] == s[from + n - 1]);
    }
    (from, from + n)
}

/// Text between white space is what is left after trimming.
pub proof fn lemma_trim_between(a: Seq<char>, s: Seq<char>, b: Seq<char>)
    requires
        forall|i: int| 0 <= i < a.len() ==> is_white(#[trigger] a[i]),
        forall|i: int| 0 <= i < b.len() ==> is_white(#[trigger] b[i]),
        s.len() > 0 ==> !is_white(s.first()) && !is_white(s.last()),
    ensures
        trim(a + s + b) == s,
{
    let t = a + s + b;
    let (from, to) = lemma_trim(t);
    if s.len() == 0 {
        if from < to {
            if from < a.len() {
                assert(t[from] == a[from]);
            } else {
                assert(t[from] == b[from - a.len()]);
            }
        }
        assert(t.subrange(from, to) =~= s);
    } else {
        let n = a.len() as int;
        let m = n + s.len();
        assert(t[n] == s.first());
        assert(t[m - 1] == s.last());
        assert(from <= n);
        assert(to >= m);
        if from < n {
            assert(t[from] == a[from]);
        }
        if to > m {
            assert(t[to - 1] == b[to - 1 - m]);
        }
        assert(t.subrange(from, to) =~= s);
    }
}

/// A text is split at its first `c`: what stands before it has none, and with
/// what stands after it makes up the text. A text without `c` is not split.
pub proof fn law_split_at_the_first<'a>(
    s: &'a str,
    c: char,
    res: Option<(&'a str, &'a str)>,
)
    requires
        call_ensures(split_once_at, (s, c), res),
    ensures
        res matches Some((before, after)) ==> s@ == before@ + seq![c] + after@ && !before@.contains(
            c,
        ),
        res is None <==> !s@.contains(c),
{
    lemma_find_bounds(s@, c);
    let n = find(s@, c);
    if n < s@.len() {
        assert(s@ =~= s@.take(n) + seq![c] + s@.skip(n + 1));
        assert(s@.contains(s@[n]));
    }
}

/// A text starts with a prefix if and only if it is the prefix and something
/// behind it, which is what is left without the prefix.
pub proof fn law_prefix_is_stripped<'a>(
    s: &'a str,
    prefix: &'a str,
    rest: Seq<char>,
    res: Option<&'a str>,
)
    requires
        call_ensures(strip_prefix_of, (s, prefix), res),
    ensures
        res matches Some(r) ==> s@ == prefix@ + r@,
        s@ == prefix@ + rest ==> (res matches Some(r) && r@ == rest),
        starts_with(s@, prefix@) <==> res is Some,
{
    if s@ == prefix@ + rest {
        assert(s@.take(prefix@.len() as int) =~= prefix@);
        assert(s@.skip(prefix@.len() as int) =~= rest);
    }
    if res is Some {
        assert(s@ =~= prefix@ + s@.skip(prefix@.len() as int));
    }
}

/// The lines of a text are what stands between its line feeds, each without one
/// carriage return at its end. What follows the last line feed is a line too,
/// as it stands, unless there is nothing.
pub proof fn law_lines(line: Seq<char>, rest: Seq<char>)
    requires
        !line.contains('\n'),
    ensures
        lines(Seq::empty()).len() == 0,
        line.len() > 0 ==> lines(line) == seq![line],
        line.len() > 0 && line.last() == '\r' ==> lines(line + seq!['\n'] + rest) == seq![
            line.take(line.len() - 1),
        ] + lines(rest),
        !(line.len() > 0 && line.last() == '\r') ==> lines(line + seq!['\n'] + rest) == seq![line]
            + lines(rest),
{
    let s = line + seq!['\n'] + rest;
    lemma_split_once(line, '\n', rest);
    lemma_find_bounds(s, '\n');
    assert(s.take(find(s, '\n')) == line);
    assert(s.skip(find(s, '\n') + 1) == rest);
    if line.len() > 0 {
        lemma_split_none(line, '\n');
        lemma_find_bounds(line, '\n');
        assert(line.drop_last() =~= line.take(line.len() - 1));
    }
}

/// The lines that are read are the lines of the text.
pub proof fn law_all_lines_are_read(s: &str, res: Vec<String>, i: int)
    requires
        call_ensures(lines_of, (s,), res),
    ensures
        res@.len() == lines(s@).len(),
        0 <= i < res@.len() ==> res@[i]@ == lines(s@)[i],
{
    assert(views(res@).len() == res@.len());
    if 0 <= i < res@.len() {
        assert(views(res@)[i] == res@[i]@);
    }
}

/// A run of digits writes ten times what it writes without its last digit, plus
/// that digit.
pub proof fn law_digits_count(digits: Seq<char>, d: char)
    requires
        all_digits(digits),
        '0' <= d <= '9',
    ensures
        digits_value(Seq::empty()) == 0,
        digits_value(digits.push(d)) == 10 * digits_value(digits) + (d as int - '0' as int),
        all_digits(digits.push(d)),
{
    assert(digits.push(d).drop_last() =~= digits);
}

/// A text is read as a port if and only if it is digits, at least one, of a
/// number below 65536, with or without a plus sign before them; the port is
/// that number.
pub proof fn law_port_is_read(s: &str, digits: Seq<char>, res: Option<u16>)
    requires
        call_ensures(parse_u16_of, (s,), res),
        s@ == digits && !(s@.len() > 0 && s@[0] == '+') || s@ == seq!['+'] + digits,
    ensures
        res is Some <==> digits.len() > 0 && (forall|i: int|
            0 <= i < digits.len() ==> '0' <= #[trigger] digits[i] <= '9') && digits_value(digits)
            < 65536,
        res matches Some(port) ==> port == digits_value(digits),
{
    if s@ == seq!['+'] + digits {
        assert(s@.drop_first() =~= digits);
    }
    if forall|i: int| 0 <= i < digits.len() ==> '0' <= #[trigger] digits[i] <= '9' {
        assert(all_digits(digits));
    }
    if all_digits(digits) {
        assert forall|i: int| 0 <= i < digits.len() implies '0' <= #[trigger] digits[i] <= '9' by {
            assert(is_digit(digits[i]));
        }
    }
}

/// A number is written in digits, which write that number, without a zero in
/// front of others.
pub proof fn law_number_is_written(n: u64, res: String)
    requires
        call_ensures(decimal_of, (n,), res),
    ensures
        res@.len() > 0,
        all_digits(res@),
        digits_value(res@) == n,
        res@.len() > 1 ==> res@[0] != '0',
{
    lemma_decimal_value(n as nat);
    lemma_no_leading_zero(n as nat);
}

proof fn lemma_no_leading_zero(n: nat)
    ensures
        decimal(n).len() > 0,
        n > 0 ==> decimal(n)[0] != '0',
        n == 0 ==> decimal(n).len() == 1,
    decreases n,
{
    if n >= 10 {
        lemma_no_leading_zero(n / 10);
    }
}

/// Two texts are the same if and only if they have the same characters.
pub proof fn law_same(a: &str, b: &str, res: bool)
    requires
        call_ensures(same, (a, b), res),
    ensures
        res <==> a@.len() == b@.len() && forall|i: int|
            0 <= i < a@.len() ==> #[trigger] a@[i] == b@[i],
{
    if a@.len() == b@.len() && forall|i: int| 0 <= i < a@.len() ==> #[trigger] a@[i] == b@[i] {
        assert(a@ =~= b@);
    }
}

/// White space in front of a text that begins with none is what is taken off.
pub proof fn lemma_trim_start_between(a: Seq<char>, s: Seq<char>)
    requires
        forall|i: int| 0 <= i < a.len() ==> is_white(#[trigger] a[i]),
        s.len() > 0 ==> !is_white(s[0]),
    ensures
        trim_start(a + s) == s,
{
    let t = a + s;
    let n = lemma_trim_start(t);
    if n < a.len() {
        assert(t[n] == a[n]);
    }
    if n > a.len() {
        assert(t[a.len() as int] == s[0]);
    }
    assert(t.skip(a.len() as int) =~= s);
}

} // verus!
