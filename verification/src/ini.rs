//! Files of `key=value` lines, in which a running emulator describes itself.

use vstd::hash_map::StringHashMap;
use vstd::prelude::*;

use crate::text::{self, lines_of, split_once_at, trim_of};

verus! {

/// The key and the value that a line gives, if any: a line that is blank,
/// starts with `#` or has no `=` gives none.
pub open spec fn ini_entry(line: Seq<char>) -> Option<(Seq<char>, Seq<char>)> {
    let l = text::trim(line);
    if l.len() == 0 || l[0] == '#' {
        None
    } else {
        match text::split_once(l, '=') {
            Some((k, v)) => Some((text::trim(k), text::trim(v))),
            None => None,
        }
    }
}

/// The values of all keys in the lines. A later line replaces an earlier one
/// with the same key.
pub open spec fn ini_map(lines: Seq<Seq<char>>) -> Map<Seq<char>, Seq<char>>
    decreases lines.len(),
{
    if lines.len() == 0 {
        Map::empty()
    } else {
        let before = ini_map(lines.drop_last());
        match ini_entry(lines.last()) {
            Some((k, v)) => before.insert(k, v),
            None => before,
        }
    }
}

/// The characters of each value.
pub open spec fn values(m: Map<Seq<char>, String>) -> Map<Seq<char>, Seq<char>> {
    m.map_values(|s: String| s@)
}

/// Parse a simple INI-style file with key=value pairs
pub fn parse_ini(content: &str) -> (res: StringHashMap<String>)
    ensures
        values(res@) == ini_map(text::lines(content@)),
{
    let lines = lines_of(content);
    let mut res: StringHashMap<String> = StringHashMap::new();
    let ghost all = text::views(lines@);
    assert(values(res@) =~= Map::empty());
    for i in 0..lines.len()
        invariant
            all == text::views(lines@),
            values(res@) == ini_map(all.take(i as int)),
    {
        let ghost before = res@;
        let line = trim_of(lines[i].as_str());
        assert(all.take(i + 1).drop_last() =~= all.take(i as int));
        assert(all.take(i + 1).last() == lines@[i as int]@);
        if line.unicode_len() > 0 && line.get_char(0) != '#' {
            if let Some((k, v)) = split_once_at(line, '=') {
                let key = trim_of(k).to_owned();
                let value = trim_of(v).to_owned();
                res.insert(key, value);
                assert(values(res@) =~= values(before).insert(key@, value@));
            }
        }
    }
    assert(all.take(lines@.len() as int) =~= all);
    res
}

/// Whether the line gives a value to `k`.
pub open spec fn gives(line: Seq<char>, k: Seq<char>) -> bool {
    ini_entry(line) matches Some((key, _)) && key == k
}

/// The value of a key is that of the last line that gives it one.
pub proof fn law_last_line_wins(lines: Seq<Seq<char>>, i: int, k: Seq<char>, v: Seq<char>)
    requires
        0 <= i < lines.len(),
        ini_entry(lines[i]) == Some((k, v)),
        forall|j: int| i < j < lines.len() ==> !gives(#[trigger] lines[j], k),
    ensures
        ini_map(lines).contains_key(k),
        ini_map(lines)[k] == v,
    decreases lines.len(),
{
    if i < lines.len() - 1 {
        let before = lines.drop_last();
        assert(!gives(lines[lines.len() - 1], k));
        assert forall|j: int| i < j < before.len() implies !gives(#[trigger] before[j], k) by {
            assert(before[j] == lines[j]);
        }
        law_last_line_wins(before, i, k, v);
    }
}

/// A key has a value only where a line gives it one.
pub proof fn law_values_come_from_lines(lines: Seq<Seq<char>>, k: Seq<char>) -> (i: int)
    requires
        ini_map(lines).contains_key(k),
    ensures
        0 <= i < lines.len(),
        ini_entry(lines[i]) == Some((k, ini_map(lines)[k])),
    decreases lines.len(),
{
    let last = lines.len() - 1;
    if gives(lines[last], k) {
        last
    } else {
        let before = lines.drop_last();
        law_values_come_from_lines(before, k)
    }
}

/// Whether `s` has no white space on its sides.
pub open spec fn is_trimmed(s: Seq<char>) -> bool {
    s.len() > 0 ==> !text::is_white(s.first()) && !text::is_white(s.last())
}

/// A line that is made of a key and a value gives that value to that key,
/// where neither has white space on its sides, and the key does not start with
/// `#` and has no `=`.
pub proof fn law_entry_is_read_back(k: Seq<char>, v: Seq<char>)
    requires
        is_trimmed(k),
        is_trimmed(v),
        k.len() > 0 ==> k[0] != '#',
        !k.contains('='),
    ensures
        ini_entry(k + seq!['='] + v) == Some((k, v)),
{
    let line = k + seq!['='] + v;
    assert(line.first() == if k.len() > 0 {
        k.first()
    } else {
        '='
    });
    assert(line.last() == if v.len() > 0 {
        v.last()
    } else {
        '='
    });
    assert(text::trim(line) == line);
    text::lemma_split_once(k, '=', v);
    assert(text::trim(k) == k);
    assert(text::trim(v) == v);
}

/// A line gives the value behind its first `=` to the key before it, each
/// without the white space around it, unless the line is a comment. The
/// arguments are the key, the value and the white space around them.
pub proof fn law_line_gives_its_value(
    k: Seq<char>,
    v: Seq<char>,
    before: Seq<char>,
    after_key: Seq<char>,
    before_value: Seq<char>,
    after: Seq<char>,
)
    requires
        forall|i: int| 0 <= i < before.len() ==> text::is_white(#[trigger] before[i]),
        forall|i: int| 0 <= i < after_key.len() ==> text::is_white(#[trigger] after_key[i]),
        forall|i: int| 0 <= i < before_value.len() ==> text::is_white(#[trigger] before_value[i]),
        forall|i: int| 0 <= i < after.len() ==> text::is_white(#[trigger] after[i]),
        k.len() > 0 ==> !text::is_white(k.first()) && !text::is_white(k.last()) && k[0] != '#',
        v.len() > 0 ==> !text::is_white(v.first()) && !text::is_white(v.last()),
        !k.contains('='),
    ensures
        ini_entry(before + k + after_key + seq!['='] + before_value + v + after) == Some((k, v)),
{
    let none = Seq::<char>::empty();
    let line = before + k + after_key + seq!['='] + before_value + v + after;
    // What is left of the line: an empty key or value loses its white space.
    let key = if k.len() > 0 {
        k + after_key
    } else {
        none
    };
    let value = if v.len() > 0 {
        before_value + v
    } else {
        none
    };
    let left = key + seq!['='] + value;
    let lead = if k.len() > 0 {
        before
    } else {
        before + after_key
    };
    let trail = if v.len() > 0 {
        after
    } else {
        before_value + after
    };
    assert(line =~= lead + left + trail);
    assert(left.first() == if k.len() > 0 {
        k.first()
    } else {
        '='
    });
    assert(left.last() == if v.len() > 0 {
        v.last()
    } else {
        '='
    });
    text::lemma_trim_between(lead, left, trail);
    assert(!key.contains('=')) by {
        assert forall|i: int| 0 <= i < key.len() implies key[i] != '=' by {
            if i < k.len() {
                assert(k.contains(k[i]));
            } else {
                assert(text::is_white(after_key[i - k.len()]));
            }
        }
    }
    text::lemma_split_once(key, '=', value);
    if k.len() > 0 {
        assert(none + k + after_key =~= key);
        text::lemma_trim_between(none, k, after_key);
    } else {
        assert(none + k + none =~= key);
        text::lemma_trim_between(none, k, none);
    }
    if v.len() > 0 {
        assert(before_value + v + none =~= value);
        text::lemma_trim_between(before_value, v, none);
    } else {
        assert(none + v + none =~= value);
        text::lemma_trim_between(none, v, none);
    }
}

/// A line that is blank, that is a comment or that has no `=` gives nothing.
pub proof fn law_line_gives_nothing(white: Seq<char>, rest: Seq<char>)
    requires
        forall|i: int| 0 <= i < white.len() ==> text::is_white(#[trigger] white[i]),
    ensures
        ini_entry(white) is None,
        ini_entry(white + seq!['#'] + rest) is None,
        !rest.contains('=') ==> ini_entry(rest) is None,
{
    let none = Seq::<char>::empty();
    assert(white + none + none =~= white);
    text::lemma_trim_between(white, none, none);
    let comment = white + seq!['#'] + rest;
    let (from, to) = text::lemma_trim(comment);
    let n = white.len() as int;
    assert(comment[n] == '#');
    assert(from <= n < to);
    if from < n {
        assert(comment[from] == white[from]);
    }
    assert(comment.subrange(from, to)[0] == '#');
    if !rest.contains('=') {
        let (a, b) = text::lemma_trim(rest);
        let l = rest.subrange(a, b);
        assert forall|i: int| 0 <= i < l.len() implies l[i] != '=' by {
            assert(rest.contains(rest[a + i]));
        }
        text::lemma_split_none(l, '=');
    }
}

/// What is read of a file is what its lines give, the last of them where more
/// than one gives a value to the same key, and nothing else.
pub proof fn law_file_is_read(
    content: &str,
    res: StringHashMap<String>,
    i: int,
    k: Seq<char>,
    v: Seq<char>,
)
    requires
        call_ensures(parse_ini, (content,), res),
    ensures
        ({
            let lines = text::lines(content@);
            &&& 0 <= i < lines.len() && ini_entry(lines[i]) == Some((k, v)) && (forall|j: int|
                i < j < lines.len() ==> !(ini_entry(#[trigger] lines[j]) matches Some(e) && e.0
                    == k)) ==> res@.contains_key(k) && res@[k]@ == v
            &&& (forall|j: int|
                0 <= j < lines.len() ==> !(ini_entry(#[trigger] lines[j]) matches Some(e) && e.0
                    == k)) ==> !res@.contains_key(k)
        }),
{
    let lines = text::lines(content@);
    let map = ini_map(lines);
    assert(values(res@) == map);
    assert(res@.contains_key(k) == values(res@).contains_key(k));
    if 0 <= i < lines.len() && ini_entry(lines[i]) == Some((k, v)) && (forall|j: int|
        i < j < lines.len() ==> !(ini_entry(#[trigger] lines[j]) matches Some(e) && e.0 == k)) {
        assert forall|j: int| i < j < lines.len() implies !gives(#[trigger] lines[j], k) by {}
        law_last_line_wins(lines, i, k, v);
        assert(values(res@)[k] == res@[k]@);
    }
    if (forall|j: int|
        0 <= j < lines.len() ==> !(ini_entry(#[trigger] lines[j]) matches Some(e) && e.0 == k)) {
        if map.contains_key(k) {
            let j = law_values_come_from_lines(lines, k);
            assert(ini_entry(lines[j]) matches Some(e) && e.0 == k);
        }
    }
}

} // verus!
