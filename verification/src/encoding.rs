//! The two encodings that tokens are made of: unpadded URL-safe Base64, and
//! strings in JSON.

use vstd::prelude::*;

use base64::Engine;

verus! {

/// The character that stands for the six bits `v`.
pub open spec fn base64url_char(v: int) -> char {
    if v < 26 {
        ('A' as int + v) as char
    } else if v < 52 {
        ('a' as int + v - 26) as char
    } else if v < 62 {
        ('0' as int + v - 52) as char
    } else if v == 62 {
        '-'
    } else {
        '_'
    }
}

/// The byte at `i`, or zero beyond the end.
pub open spec fn octet(b: Seq<u8>, i: int) -> int {
    if 0 <= i < b.len() {
        b[i] as int
    } else {
        0
    }
}

/// The `i`th group of six bits of `b`, first bits first.
pub open spec fn sextet(b: Seq<u8>, i: int) -> int {
    let k = 3 * (i / 4);
    if i % 4 == 0 {
        octet(b, k) / 4
    } else if i % 4 == 1 {
        octet(b, k) % 4 * 16 + octet(b, k + 1) / 16
    } else if i % 4 == 2 {
        octet(b, k + 1) % 16 * 4 + octet(b, k + 2) / 64
    } else {
        octet(b, k + 2) % 64
    }
}

/// `b` in the URL-safe alphabet of RFC 4648, without padding.
pub open spec fn base64url(b: Seq<u8>) -> Seq<char> {
    Seq::new(((4 * b.len() + 2) / 3) as nat, |i: int| base64url_char(sextet(b, i)))
}

/// `base64::engine::general_purpose::URL_SAFE_NO_PAD.encode`. The contract is
/// the encoding of RFC 4648, section 5, without padding characters.
#[verifier::external_body]
pub(crate) fn base64url_of(b: &[u8]) -> (res: String)
    ensures
        res@ == base64url(b@),
{
    base64::engine::general_purpose::URL_SAFE_NO_PAD.encode(b)
}

/// The lower-case hexadecimal digit of `v`.
pub open spec fn hex_digit(v: int) -> char {
    if v < 10 {
        ('0' as int + v) as char
    } else {
        ('a' as int + v - 10) as char
    }
}

/// How `c` is written within a JSON string.
pub open spec fn json_escape(c: char) -> Seq<char> {
    if c == '"' || c == '\\' {
        seq!['\\', c]
    } else if c == '\u{8}' {
        seq!['\\', 'b']
    } else if c == '\u{c}' {
        seq!['\\', 'f']
    } else if c == '\n' {
        seq!['\\', 'n']
    } else if c == '\r' {
        seq!['\\', 'r']
    } else if c == '\t' {
        seq!['\\', 't']
    } else if (c as int) < 0x20 {
        seq!['\\', 'u', '0', '0', hex_digit(c as int / 16), hex_digit(c as int % 16)]
    } else {
        seq![c]
    }
}

/// How the characters of `s` are written within a JSON string.
pub open spec fn json_escaped(s: Seq<char>) -> Seq<char>
    decreases s.len(),
{
    if s.len() == 0 {
        seq![]
    } else {
        json_escape(s.first()) + json_escaped(s.drop_first())
    }
}

/// `s` as a JSON string, with its quotes.
pub open spec fn json_string(s: Seq<char>) -> Seq<char> {
    seq!['"'] + json_escaped(s) + seq!['"']
}

/// `items` as the elements of a JSON array, without its brackets.
pub open spec fn json_items(items: Seq<Seq<char>>) -> Seq<char>
    decreases items.len(),
{
    if items.len() == 0 {
        seq![]
    } else if items.len() == 1 {
        json_string(items.first())
    } else {
        json_string(items.first()) + seq![','] + json_items(items.drop_first())
    }
}

/// `items` as a JSON array of strings.
pub open spec fn json_array(items: Seq<Seq<char>>) -> Seq<char> {
    seq!['['] + json_items(items) + seq![']']
}

/// `serde_json::to_string` of a string. The contract is the compact form that
/// serde_json writes: the string in quotes, with quotes, backslashes and
/// control characters escaped and every other character as it is.
/// Writing a string to memory does not fail: serde_json documents that only a
/// failing `Serialize` or a map without string keys can make it fail.
#[verifier::external_body]
pub(crate) fn json_string_of(s: &str) -> (res: Result<String, serde_json::Error>)
    ensures
        res is Ok,
        res->Ok_0@ == json_string(s@),
{
    serde_json::to_string(s)
}

/// An error of serde_json, which is only ever passed on.
#[verifier::external_type_specification]
#[verifier::external_body]
pub struct ExJsonError(serde_json::Error);

/// Each character of the alphabet stands for one group of six bits, and none
/// of them is a full stop.
pub proof fn lemma_base64url_char(v: int, w: int)
    requires
        0 <= v < 64,
        0 <= w < 64,
    ensures
        base64url_char(v) != '.',
        base64url_char(v) == base64url_char(w) ==> v == w,
{
}

proof fn lemma_sextet_range(b: Seq<u8>, i: int)
    requires
        0 <= i,
    ensures
        0 <= sextet(b, i) < 64,
{
    let k = 3 * (i / 4);
    assert(0 <= octet(b, k) < 256);
    assert(0 <= octet(b, k + 1) < 256);
    assert(0 <= octet(b, k + 2) < 256);
}

/// Encoded bytes hold no full stop.
pub proof fn lemma_base64url_no_stop(b: Seq<u8>)
    ensures
        !base64url(b).contains('.'),
{
    assert forall|i: int| 0 <= i < base64url(b).len() implies base64url(b)[i] != '.' by {
        lemma_sextet_range(b, i);
        lemma_base64url_char(sextet(b, i), 0);
    }
}

/// Encoded bytes are printable ASCII characters.
pub proof fn lemma_base64url_printable(b: Seq<u8>)
    ensures
        forall|i: int| 0 <= i < base64url(b).len() ==> '-' <= #[trigger] base64url(b)[i] <= 'z',
{
    assert forall|i: int| 0 <= i < base64url(b).len() implies '-' <= #[trigger] base64url(b)[i]
        <= 'z' by {
        lemma_sextet_range(b, i);
        assert(base64url(b)[i] == base64url_char(sextet(b, i)));
    }
}

/// The encoding can be undone: different bytes are encoded differently.
pub proof fn lemma_base64url_injective(a: Seq<u8>, b: Seq<u8>)
    requires
        base64url(a) == base64url(b),
    ensures
        a == b,
{
    assert(base64url(a).len() == (4 * a.len() + 2) / 3);
    assert(base64url(b).len() == (4 * b.len() + 2) / 3);
    assert(a.len() == b.len());
    assert forall|i: int| 0 <= i < base64url(a).len() implies sextet(a, i) == sextet(b, i) by {
        lemma_sextet_range(a, i);
        lemma_sextet_range(b, i);
        assert(base64url(a)[i] == base64url_char(sextet(a, i)));
        assert(base64url(b)[i] == base64url_char(sextet(b, i)));
        lemma_base64url_char(sextet(a, i), sextet(b, i));
    }
    assert forall|j: int| 0 <= j < a.len() implies a[j] == b[j] by {
        let k = j / 3;
        let i = 4 * k;
        assert(0 <= octet(a, j) < 256 && 0 <= octet(b, j) < 256);
        if j % 3 == 0 {
            assert(sextet(a, i) == sextet(b, i));
            assert(sextet(a, i + 1) == sextet(b, i + 1));
        } else if j % 3 == 1 {
            assert(sextet(a, i + 1) == sextet(b, i + 1));
            assert(sextet(a, i + 2) == sextet(b, i + 2));
        } else {
            assert(sextet(a, i + 2) == sextet(b, i + 2));
            assert(sextet(a, i + 3) == sextet(b, i + 3));
        }
    }
    assert(a =~= b);
}

proof fn lemma_json_escape_decides(c: char, d: char, x: Seq<char>, y: Seq<char>)
    requires
        json_escape(c) + x == json_escape(d) + y,
    ensures
        c == d,
        x == y,
{
    let l = json_escape(c) + x;
    let r = json_escape(d) + y;
    assert(l[0] == json_escape(c)[0] && r[0] == json_escape(d)[0]);
    if json_escape(c)[0] == '\\' {
        assert(l[1] == json_escape(c)[1] && r[1] == json_escape(d)[1]);
        if json_escape(c)[1] == 'u' {
            assert(l[4] == json_escape(c)[4] && r[4] == json_escape(d)[4]);
            assert(l[5] == json_escape(c)[5] && r[5] == json_escape(d)[5]);
        }
    }
    assert(c == d);
    assert(x =~= l.skip(json_escape(c).len() as int));
    assert(y =~= r.skip(json_escape(c).len() as int));
}

proof fn lemma_json_escaped_decides(a: Seq<char>, b: Seq<char>, x: Seq<char>, y: Seq<char>)
    requires
        json_escaped(a) + (seq!['"'] + x) == json_escaped(b) + (seq!['"'] + y),
    ensures
        a == b,
        x == y,
    decreases a.len(),
{
    let l = json_escaped(a) + (seq!['"'] + x);
    let r = json_escaped(b) + (seq!['"'] + y);
    if a.len() == 0 && b.len() == 0 {
        assert(a =~= b);
        assert(x =~= l.skip(1));
        assert(y =~= r.skip(1));
    } else if a.len() == 0 {
        assert(l[0] == '"');
        assert(r[0] == json_escape(b.first())[0]);
    } else if b.len() == 0 {
        assert(r[0] == '"');
        assert(l[0] == json_escape(a.first())[0]);
    } else {
        let ta = json_escaped(a.drop_first()) + (seq!['"'] + x);
        let tb = json_escaped(b.drop_first()) + (seq!['"'] + y);
        assert(l =~= json_escape(a.first()) + ta);
        assert(r =~= json_escape(b.first()) + tb);
        lemma_json_escape_decides(a.first(), b.first(), ta, tb);
        lemma_json_escaped_decides(a.drop_first(), b.drop_first(), x, y);
        assert(a =~= seq![a.first()] + a.drop_first());
        assert(b =~= seq![b.first()] + b.drop_first());
    }
}

/// A JSON string says where it ends: what it holds and what follows it can be
/// read off the text.
pub proof fn lemma_json_string_decides(a: Seq<char>, b: Seq<char>, x: Seq<char>, y: Seq<char>)
    requires
        json_string(a) + x == json_string(b) + y,
    ensures
        a == b,
        x == y,
{
    let l = json_string(a) + x;
    let r = json_string(b) + y;
    assert(json_escaped(a) + (seq!['"'] + x) =~= l.skip(1));
    assert(json_escaped(b) + (seq!['"'] + y) =~= r.skip(1));
    lemma_json_escaped_decides(a, b, x, y);
}

proof fn lemma_json_items_decides(
    a: Seq<Seq<char>>,
    b: Seq<Seq<char>>,
    x: Seq<char>,
    y: Seq<char>,
)
    requires
        a.len() > 0,
        b.len() > 0,
        json_items(a) + (seq![']'] + x) == json_items(b) + (seq![']'] + y),
    ensures
        a == b,
        x == y,
    decreases a.len(),
{
    let l = json_items(a) + (seq![']'] + x);
    let r = json_items(b) + (seq![']'] + y);
    let ta = if a.len() == 1 {
        seq![']'] + x
    } else {
        seq![','] + (json_items(a.drop_first()) + (seq![']'] + x))
    };
    let tb = if b.len() == 1 {
        seq![']'] + y
    } else {
        seq![','] + (json_items(b.drop_first()) + (seq![']'] + y))
    };
    assert(l =~= json_string(a.first()) + ta);
    assert(r =~= json_string(b.first()) + tb);
    lemma_json_string_decides(a.first(), b.first(), ta, tb);
    assert(ta[0] == tb[0]);
    if a.len() == 1 {
        assert(a =~= seq![a.first()] && b =~= seq![b.first()]);
        assert(x =~= ta.skip(1) && y =~= tb.skip(1));
    } else {
        assert(json_items(a.drop_first()) + (seq![']'] + x) =~= ta.skip(1));
        assert(json_items(b.drop_first()) + (seq![']'] + y) =~= tb.skip(1));
        lemma_json_items_decides(a.drop_first(), b.drop_first(), x, y);
        assert(a =~= seq![a.first()] + a.drop_first());
        assert(b =~= seq![b.first()] + b.drop_first());
    }
}

/// A JSON array of strings says where it ends, as a JSON string does.
pub proof fn lemma_json_array_decides(
    a: Seq<Seq<char>>,
    b: Seq<Seq<char>>,
    x: Seq<char>,
    y: Seq<char>,
)
    requires
        json_array(a) + x == json_array(b) + y,
    ensures
        a == b,
        x == y,
{
    let l = json_array(a) + x;
    let r = json_array(b) + y;
    let la = json_items(a) + (seq![']'] + x);
    let lb = json_items(b) + (seq![']'] + y);
    assert(la =~= l.skip(1));
    assert(lb =~= r.skip(1));
    if a.len() == 0 || b.len() == 0 {
        if a.len() > 0 {
            assert(la[0] == '"');
            assert(lb[0] == ']');
        }
        if b.len() > 0 {
            assert(lb[0] == '"');
            assert(la[0] == ']');
        }
        assert(a =~= b);
        assert(x =~= la.skip(1) && y =~= lb.skip(1));
    } else {
        lemma_json_items_decides(a, b, x, y);
    }
}

/// A JSON array is its strings between brackets, with a comma between any two:
/// without strings it is the brackets alone, and a string that is added stands
/// behind the others.
pub proof fn law_json_array_grows(items: Seq<Seq<char>>, item: Seq<char>)
    ensures
        json_array(Seq::<Seq<char>>::empty()) == seq!['[', ']'],
        json_array(seq![item]) == seq!['['] + json_string(item) + seq![']'],
        items.len() > 0 ==> json_array(items.push(item)) == json_array(items).drop_last() + seq![
            ',',
        ] + json_string(item) + seq![']'],
{
    assert(json_array(Seq::<Seq<char>>::empty()) =~= seq!['[', ']']);
    assert(json_array(seq![item]) =~= seq!['['] + json_string(item) + seq![']']);
    if items.len() > 0 {
        lemma_json_items_push(items, item);
        assert(json_array(items).drop_last() =~= seq!['['] + json_items(items));
        assert(json_array(items.push(item)) =~= json_array(items).drop_last() + seq![',']
            + json_string(item) + seq![']']);
    }
}

proof fn lemma_json_items_push(items: Seq<Seq<char>>, item: Seq<char>)
    requires
        items.len() > 0,
    ensures
        json_items(items.push(item)) == json_items(items) + seq![','] + json_string(item),
    decreases items.len(),
{
    let more = items.push(item);
    assert(more.first() == items.first());
    if items.len() == 1 {
        assert(more.drop_first() =~= seq![item]);
        assert(json_items(seq![item]) == json_string(item));
        assert(json_items(more) == json_string(items.first()) + seq![','] + json_string(item));
    } else {
        lemma_json_items_push(items.drop_first(), item);
        assert(more.drop_first() =~= items.drop_first().push(item));
        assert(json_items(more) =~= json_items(items) + seq![','] + json_string(item));
    }
}

} // verus!
