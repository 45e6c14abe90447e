//! Writing a text as the body of a JSON string: the characters that JSON does
//! not take as they are, the quote, the backslash and the control characters,
//! are written as escapes.

use crate::text::chars_of;
use vstd::prelude::*;

verus! {

/// Whether `c` is a control character, one below U+0020.
pub open spec fn is_control(c: char) -> bool {
    (c as u32) < 0x20
}

/// The lower-case hexadecimal digit for a value below sixteen.
pub open spec fn hex_digit(d: nat) -> char
    recommends
        d < 16,
{
    if d == 0 {
        '0'
    } else if d == 1 {
        '1'
    } else if d == 2 {
        '2'
    } else if d == 3 {
        '3'
    } else if d == 4 {
        '4'
    } else if d == 5 {
        '5'
    } else if d == 6 {
        '6'
    } else if d == 7 {
        '7'
    } else if d == 8 {
        '8'
    } else if d == 9 {
        '9'
    } else if d == 10 {
        'a'
    } else if d == 11 {
        'b'
    } else if d == 12 {
        'c'
    } else if d == 13 {
        'd'
    } else if d == 14 {
        'e'
    } else {
        'f'
    }
}

/// The value of a hexadecimal digit, in either case; `None` for every other
/// character.
pub open spec fn hex_value(c: char) -> Option<nat> {
    if c == '0' {
        Some(0)
    } else if c == '1' {
        Some(1)
    } else if c == '2' {
        Some(2)
    } else if c == '3' {
        Some(3)
    } else if c == '4' {
        Some(4)
    } else if c == '5' {
        Some(5)
    } else if c == '6' {
        Some(6)
    } else if c == '7' {
        Some(7)
    } else if c == '8' {
        Some(8)
    } else if c == '9' {
        Some(9)
    } else if c == 'a' || c == 'A' {
        Some(10)
    } else if c == 'b' || c == 'B' {
        Some(11)
    } else if c == 'c' || c == 'C' {
        Some(12)
    } else if c == 'd' || c == 'D' {
        Some(13)
    } else if c == 'e' || c == 'E' {
        Some(14)
    } else if c == 'f' || c == 'F' {
        Some(15)
    } else {
        None
    }
}

/// Whether `c` stands in a JSON string as it is: every character but the
/// quote, the backslash and the control characters.
pub open spec fn is_plain(c: char) -> bool {
    c != '"' && c != '\\' && !is_control(c)
}

/// How one character is written in a JSON string: a plain character as it
/// is; the quote and the backslash behind a backslash; backspace, tab, line
/// feed, form feed and carriage return by their letter behind a backslash;
/// every other control character as `\u00` and its two hexadecimal digits.
pub open spec fn escaped_char(c: char) -> Seq<char> {
    if c == '"' {
        seq!['\\', '"']
    } else if c == '\\' {
        seq!['\\', '\\']
    } else if c == '\u{8}' {
        seq!['\\', 'b']
    } else if c == '\t' {
        seq!['\\', 't']
    } else if c == '\n' {
        seq!['\\', 'n']
    } else if c == '\u{c}' {
        seq!['\\', 'f']
    } else if c == '\r' {
        seq!['\\', 'r']
    } else if is_control(c) {
        seq![
            '\\',
            'u',
            '0',
            '0',
            hex_digit((c as u32 / 16) as nat),
            hex_digit((c as u32 % 16) as nat),
        ]
    } else {
        seq![c]
    }
}

/// `s` as the body of a JSON string: each character written as
/// `escaped_char` says, in order.
pub open spec fn json_escaped(s: Seq<char>) -> Seq<char>
    decreases s.len(),
{
    if s.len() == 0 {
        Seq::empty()
    } else {
        escaped_char(s[0]) + json_escaped(s.drop_first())
    }
}

/// The character that a letter behind a backslash stands for, in a JSON
/// string; `None` for a letter that JSON gives no meaning.
pub open spec fn escape_letter(c: char) -> Option<char> {
    if c == '"' {
        Some('"')
    } else if c == '\\' {
        Some('\\')
    } else if c == '/' {
        Some('/')
    } else if c == 'b' {
        Some('\u{8}')
    } else if c == 't' {
        Some('\t')
    } else if c == 'n' {
        Some('\n')
    } else if c == 'f' {
        Some('\u{c}')
    } else if c == 'r' {
        Some('\r')
    } else {
        None
    }
}

/// The number that four hexadecimal digits write, if they are such digits.
pub open spec fn hex4(a: char, b: char, c: char, d: char) -> Option<nat> {
    if hex_value(a) is Some && hex_value(b) is Some && hex_value(c) is Some && hex_value(d)
        is Some {
        Some(
            ((hex_value(a).unwrap() * 16 + hex_value(b).unwrap()) * 16 + hex_value(c).unwrap()) * 16
                + hex_value(d).unwrap(),
        )
    } else {
        None
    }
}

/// `rest` with `c` in front, where there is a `rest`.
pub open spec fn with_first(c: char, rest: Option<Seq<char>>) -> Option<Seq<char>> {
    match rest {
        Some(r) => Some(seq![c] + r),
        None => None,
    }
}

/// The text that the body `t` of a JSON string stands for. `None` where `t`
/// is no such body: it holds a bare quote or a control character, or a
/// backslash that no escape follows. A `\u` escape is read where it names a
/// character below U+D800; a body that writes a character as a pair of
/// surrogates reads as `None` too.
pub open spec fn json_decoded(t: Seq<char>) -> Option<Seq<char>>
    decreases t.len(),
{
    if t.len() == 0 {
        Some(Seq::empty())
    } else if t[0] == '\\' {
        if t.len() < 2 {
            None
        } else if t[1] == 'u' {
            if t.len() < 6 {
                None
            } else {
                match hex4(t[2], t[3], t[4], t[5]) {
                    Some(code) => if code < 0xD800 {
                        with_first(code as char, json_decoded(t.skip(6)))
                    } else {
                        None
                    },
                    None => None,
                }
            }
        } else {
            match escape_letter(t[1]) {
                Some(c) => with_first(c, json_decoded(t.skip(2))),
                None => None,
            }
        }
    } else if is_plain(t[0]) {
        with_first(t[0], json_decoded(t.skip(1)))
    } else {
        None
    }
}

/// Escaping goes character by character: the escaped form of two texts one
/// after the other is the escaped form of the first and then that of the
/// second.
pub proof fn lemma_json_escaped_concat(a: Seq<char>, b: Seq<char>)
    ensures
        json_escaped(a + b) == json_escaped(a) + json_escaped(b),
    decreases a.len(),
{
    if a.len() == 0 {
        assert(a + b =~= b);
        assert(json_escaped(a) + json_escaped(b) =~= json_escaped(b));
    } else {
        lemma_json_escaped_concat(a.drop_first(), b);
        assert((a + b).drop_first() =~= a.drop_first() + b);
        assert((a + b)[0] == a[0]);
        assert(escaped_char(a[0]) + (json_escaped(a.drop_first()) + json_escaped(b))
            =~= (escaped_char(a[0]) + json_escaped(a.drop_first())) + json_escaped(b));
    }
}

/// A text of plain characters is its own escaped form.
pub proof fn lemma_json_escaped_plain(s: Seq<char>)
    requires
        forall|i: int| 0 <= i < s.len() ==> is_plain(#[trigger] s[i]),
    ensures
        json_escaped(s) == s,
    decreases s.len(),
{
    if s.len() > 0 {
        let rest = s.drop_first();
        assert forall|i: int| 0 <= i < rest.len() implies is_plain(#[trigger] rest[i]) by {
            assert(rest[i] == s[i + 1]);
        }
        lemma_json_escaped_plain(rest);
        assert(is_plain(s[0]));
        assert(escaped_char(s[0]) =~= seq![s[0]]);
        assert(seq![s[0]] + rest =~= s);
    }
}

/// What `escaped_char` writes for a character reads back as that character,
/// whatever follows.
pub proof fn lemma_escaped_char_decodes(c: char, rest: Seq<char>)
    ensures
        json_decoded(escaped_char(c) + rest) == with_first(c, json_decoded(rest)),
{
    let e = escaped_char(c);
    let t = e + rest;
    if c == '"' || c == '\\' || c == '\u{8}' || c == '\t' || c == '\n' || c == '\u{c}' || c
        == '\r' {
        assert(t[0] == '\\');
        assert(t[1] == e[1]);
        assert(escape_letter(t[1]) == Some(c));
        assert(t.skip(2) =~= rest);
    } else if is_control(c) {
        let code = c as u32;
        let hi = (code / 16) as nat;
        let lo = (code % 16) as nat;
        assert(t[0] == '\\' && t[1] == 'u' && t[2] == '0' && t[3] == '0');
        assert(t[4] == hex_digit(hi) && t[5] == hex_digit(lo));
        assert(hex_value(hex_digit(hi)) == Some(hi));
        assert(hex_value(hex_digit(lo)) == Some(lo));
        assert(hex4(t[2], t[3], t[4], t[5]) == Some(code as nat));
        assert(code as nat as char == c);
        assert(t.skip(6) =~= rest);
    } else {
        assert(is_plain(c));
        assert(t[0] == c);
        assert(t.skip(1) =~= rest);
    }
}

/// The escaped form of a text reads back as that text.
pub proof fn lemma_json_round_trip(s: Seq<char>)
    ensures
        json_decoded(json_escaped(s)) == Some(s),
    decreases s.len(),
{
    if s.len() > 0 {
        let rest = s.drop_first();
        lemma_json_round_trip(rest);
        lemma_escaped_char_decodes(s[0], json_escaped(rest));
        assert(seq![s[0]] + rest =~= s);
    }
}

/// What `escaped_char` writes holds no control character, and a quote only
/// right behind a backslash.
pub proof fn lemma_escaped_char_is_clean(c: char)
    ensures
        escaped_char(c).len() > 0,
        escaped_char(c)[0] != '"',
        forall|i: int|
            0 <= i < escaped_char(c).len() ==> !is_control(#[trigger] escaped_char(c)[i]),
        forall|i: int|
            0 < i < escaped_char(c).len() && #[trigger] escaped_char(c)[i] == '"' ==> escaped_char(
                c,
            )[i - 1] == '\\',
{
    let e = escaped_char(c);
    if c != '"' && c != '\\' && c != '\u{8}' && c != '\t' && c != '\n' && c != '\u{c}' && c
        != '\r' && is_control(c) {
        let hi = (c as u32 / 16) as nat;
        let lo = (c as u32 % 16) as nat;
        assert(e[4] == hex_digit(hi));
        assert(e[5] == hex_digit(lo));
        assert(!is_control(hex_digit(hi)) && hex_digit(hi) != '"');
        assert(!is_control(hex_digit(lo)) && hex_digit(lo) != '"');
    }
}

/// The escaped form of a text holds no control character, and no bare quote:
/// a quote stands in it only right behind a backslash.
pub proof fn lemma_json_escaped_is_clean(s: Seq<char>)
    ensures
        forall|i: int| 0 <= i < json_escaped(s).len() ==> !is_control(#[trigger] json_escaped(s)[i]),
        forall|i: int|
            0 <= i < json_escaped(s).len() && #[trigger] json_escaped(s)[i] == '"' ==> i > 0
                && json_escaped(s)[i - 1] == '\\',
    decreases s.len(),
{
    if s.len() > 0 {
        let head = escaped_char(s[0]);
        let tail = json_escaped(s.drop_first());
        let e = json_escaped(s);
        lemma_escaped_char_is_clean(s[0]);
        lemma_json_escaped_is_clean(s.drop_first());
        assert forall|i: int| 0 <= i < e.len() implies !is_control(#[trigger] e[i]) by {
            if i < head.len() {
                assert(e[i] == head[i]);
            } else {
                assert(e[i] == tail[i - head.len()]);
            }
        }
        assert forall|i: int| 0 <= i < e.len() && #[trigger] e[i] == '"' implies i > 0 && e[i - 1]
            == '\\' by {
            if i < head.len() {
                assert(e[i] == head[i]);
                assert(e[i - 1] == head[i - 1]);
            } else {
                let j = i - head.len();
                assert(e[i] == tail[j]);
                assert(j > 0);
                assert(e[i - 1] == tail[j - 1]);
            }
        }
    }
}

/// Returns the lower-case hexadecimal digit for a value below sixteen, as a
/// text of one character.
fn hex_text(d: u32) -> (s: &'static str)
    requires
        d < 16,
    ensures
        s@ == seq![hex_digit(d as nat)],
{
    proof {
        reveal_strlit("0");
        reveal_strlit("1");
        reveal_strlit("2");
        reveal_strlit("3");
        reveal_strlit("4");
        reveal_strlit("5");
        reveal_strlit("6");
        reveal_strlit("7");
        reveal_strlit("8");
        reveal_strlit("9");
        reveal_strlit("a");
        reveal_strlit("b");
        reveal_strlit("c");
        reveal_strlit("d");
        reveal_strlit("e");
        reveal_strlit("f");
    }
    let s: &'static str = if d == 0 {
        "0"
    } else if d == 1 {
        "1"
    } else if d == 2 {
        "2"
    } else if d == 3 {
        "3"
    } else if d == 4 {
        "4"
    } else if d == 5 {
        "5"
    } else if d == 6 {
        "6"
    } else if d == 7 {
        "7"
    } else if d == 8 {
        "8"
    } else if d == 9 {
        "9"
    } else if d == 10 {
        "a"
    } else if d == 11 {
        "b"
    } else if d == 12 {
        "c"
    } else if d == 13 {
        "d"
    } else if d == 14 {
        "e"
    } else {
        "f"
    };
    assert(s@ =~= seq![hex_digit(d as nat)]);
    s
}

/// Returns how `c` is written in a JSON string where that is not `c` itself,
/// and `None` for a plain character.
fn escape_of(c: char) -> (r: Option<String>)
    ensures
        match r {
            Some(t) => !is_plain(c) && t@ == escaped_char(c),
            None => is_plain(c),
        },
{
    proof {
        reveal_strlit("\\\"");
        reveal_strlit("\\\\");
        reveal_strlit("\\b");
        reveal_strlit("\\t");
        reveal_strlit("\\n");
        reveal_strlit("\\f");
        reveal_strlit("\\r");
        reveal_strlit("\\u00");
    }
    if c == '"' {
        let t = "\\\"".to_owned();
        assert(t@ =~= escaped_char(c));
        Some(t)
    } else if c == '\\' {
        let t = "\\\\".to_owned();
        assert(t@ =~= escaped_char(c));
        Some(t)
    } else if c == '\u{8}' {
        let t = "\\b".to_owned();
        assert(t@ =~= escaped_char(c));
        Some(t)
    } else if c == '\t' {
        let t = "\\t".to_owned();
        assert(t@ =~= escaped_char(c));
        Some(t)
    } else if c == '\n' {
        let t = "\\n".to_owned();
        assert(t@ =~= escaped_char(c));
        Some(t)
    } else if c == '\u{c}' {
        let t = "\\f".to_owned();
        assert(t@ =~= escaped_char(c));
        Some(t)
    } else if c == '\r' {
        let t = "\\r".to_owned();
        assert(t@ =~= escaped_char(c));
        Some(t)
    } else {
        let code: u32 = c as u32;
        if code < 0x20 {
            let mut t = "\\u00".to_owned();
            t.append(hex_text(code / 16));
            t.append(hex_text(code % 16));
            assert(t@ =~= escaped_char(c));
            Some(t)
        } else {
            None
        }
    }
}

/// Writes `s` as the body of a JSON string.
pub fn escape_json(s: &str) -> (r: String)
    ensures
        r@ == json_escaped(s@),
{
    let v = chars_of(s);
    let n: usize = v.len();
    let mut out = String::new();
    let mut done: usize = 0;
    let mut i: usize = 0;
    assert(s@.take(0) =~= Seq::<char>::empty());
    while i < n
        invariant
            v@ == s@,
            n == v.len(),
            done <= i <= n,
            out@ == json_escaped(s@.take(done as int)),
            forall|k: int| done <= k < i ==> is_plain(#[trigger] s@[k]),
        decreases n - i,
    {
        match escape_of(v[i]) {
            Some(escape) => {
                let run = s.substring_char(done, i);
                proof {
                    let front = s@.take(done as int);
                    let one = seq![s@[i as int]];
                    lemma_json_escaped_plain(run@);
                    lemma_json_escaped_concat(front, run@);
                    lemma_json_escaped_concat(front + run@, one);
                    assert(one.drop_first() =~= Seq::<char>::empty());
                    assert(json_escaped(one.drop_first()) =~= Seq::<char>::empty());
                    assert(json_escaped(one) == escaped_char(one[0]) + json_escaped(
                        one.drop_first(),
                    ));
                    assert(json_escaped(one) =~= escaped_char(s@[i as int]));
                    assert(front + run@ + one =~= s@.take(i + 1));
                }
                out.append(run);
                out.append(escape.as_str());
                done = i + 1;
            },
            None => {},
        }
        i += 1;
    }
    let run = s.substring_char(done, n);
    proof {
        let front = s@.take(done as int);
        lemma_json_escaped_plain(run@);
        lemma_json_escaped_concat(front, run@);
        assert(front + run@ =~= s@);
    }
    out.append(run);
    out
}

} // verus!
