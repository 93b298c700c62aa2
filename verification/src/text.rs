//! Text at the Win32 boundary: UTF-16 with a terminating zero, and text
//! read from the clipboard.

use vstd::prelude::*;

verus! {

/// The UTF-16 code units of one character.
pub open spec fn char_utf16(c: char) -> Seq<u16> {
    let v = c as int;
    if v < 0x10000 {
        seq![v as u16]
    } else {
        let w = v - 0x10000;
        seq![(0xD800 + w / 0x400) as u16, (0xDC00 + w % 0x400) as u16]
    }
}

/// The UTF-16 encoding of a sequence of characters.
pub open spec fn utf16_of(s: Seq<char>) -> Seq<u16>
    decreases s.len(),
{
    if s.len() == 0 {
        seq![]
    } else {
        utf16_of(s.drop_last()) + char_utf16(s.last())
    }
}

/// Standard UTF-16 decoding, read from the end: a low surrogate
/// (0xDC00..0xDFFF) preceded by a high surrogate (0xD800..0xDBFF) is the
/// pair for the character 0x10000 + (high - 0xD800) * 0x400 + (low -
/// 0xDC00); any other unit is the character with its own code.
pub open spec fn utf16_decode(u: Seq<u16>) -> Seq<char>
    decreases u.len(),
{
    if u.len() == 0 {
        seq![]
    } else if u.len() >= 2 && 0xDC00 <= u.last() <= 0xDFFF && 0xD800 <= u[u.len() - 2] <= 0xDBFF {
        utf16_decode(u.subrange(0, u.len() - 2)) + seq![
            (0x10000 + (u[u.len() - 2] - 0xD800) * 0x400 + (u.last() - 0xDC00)) as char,
        ]
    } else {
        utf16_decode(u.drop_last()) + seq![u.last() as char]
    }
}

proof fn lemma_char_code(c: char)
    ensures
        (c as u32) as int == c as int,
        !(0xD800 <= c as u32 <= 0xDFFF),
        c as u32 <= 0x10FFFF,
        (c as u32) as char == c,
        (c as u32) < 0x10000 ==> ((c as u32) as u16) as char == c,
{
}

/// The units that `utf8_to_utf16` produces decode back to the string:
/// decoding the encoding of any sequence of characters gives it back.
pub proof fn lemma_utf16_round_trip(s: Seq<char>)
    ensures
        utf16_decode(utf16_of(s)) == s,
    decreases s.len(),
{
    if s.len() > 0 {
        let prefix = s.drop_last();
        let c = s.last();
        lemma_utf16_round_trip(prefix);
        let p = utf16_of(prefix);
        let u = utf16_of(s);
        lemma_char_code(c);
        let cu = c as u32;
        let v = c as int;
        assert(cu as int == v);
        assert(!(0xD800 <= cu <= 0xDFFF) && cu <= 0x10FFFF);
        assert(u == p + char_utf16(c));
        if v < 0x10000 {
            assert(u.drop_last() =~= p);
            assert(u.last() == cu as u16);
            assert((cu as u16) as char == c);
        } else {
            let w = v - 0x10000;
            assert(v <= 0x10FFFF);
            assert(0 <= w / 0x400 < 0x400);
            assert(0 <= w % 0x400 < 0x400);
            assert(w == (w / 0x400) * 0x400 + w % 0x400);
            assert(u.subrange(0, u.len() - 2) =~= p);
            assert(u[u.len() - 2] == (0xD800 + w / 0x400) as u16);
            assert(u.last() == (0xDC00 + w % 0x400) as u16);
            assert((0x10000 + ((0xD800 + w / 0x400) - 0xD800) * 0x400 + ((0xDC00 + w % 0x400) - 0xDC00)) == v);
            assert((cu as char) == c);
        }
        assert(utf16_decode(u) =~= s);
    }
}

/// The code units of one character.
fn encode_char(c: char) -> (r: (u16, Option<u16>))
    ensures
        char_utf16(c) == match r.1 {
            Some(low) => seq![r.0, low],
            None => seq![r.0],
        },
{
    let v: u32 = c as u32;
    if v < 0x10000 {
        (v as u16, None)
    } else {
        let w: u32 = v - 0x10000;
        assert(w < 0x100000);
        ((0xD800 + w / 0x400) as u16, Some((0xDC00 + w % 0x400) as u16))
    }
}

/// Converts a string to UTF-16 with a terminating zero.
pub fn utf8_to_utf16(string: &str) -> (r: Vec<u16>)
    ensures
        r@ == utf16_of(string@).push(0),
        r@.len() >= 1 && r@.last() == 0,
        utf16_decode(r@.drop_last()) == string@,
{
    let mut r: Vec<u16> = Vec::new();
    let ghost chars = string@;
    for c in it: string.chars()
        invariant
            it.seq() == chars,
            r@ == utf16_of(chars.take(it.index() as int)),
    {
        let ghost done = chars.take(it.index() as int);
        assert(chars.take(it.index() + 1).drop_last() == done);
        let (high, low) = encode_char(c);
        r.push(high);
        match low {
            Some(l) => {
                r.push(l);
            },
            None => {},
        }
    }
    assert(chars.take(chars.len() as int) == chars);
    r.push(0);
    proof {
        lemma_utf16_round_trip(chars);
        assert(r@.drop_last() =~= utf16_of(chars));
    }
    r
}

/// A carriage return.
pub const CR: u16 = 0x000D;

/// A line feed.
pub const LF: u16 = 0x000A;

/// Whether `u` is a UTF-16 surrogate, which is no character by itself.
pub open spec fn is_surrogate(u: u16) -> bool {
    0xD800 <= u <= 0xDFFF
}

/// The index of the first zero unit at or after `i`, or `s.len()` when
/// there is none: where the text of a zero-terminated buffer ends.
pub open spec fn text_end_from(s: Seq<u16>, i: int) -> int
    decreases s.len() - i,
{
    if i < 0 || i >= s.len() {
        s.len() as int
    } else if s[i] == 0 {
        i
    } else {
        text_end_from(s, i + 1)
    }
}

proof fn lemma_text_end_from(s: Seq<u16>, i: int)
    requires
        0 <= i <= s.len(),
    ensures
        i <= text_end_from(s, i) <= s.len(),
    decreases s.len() - i,
{
    if i < s.len() && s[i] != 0 {
        lemma_text_end_from(s, i + 1);
    }
}

/// The text of clipboard buffer `s` from index `i` on, up to its first
/// zero unit, with every CR LF pair turned into LF; `cr` says that a CR
/// came just before `i` and is still pending.  A pending CR is kept when
/// another character follows it, and dropped when a line feed, a further
/// CR or the end follows it.
pub open spec fn clipboard_text_from(s: Seq<u16>, i: int, cr: bool) -> Seq<char>
    decreases s.len() - i,
{
    if i < 0 || i >= s.len() || s[i] == 0 {
        seq![]
    } else if s[i] == CR {
        clipboard_text_from(s, i + 1, true)
    } else if s[i] == LF {
        seq!['\n'] + clipboard_text_from(s, i + 1, false)
    } else {
        (if cr {
            seq!['\r']
        } else {
            seq![]
        }) + seq![s[i] as char] + clipboard_text_from(s, i + 1, false)
    }
}

/// The text of clipboard buffer `s`.
pub open spec fn clipboard_text(s: Seq<u16>) -> Seq<char> {
    clipboard_text_from(s, 0, false)
}

/// Reads the text of a clipboard buffer of UTF-16 units: everything before
/// the first zero unit, with CR LF line breaks turned into LF.
///
/// Each unit is read as one character, so the text must hold no surrogate.
pub fn decode_clipboard_text(units: &[u16]) -> (r: String)
    requires
        forall|i: int| 0 <= i < text_end_from(units@, 0) ==> !is_surrogate(#[trigger] units@[i]),
    ensures
        r@ == clipboard_text(units@),
        count_newlines(r@) == lf_units_from(units@, 0),
        strip_cr(r@) == units_without_cr_from(units@, 0),
{
    let mut string = String::new();
    let mut got_carriage_feed = false;
    let len = units.len();
    let mut idx: usize = 0;
    let ghost s = units@;
    while idx < len && units[idx] != 0
        invariant
            s == units@,
            len == s.len(),
            idx <= len,
            text_end_from(s, 0) == text_end_from(s, idx as int),
            forall|i: int| 0 <= i < text_end_from(s, 0) ==> !is_surrogate(#[trigger] s[i]),
            string@ + clipboard_text_from(s, idx as int, got_carriage_feed) == clipboard_text(s),
        decreases len - idx,
    {
        let u = units[idx];
        let ghost before = string@;
        let ghost cr0 = got_carriage_feed;
        assert(text_end_from(s, idx as int) == text_end_from(s, idx + 1));
        proof {
            lemma_text_end_from(s, idx + 1);
        }
        if u == CR {
            got_carriage_feed = true;
        } else if u == LF {
            got_carriage_feed = false;
            push_char(&mut string, '\n');
            assert(before + clipboard_text_from(s, idx as int, cr0) =~= string@ + clipboard_text_from(s, idx + 1, false));
        } else {
            assert(!is_surrogate(u));
            let c = match char_from_u32(u as u32) {
                Some(c) => c,
                None => {
                    assert(false);
                    '\0'
                },
            };
            if got_carriage_feed {
                push_char(&mut string, '\r');
                got_carriage_feed = false;
            }
            push_char(&mut string, c);
            assert(string@ + clipboard_text_from(s, idx + 1, false) =~= before + clipboard_text_from(s, idx as int, cr0));
        }
        idx = idx + 1;
    }
    assert(clipboard_text_from(s, idx as int, got_carriage_feed) == Seq::<char>::empty());
    assert(string@ =~= clipboard_text(s));
    proof {
        lemma_clipboard_keeps_lines(s);
    }
    string
}

/// No carriage return in `t` stands before a line feed or another carriage
/// return, nor at the end.
pub open spec fn cr_only_before_text(t: Seq<char>) -> bool {
    forall|j: int|
        0 <= j < t.len() && #[trigger] t[j] == '\r' ==> j + 1 < t.len() && t[j + 1] != '\n' && t[j
            + 1] != '\r'
}

proof fn lemma_cr_only_before_text_from(s: Seq<u16>, i: int, cr: bool)
    requires
        0 <= i <= s.len(),
        forall|k: int| i <= k < text_end_from(s, i) ==> !is_surrogate(#[trigger] s[k]),
    ensures
        cr_only_before_text(clipboard_text_from(s, i, cr)),
    decreases s.len() - i,
{
    if i < s.len() && s[i] != 0 {
        assert(text_end_from(s, i) == text_end_from(s, i + 1));
        lemma_text_end_from(s, i + 1);
        lemma_cr_only_before_text_from(s, i + 1, s[i] == CR);
        let rest = clipboard_text_from(s, i + 1, false);
        if s[i] == CR {
        } else if s[i] == LF {
            let t = seq!['\n'] + rest;
            assert forall|j: int| 0 <= j < t.len() && #[trigger] t[j] == '\r' implies j + 1 < t.len()
                && t[j + 1] != '\n' && t[j + 1] != '\r' by {
                assert(t[j] == rest[j - 1]);
                assert(t[j + 1] == rest[j]);
            }
        } else {
            let c = s[i] as char;
            assert(!is_surrogate(s[i]));
            assert(c as u32 == s[i]);
            assert(c != '\r' && c != '\n');
            let head: Seq<char> = if cr { seq!['\r'] } else { seq![] };
            let t = head + seq![c] + rest;
            let h = head.len() + 1;
            assert forall|j: int| 0 <= j < t.len() && #[trigger] t[j] == '\r' implies j + 1 < t.len()
                && t[j + 1] != '\n' && t[j + 1] != '\r' by {
                if j >= h {
                    assert(t[j] == rest[j - h]);
                    assert(t[j + 1] == rest[j + 1 - h]);
                } else if j == h - 1 {
                    assert(t[j] == c);
                } else {
                    assert(t[j + 1] == c);
                }
            }
        }
    }
}

/// Reading the clipboard leaves no CR LF line break: every carriage return
/// in the text is followed by a character that is neither a line feed nor a
/// carriage return.
pub proof fn lemma_clipboard_text_has_no_crlf(s: Seq<u16>)
    requires
        forall|k: int| 0 <= k < text_end_from(s, 0) ==> !is_surrogate(#[trigger] s[k]),
    ensures
        cr_only_before_text(clipboard_text(s)),
{
    lemma_cr_only_before_text_from(s, 0, false);
}

proof fn lemma_plain_text_from(s: Seq<u16>, i: int)
    requires
        0 <= i <= s.len(),
        forall|k: int| i <= k < text_end_from(s, i) ==> #[trigger] s[k] != CR,
    ensures
        i <= text_end_from(s, i),
        clipboard_text_from(s, i, false) =~= Seq::new(
            (text_end_from(s, i) - i) as nat,
            |k: int| if s[i + k] == LF { '\n' } else { s[i + k] as char },
        ),
    decreases s.len() - i,
{
    lemma_text_end_from(s, i);
    if i < s.len() && s[i] != 0 {
        assert(text_end_from(s, i) == text_end_from(s, i + 1));
        lemma_plain_text_from(s, i + 1);
    }
}

/// Text without carriage returns is read unchanged: each unit before the
/// first zero becomes the character with its code.
pub proof fn lemma_clipboard_text_without_cr(s: Seq<u16>)
    requires
        forall|k: int| 0 <= k < text_end_from(s, 0) ==> #[trigger] s[k] != CR,
    ensures
        clipboard_text(s) =~= Seq::new(text_end_from(s, 0) as nat, |k: int| s[k] as char),
{
    lemma_plain_text_from(s, 0);
    assert forall|k: int| 0 <= k < text_end_from(s, 0) implies (if s[k] == LF { '\n' } else {
        s[k] as char
    }) == s[k] as char by {
        if s[k] == LF {
            assert((10u16 as char) == '\n');
        }
    }
}

/// `t` with every carriage return left out.
pub open spec fn strip_cr(t: Seq<char>) -> Seq<char>
    decreases t.len(),
{
    if t.len() == 0 {
        t
    } else if t[0] == '\r' {
        strip_cr(t.drop_first())
    } else {
        seq![t[0]] + strip_cr(t.drop_first())
    }
}

/// The number of line feeds in `t`.
pub open spec fn count_newlines(t: Seq<char>) -> nat
    decreases t.len(),
{
    if t.len() == 0 {
        0
    } else {
        (if t[0] == '\n' {
            1nat
        } else {
            0nat
        }) + count_newlines(t.drop_first())
    }
}

/// The units of buffer `s` from index `i` up to its first zero unit, each
/// read as the character with its code, with the CR units left out.
pub open spec fn units_without_cr_from(s: Seq<u16>, i: int) -> Seq<char>
    decreases s.len() - i,
{
    if i < 0 || i >= s.len() || s[i] == 0 {
        seq![]
    } else if s[i] == CR {
        units_without_cr_from(s, i + 1)
    } else {
        seq![s[i] as char] + units_without_cr_from(s, i + 1)
    }
}

/// The number of LF units of buffer `s` from index `i` up to its first
/// zero unit.
pub open spec fn lf_units_from(s: Seq<u16>, i: int) -> nat
    decreases s.len() - i,
{
    if i < 0 || i >= s.len() || s[i] == 0 {
        0
    } else {
        (if s[i] == LF {
            1nat
        } else {
            0nat
        }) + lf_units_from(s, i + 1)
    }
}

proof fn lemma_strip_cr_concat(a: Seq<char>, b: Seq<char>)
    ensures
        strip_cr(a + b) == strip_cr(a) + strip_cr(b),
    decreases a.len(),
{
    if a.len() == 0 {
        assert(a + b =~= b);
    } else {
        assert((a + b).drop_first() =~= a.drop_first() + b);
        lemma_strip_cr_concat(a.drop_first(), b);
        if a[0] != '\r' {
            assert(seq![a[0]] + (strip_cr(a.drop_first()) + strip_cr(b)) =~= (seq![a[0]] + strip_cr(
                a.drop_first(),
            )) + strip_cr(b));
        }
    }
}

proof fn lemma_count_newlines_concat(a: Seq<char>, b: Seq<char>)
    ensures
        count_newlines(a + b) == count_newlines(a) + count_newlines(b),
    decreases a.len(),
{
    if a.len() == 0 {
        assert(a + b =~= b);
    } else {
        assert((a + b).drop_first() =~= a.drop_first() + b);
        lemma_count_newlines_concat(a.drop_first(), b);
    }
}

proof fn lemma_single(c: char)
    ensures
        strip_cr(seq![c]) == if c == '\r' { Seq::<char>::empty() } else { seq![c] },
        count_newlines(seq![c]) == if c == '\n' { 1nat } else { 0nat },
{
    let e = Seq::<char>::empty();
    assert(seq![c].drop_first() =~= e);
    assert(strip_cr(e) == e);
    assert(count_newlines(e) == 0);
    assert(seq![c][0] == c);
    if c != '\r' {
        assert(seq![c] + Seq::<char>::empty() =~= seq![c]);
    }
}

proof fn lemma_clipboard_lines_from(s: Seq<u16>, i: int, cr: bool)
    requires
        0 <= i <= s.len(),
        forall|k: int| i <= k < text_end_from(s, i) ==> !is_surrogate(#[trigger] s[k]),
    ensures
        strip_cr(clipboard_text_from(s, i, cr)) == units_without_cr_from(s, i),
        count_newlines(clipboard_text_from(s, i, cr)) == lf_units_from(s, i),
    decreases s.len() - i,
{
    if i < s.len() && s[i] != 0 {
        assert(text_end_from(s, i) == text_end_from(s, i + 1));
        lemma_text_end_from(s, i + 1);
        lemma_clipboard_lines_from(s, i + 1, s[i] == CR);
        lemma_clipboard_lines_from(s, i + 1, false);
        let rest = clipboard_text_from(s, i + 1, false);
        if s[i] == CR {
        } else if s[i] == LF {
            lemma_single('\n');
            lemma_strip_cr_concat(seq!['\n'], rest);
            lemma_count_newlines_concat(seq!['\n'], rest);
            assert((10u16 as char) == '\n');
        } else {
            let c = s[i] as char;
            assert(!is_surrogate(s[i]));
            assert(c as u32 == s[i]);
            assert(c != '\r' && c != '\n');
            lemma_single(c);
            lemma_single('\r');
            let head: Seq<char> = if cr { seq!['\r'] } else { seq![] };
            assert(strip_cr(head) == Seq::<char>::empty()) by {
                if !cr {
                    assert(head.len() == 0);
                }
            }
            assert(count_newlines(head) == 0) by {
                if !cr {
                    assert(head.len() == 0);
                }
            }
            lemma_strip_cr_concat(head, seq![c]);
            lemma_strip_cr_concat(head + seq![c], rest);
            lemma_count_newlines_concat(head, seq![c]);
            lemma_count_newlines_concat(head + seq![c], rest);
            assert(strip_cr(head) + seq![c] =~= seq![c]);
        }
    }
}

/// Reading the clipboard loses and invents no line break: the text has
/// exactly as many line feeds as the buffer has LF units before its first
/// zero unit, and with its carriage returns left out it is exactly the
/// buffer's units before the first zero with the CR units left out.
pub proof fn lemma_clipboard_keeps_lines(s: Seq<u16>)
    requires
        forall|k: int| 0 <= k < text_end_from(s, 0) ==> !is_surrogate(#[trigger] s[k]),
    ensures
        count_newlines(clipboard_text(s)) == lf_units_from(s, 0),
        strip_cr(clipboard_text(s)) == units_without_cr_from(s, 0),
{
    lemma_text_end_from(s, 0);
    lemma_clipboard_lines_from(s, 0, false);
}

/// Appends character `c` to `string` (`String::push`).
#[verifier::external_body]
fn push_char(string: &mut String, c: char)
    ensures
        final(string)@ == old(string)@.push(c),
{
    string.push(c)
}

/// The character with code `v`, when there is one (`char::from_u32`): the
/// scalar values are below 0x110000 outside the surrogate range.
#[verifier::external_body]
fn char_from_u32(v: u32) -> (r: Option<char>)
    ensures
        r == if v < 0xD800 || (0xE000 <= v < 0x11_0000) {
            Some(v as char)
        } else {
            None::<char>
        },
{
    char::from_u32(v)
}

} // verus!
