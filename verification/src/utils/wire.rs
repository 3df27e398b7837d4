//! The compact form of a token, `header.payload.signature`, and the check
//! that a text has it.

use vstd::prelude::*;
use vstd::utf8::{encode_utf8, is_ascii_chars, is_ascii_chars_encode_utf8};

verus! {

/// No token of more bytes than this is issued or looked at.
pub const MAX_TOKEN_BYTES: usize = 1_000_000;

/// Whether `c` may stand in a part of a token: the URL-safe Base64
/// alphabet.
pub open spec fn is_part_char(c: char) -> bool {
    ('A' <= c <= 'Z') || ('a' <= c <= 'z') || ('0' <= c <= '9') || c == '-' || c == '_'
}

/// A part of a token: a text of the URL-safe Base64 alphabet that is not
/// empty.
pub open spec fn is_part(text: Seq<char>) -> bool {
    text.len() > 0 && forall|i: int| 0 <= i < text.len() ==> is_part_char(#[trigger] text[i])
}

/// The three parts with a dot between them.
pub open spec fn joined(header: Seq<char>, payload: Seq<char>, signature: Seq<char>) -> Seq<char> {
    header + seq!['.'] + payload + seq!['.'] + signature
}

/// Whether `token` has the compact form `header.payload.signature`, each of
/// the three a part.
pub open spec fn compact(token: Seq<char>) -> bool {
    exists|header: Seq<char>, payload: Seq<char>, signature: Seq<char>|
        is_part(header) && is_part(payload) && is_part(signature) && token == #[trigger] joined(
            header,
            payload,
            signature,
        )
}

/// How many dots `text` holds.
pub open spec fn dots(text: Seq<char>) -> nat
    decreases text.len(),
{
    if text.len() == 0 {
        0
    } else {
        dots(text.drop_last()) + if text.last() == '.' {
            1nat
        } else {
            0nat
        }
    }
}

/// Whether the dot at `i` parts two pieces of `text` that are not empty, as
/// far as the dot can tell: it is neither the first nor the last character,
/// and no dot follows it.
pub open spec fn parts_at(text: Seq<char>, i: int) -> bool {
    0 < i < text.len() - 1 && text[i + 1] != '.'
}

/// The compact form as one pass over the text finds it: two dots, each
/// between two characters that are no dots, and nothing else but characters
/// of the alphabet.
pub open spec fn two_dots_between_parts(token: Seq<char>) -> bool {
    &&& dots(token) == 2
    &&& forall|i: int|
        0 <= i < token.len() ==> if #[trigger] token[i] == '.' {
            parts_at(token, i)
        } else {
            is_part_char(token[i])
        }
}

/// The dots of a text are those of its two halves.
proof fn lemma_dots_concat(a: Seq<char>, b: Seq<char>)
    ensures
        dots(a + b) == dots(a) + dots(b),
    decreases b.len(),
{
    if b.len() == 0 {
        assert(a + b =~= a);
    } else {
        assert((a + b).drop_last() =~= a + b.drop_last());
        lemma_dots_concat(a, b.drop_last());
    }
}

/// A text holds no dot exactly where none of its characters is one.
proof fn lemma_no_dots(text: Seq<char>)
    ensures
        dots(text) == 0 <==> forall|i: int| 0 <= i < text.len() ==> #[trigger] text[i] != '.',
    decreases text.len(),
{
    if text.len() > 0 {
        lemma_no_dots(text.drop_last());
        if dots(text) == 0 {
            assert forall|i: int| 0 <= i < text.len() implies #[trigger] text[i] != '.' by {
                if i < text.len() - 1 {
                    assert(text.drop_last()[i] == text[i]);
                }
            }
        }
        if forall|i: int| 0 <= i < text.len() ==> #[trigger] text[i] != '.' {
            assert forall|i: int| 0 <= i < text.drop_last().len() implies #[trigger] text.drop_last()[i]
                != '.' by {
                assert(text.drop_last()[i] == text[i]);
            }
            assert(text.last() == text[text.len() - 1]);
        }
    }
}

/// A text that holds a dot has a first one: before it there is no dot, and
/// behind it there is one dot less than in the whole.
proof fn lemma_first_dot(text: Seq<char>) -> (i: int)
    requires
        dots(text) > 0,
    ensures
        0 <= i < text.len(),
        text[i] == '.',
        dots(text.take(i)) == 0,
        dots(text.skip(i + 1)) == dots(text) - 1,
    decreases text.len(),
{
    let front = text.drop_last();
    if dots(front) > 0 {
        let i = lemma_first_dot(front);
        assert(front.take(i) =~= text.take(i));
        assert(text.skip(i + 1) =~= front.skip(i + 1) + seq![text.last()]);
        lemma_dots_concat(front.skip(i + 1), seq![text.last()]);
        assert(seq![text.last()].drop_last() =~= Seq::<char>::empty());
        assert(dots(seq![text.last()]) == if text.last() == '.' {
            1nat
        } else {
            0nat
        }) by {
            assert(seq![text.last()].last() == text.last());
            assert(dots(Seq::<char>::empty()) == 0);
        }
        i
    } else {
        let i = text.len() - 1;
        assert(text.take(i) =~= front);
        assert(text.skip(i + 1) =~= Seq::<char>::empty());
        i
    }
}

/// The text with a dot at `i` is what stands before the dot, the dot, and
/// what stands behind it.
proof fn lemma_split_at_dot(text: Seq<char>, i: int)
    requires
        0 <= i < text.len(),
        text[i] == '.',
    ensures
        text == text.take(i) + seq!['.'] + text.skip(i + 1),
{
    assert(text =~= text.take(i) + seq!['.'] + text.skip(i + 1));
}

/// One pass over a text finds the compact form exactly where the text has
/// it.
pub proof fn lemma_compact_is_two_dots_between_parts(token: Seq<char>)
    ensures
        compact(token) <==> two_dots_between_parts(token),
{
    if compact(token) {
        let (h, p, s) = choose|h: Seq<char>, p: Seq<char>, s: Seq<char>|
            is_part(h) && is_part(p) && is_part(s) && token == #[trigger] joined(h, p, s);
        let dot = seq!['.'];
        lemma_no_dots(h);
        lemma_no_dots(p);
        lemma_no_dots(s);
        assert(dot.drop_last() =~= Seq::<char>::empty());
        assert(dots(dot) == 1) by {
            assert(dot.last() == '.');
            assert(dots(Seq::<char>::empty()) == 0);
        }
        lemma_dots_concat(h, dot);
        lemma_dots_concat(h + dot, p);
        lemma_dots_concat(h + dot + p, dot);
        lemma_dots_concat(h + dot + p + dot, s);
        assert(dots(token) == 2);
        assert forall|i: int| 0 <= i < token.len() implies if #[trigger] token[i] == '.' {
            parts_at(token, i)
        } else {
            is_part_char(token[i])
        } by {
            let first = h.len() as int;
            let second = first + 1 + p.len();
            if i < first {
                assert(token[i] == h[i]);
            } else if i == first {
                assert(token[i + 1] == p[0]);
            } else if i < second {
                assert(token[i] == p[i - first - 1]);
            } else if i == second {
                assert(token[i + 1] == s[0]);
            } else {
                assert(token[i] == s[i - second - 1]);
            }
        }
    }
    if two_dots_between_parts(token) {
        let first = lemma_first_dot(token);
        let h = token.take(first);
        let rest = token.skip(first + 1);
        let j = lemma_first_dot(rest);
        let p = rest.take(j);
        let s = rest.skip(j + 1);
        lemma_split_at_dot(token, first);
        lemma_split_at_dot(rest, j);
        assert(token =~= joined(h, p, s));
        lemma_no_dots(h);
        lemma_no_dots(p);
        lemma_no_dots(s);
        let second = first + 1 + j;
        assert(token[second] == rest[j]);
        assert(parts_at(token, first));
        assert(parts_at(token, second));
        assert(rest[0] == token[first + 1]);
        assert(j > 0);
        assert(is_part(h)) by {
            assert forall|i: int| 0 <= i < h.len() implies is_part_char(#[trigger] h[i]) by {
                assert(h[i] == token[i]);
            }
        }
        assert(is_part(p)) by {
            assert forall|i: int| 0 <= i < p.len() implies is_part_char(#[trigger] p[i]) by {
                assert(p[i] == token[first + 1 + i]);
            }
        }
        assert(is_part(s)) by {
            assert forall|i: int| 0 <= i < s.len() implies is_part_char(#[trigger] s[i]) by {
                assert(s[i] == token[second + 1 + i]);
            }
        }
    }
}

/// Whether the byte is a character of the URL-safe Base64 alphabet.
fn is_part_byte(b: u8) -> (r: bool)
    ensures
        r == is_part_char(b as char),
{
    (b >= 0x41 && b <= 0x5a) || (b >= 0x61 && b <= 0x7a) || (b >= 0x30 && b <= 0x39) || b == 0x2d
        || b == 0x5f
}

/// One pass over the bytes of `token`, looking for the compact form.
fn has_two_dots_between_parts(token: &str) -> (r: bool)
    ensures
        r == two_dots_between_parts(token@),
{
    if !token.is_ascii() {
        proof {
            let i = choose|i: int|
                0 <= i < token@.len() && !('\0' <= #[trigger] token@[i] <= '\u{7f}');
            assert(token@[i] != '.' && !is_part_char(token@[i]));
        }
        return false;
    }
    let bytes = token.as_bytes();
    proof {
        is_ascii_chars_encode_utf8(token@);
    }
    let n = bytes.len();
    let mut count: usize = 0;
    let mut i: usize = 0;
    while i < n
        invariant
            i <= n,
            n == bytes@.len(),
            n == token@.len(),
            is_ascii_chars(token@),
            forall|k: int| 0 <= k < token@.len() ==> token@[k] as u8 == #[trigger] bytes@[k],
            count == dots(token@.take(i as int)),
            count <= i,
            forall|k: int|
                0 <= k < i ==> if #[trigger] token@[k] == '.' {
                    parts_at(token@, k)
                } else {
                    is_part_char(token@[k])
                },
        decreases n - i,
    {
        let b = bytes[i];
        assert(token@[i as int] == b as char);
        if b == 0x2e {
            if i == 0 || i + 1 >= n {
                return false;
            }
            let next = bytes[i + 1];
            assert(token@[i + 1] == next as char);
            if next == 0x2e {
                return false;
            }
            count += 1;
        } else if !is_part_byte(b) {
            return false;
        }
        proof {
            assert(token@.take(i + 1).drop_last() =~= token@.take(i as int));
        }
        i += 1;
    }
    proof {
        assert(token@.take(i as int) =~= token@);
    }
    count == 2
}

/// Whether `token` has the compact form `header.payload.signature`.
pub fn is_compact(token: &str) -> (r: bool)
    ensures
        r == compact(token@),
{
    proof {
        lemma_compact_is_two_dots_between_parts(token@);
    }
    has_two_dots_between_parts(token)
}

/// Whether `token` is a text that may be a token at all: of the compact
/// form, and of at most `MAX_TOKEN_BYTES` bytes.
pub open spec fn framed(token: Seq<char>) -> bool {
    encode_utf8(token).len() <= MAX_TOKEN_BYTES && compact(token)
}

/// Whether `token` may be a token at all. The length is looked at first, so
/// that a text of any size costs little.
pub fn is_framed(token: &str) -> (r: bool)
    ensures
        r == framed(token@),
{
    token.as_bytes().len() <= MAX_TOKEN_BYTES && is_compact(token)
}

} // verus!
