//! Text building blocks: digits, decimal and hexadecimal numerals,
//! joining pieces with a separator, reading a number, and escaping text
//! for markup. Strings are modelled as `Seq<char>`.

use vstd::prelude::*;
use vstd::std_specs::iter::IteratorSpec;

verus! {

/// The lowercase character that stands for the digit `d` in bases up to
/// sixteen.
pub open spec fn digit_char(d: nat) -> char {
    if d == 0 {
        '0'
    } else if d == 1 {
        '1'
    } else if d == 2 {
        '2'
    } else if d == 3 {
        '3'
    } else if d == 4 {
        '4'
    } else if d == 5 {
        '5'
    } else if d == 6 {
        '6'
    } else if d == 7 {
        '7'
    } else if d == 8 {
        '8'
    } else if d == 9 {
        '9'
    } else if d == 10 {
        'a'
    } else if d == 11 {
        'b'
    } else if d == 12 {
        'c'
    } else if d == 13 {
        'd'
    } else if d == 14 {
        'e'
    } else {
        'f'
    }
}

/// `c` is one of `0`-`9`, `a`-`f`.
pub open spec fn is_lower_hex_char(c: char) -> bool {
    c == '0' || c == '1' || c == '2' || c == '3' || c == '4' || c == '5' || c == '6' || c == '7'
        || c == '8' || c == '9' || c == 'a' || c == 'b' || c == 'c' || c == 'd' || c == 'e' || c
        == 'f'
}

/// The decimal numeral of `n`: most significant digit first, no leading
/// zero, `"0"` for zero.
pub open spec fn decimal(n: nat) -> Seq<char>
    decreases n,
{
    if n < 10 {
        seq![digit_char(n)]
    } else {
        decimal(n / 10).push(digit_char(n % 10))
    }
}

/// `v` as exactly two lowercase hexadecimal digits, high nibble first.
pub open spec fn hex_byte(v: u8) -> Seq<char> {
    seq![digit_char((v / 16) as nat), digit_char((v % 16) as nat)]
}

/// The `#rrggbb` notation of a colour.
pub open spec fn hex_color(rgb: (u8, u8, u8)) -> Seq<char> {
    seq!['#'] + hex_byte(rgb.0) + hex_byte(rgb.1) + hex_byte(rgb.2)
}

/// `s` is `#` followed by exactly six lowercase hexadecimal digits.
pub open spec fn is_hex_color(s: Seq<char>) -> bool {
    &&& s.len() == 7
    &&& s[0] == '#'
    &&& forall|i: int| 1 <= i < 7 ==> is_lower_hex_char(#[trigger] s[i])
}

/// The pieces of `parts` in order, with `sep` between neighbours.
pub open spec fn join(parts: Seq<Seq<char>>, sep: Seq<char>) -> Seq<char>
    decreases parts.len(),
{
    if parts.len() == 0 {
        Seq::empty()
    } else if parts.len() == 1 {
        parts[0]
    } else {
        join(parts.drop_last(), sep) + sep + parts.last()
    }
}

/// Joining one piece more: the first piece stands alone, every later one
/// follows a separator.
pub proof fn lemma_join_step(parts: Seq<Seq<char>>, sep: Seq<char>, n: int)
    requires
        0 <= n < parts.len(),
    ensures
        join(parts.take(n + 1), sep) == if n == 0 {
            parts[0]
        } else {
            join(parts.take(n), sep) + sep + parts[n]
        },
{
    let p = parts.take(n + 1);
    assert(p.drop_last() =~= parts.take(n));
    assert(p.last() == parts[n]);
}

/// Where the piece of index `k` begins within `join(parts, sep)`: behind
/// the earlier pieces, each followed by a separator.
pub open spec fn piece_offset(parts: Seq<Seq<char>>, sep: Seq<char>, k: int) -> int
    decreases k,
{
    if k <= 0 {
        0
    } else {
        piece_offset(parts, sep, k - 1) + parts[k - 1].len() + sep.len()
    }
}

/// Where a piece begins depends on the pieces before it alone, and grows
/// from piece to piece.
pub proof fn lemma_piece_offset_prefix(parts: Seq<Seq<char>>, sep: Seq<char>, n: int, k: int)
    requires
        0 <= k <= n <= parts.len(),
    ensures
        piece_offset(parts.take(n), sep, k) == piece_offset(parts, sep, k),
        0 <= piece_offset(parts, sep, k),
        k > 0 ==> piece_offset(parts, sep, k - 1) + sep.len() <= piece_offset(parts, sep, k),
    decreases k,
{
    if k > 0 {
        lemma_piece_offset_prefix(parts, sep, n, k - 1);
        assert(parts.take(n)[k - 1] == parts[k - 1]);
    }
}

/// The length of a joined text: the last piece ends it.
pub proof fn lemma_join_len(parts: Seq<Seq<char>>, sep: Seq<char>)
    requires
        parts.len() > 0,
    ensures
        join(parts, sep).len() == piece_offset(parts, sep, parts.len() - 1) + parts.last().len(),
    decreases parts.len(),
{
    let n = parts.len() as int;
    if n > 1 {
        let init = parts.drop_last();
        assert(init =~= parts.take(n - 1));
        lemma_join_len(init, sep);
        lemma_piece_offset_prefix(parts, sep, n - 1, n - 2);
        assert(init.last() == parts[n - 2]);
    }
}

/// Every piece stands in the joined text, whole and at its place: the
/// pieces come in the order of `parts`, none is lost and none is added.
pub proof fn lemma_join_piece_at(parts: Seq<Seq<char>>, sep: Seq<char>, k: int)
    requires
        0 <= k < parts.len(),
    ensures
        0 <= piece_offset(parts, sep, k),
        piece_offset(parts, sep, k) + parts[k].len() <= join(parts, sep).len(),
        join(parts, sep).subrange(
            piece_offset(parts, sep, k),
            piece_offset(parts, sep, k) + parts[k].len(),
        ) == parts[k],
    decreases parts.len(),
{
    let n = parts.len() as int;
    let at = piece_offset(parts, sep, k);
    lemma_piece_offset_prefix(parts, sep, n, k);
    if n == 1 {
        assert(join(parts, sep).subrange(0, parts[0].len() as int) =~= parts[0]);
    } else {
        let init = parts.drop_last();
        let joined = join(init, sep);
        assert(init =~= parts.take(n - 1));
        if k < n - 1 {
            lemma_join_piece_at(init, sep, k);
            lemma_piece_offset_prefix(parts, sep, n - 1, k);
            assert(init[k] == parts[k]);
            assert((joined + sep + parts.last()).subrange(at, at + parts[k].len())
                =~= joined.subrange(at, at + parts[k].len()));
        } else {
            lemma_join_len(init, sep);
            lemma_piece_offset_prefix(parts, sep, n - 1, n - 2);
            assert(init.last() == parts[n - 2]);
            assert(at == joined.len() + sep.len());
            assert((joined + sep + parts.last()).subrange(at, at + parts[k].len())
                =~= parts[k]);
        }
    }
}

/// Every colour written by `hex_color` has the `#rrggbb` shape.
pub proof fn lemma_hex_color_shape(rgb: (u8, u8, u8))
    ensures
        is_hex_color(hex_color(rgb)),
{
    let s = hex_color(rgb);
    assert(s.len() == 7);
    assert(s[0] == '#');
    assert forall|i: int| 1 <= i < 7 implies is_lower_hex_char(#[trigger] s[i]) by {
        assert(is_lower_hex_char(digit_char((rgb.0 / 16) as nat)));
        assert(is_lower_hex_char(digit_char((rgb.0 % 16) as nat)));
        assert(is_lower_hex_char(digit_char((rgb.1 / 16) as nat)));
        assert(is_lower_hex_char(digit_char((rgb.1 % 16) as nat)));
        assert(is_lower_hex_char(digit_char((rgb.2 / 16) as nat)));
        assert(is_lower_hex_char(digit_char((rgb.2 % 16) as nat)));
    }
}

/// The one-character string for the digit `d`.
pub fn digit_str(d: u8) -> (s: &'static str)
    requires
        d < 16,
    ensures
        s@ == seq![digit_char(d as nat)],
{
    proof {
        reveal_strlit("0");
        reveal_strlit("1");
        reveal_strlit("2");
        reveal_strlit("3");
        reveal_strlit("4");
        reveal_strlit("5");
        reveal_strlit("6");
        reveal_strlit("7");
        reveal_strlit("8");
        reveal_strlit("9");
        reveal_strlit("a");
        reveal_strlit("b");
        reveal_strlit("c");
        reveal_strlit("d");
        reveal_strlit("e");
        reveal_strlit("f");
    }
    let s: &'static str = match d {
        0 => "0",
        1 => "1",
        2 => "2",
        3 => "3",
        4 => "4",
        5 => "5",
        6 => "6",
        7 => "7",
        8 => "8",
        9 => "9",
        10 => "a",
        11 => "b",
        12 => "c",
        13 => "d",
        14 => "e",
        _ => "f",
    };
    assert(s@ =~= seq![digit_char(d as nat)]);
    s
}

/// Appends the decimal numeral of `n` to `out`.
pub fn push_decimal(out: &mut String, n: u32)
    ensures
        final(out)@ == old(out)@ + decimal(n as nat),
    decreases n,
{
    if n < 10 {
        out.append(digit_str(n as u8));
    } else {
        push_decimal(out, n / 10);
        out.append(digit_str((n % 10) as u8));
        assert(final(out)@ =~= old(out)@ + decimal(n as nat));
    }
}

/// The decimal numeral of `n`.
pub fn decimal_string(n: u32) -> (s: String)
    ensures
        s@ == decimal(n as nat),
{
    let mut s = String::new();
    push_decimal(&mut s, n);
    assert(s@ =~= decimal(n as nat));
    s
}

/// Appends `v` as two lowercase hexadecimal digits to `out`.
pub fn push_hex_byte(out: &mut String, v: u8)
    ensures
        final(out)@ == old(out)@ + hex_byte(v),
{
    out.append(digit_str(v / 16));
    out.append(digit_str(v % 16));
    assert(final(out)@ =~= old(out)@ + hex_byte(v));
}

/// The `#rrggbb` notation of the colour `(r, g, b)`.
pub fn hex_color_string(r: u8, g: u8, b: u8) -> (s: String)
    ensures
        s@ == hex_color((r, g, b)),
        is_hex_color(s@),
{
    let mut s = String::from_str("#");
    proof {
        reveal_strlit("#");
    }
    push_hex_byte(&mut s, r);
    push_hex_byte(&mut s, g);
    push_hex_byte(&mut s, b);
    assert(s@ =~= hex_color((r, g, b)));
    proof {
        lemma_hex_color_shape((r, g, b));
    }
    s
}

/// The code of `+`.
const PLUS: u8 = 43;

/// The code of `0`.
const ZERO: u8 = 48;

/// The code of `9`.
const NINE: u8 = 57;

/// The value of the decimal digit `c`, if it is one.
pub open spec fn digit_value(c: char) -> Option<nat> {
    if '0' <= c <= '9' {
        Some((c as int - '0' as int) as nat)
    } else {
        None
    }
}

/// The number that the decimal digits `s` write, most significant first;
/// none if any of them is no digit. No digits write zero.
pub open spec fn digits_value(s: Seq<char>) -> Option<nat>
    decreases s.len(),
{
    if s.len() == 0 {
        Some(0)
    } else {
        match (digits_value(s.drop_last()), digit_value(s.last())) {
            (Some(n), Some(d)) => Some(n * 10 + d),
            _ => None,
        }
    }
}

/// The number that `s` writes: an optional `+`, then one decimal digit or
/// more and nothing else, of a value that fits in 32 bits.
pub open spec fn parse_number(s: Seq<char>) -> Option<u32> {
    let digits = if s.len() > 0 && s[0] == '+' {
        s.skip(1)
    } else {
        s
    };
    if digits.len() == 0 {
        None
    } else {
        match digits_value(digits) {
            Some(n) => if n <= u32::MAX {
                Some(n as u32)
            } else {
                None
            },
            None => None,
        }
    }
}

/// What the first `k` digits write bounds what all of them write: a text
/// with a character that is no digit writes nothing, and digits that
/// follow only make the number larger.
pub proof fn lemma_digits_value_prefix(s: Seq<char>, k: int)
    requires
        0 <= k <= s.len(),
    ensures
        digits_value(s.take(k)) is None ==> digits_value(s) is None,
        digits_value(s) is Some ==> digits_value(s.take(k))->Some_0 <= digits_value(s)->Some_0,
    decreases s.len() - k,
{
    if k == s.len() {
        assert(s.take(k) =~= s);
    } else {
        lemma_digits_value_prefix(s, k + 1);
        assert(s.take(k + 1).drop_last() =~= s.take(k));
    }
}

/// The number that `s` writes, if it writes one.
pub fn parse_u32(s: &str) -> (n: Option<u32>)
    ensures
        n == parse_number(s@),
{
    let ghost digits = if s@.len() > 0 && s@[0] == '+' {
        s@.skip(1)
    } else {
        s@
    };
    if !s.is_ascii() {
        proof {
            let bad = choose|i: int| 0 <= i < s@.len() && !('\0' <= #[trigger] s@[i] <= '\u{7f}');
            let at = bad - (s@.len() - digits.len());
            assert(0 <= at < digits.len() && digits[at] == s@[bad]);
            assert(digits.take(at + 1).drop_last() =~= digits.take(at));
            assert(digits_value(digits.take(at + 1)) is None);
            lemma_digits_value_prefix(digits, at + 1);
        }
        return None;
    }
    let len = s.unicode_len();
    let mut i: usize = 0;
    if len > 0 && s.get_ascii(0) == PLUS {
        i = 1;
    }
    if i == len {
        return None;
    }
    let ghost start = i as int;
    assert(digits =~= s@.skip(start));
    assert(digits.take(0) =~= Seq::<char>::empty());
    let mut value: u64 = 0;
    while i < len
        invariant
            s.is_ascii(),
            len == s@.len(),
            start == s@.len() - digits.len(),
            digits == s@.skip(start),
            digits == if s@.len() > 0 && s@[0] == '+' {
                s@.skip(1)
            } else {
                s@
            },
            0 <= start <= i <= len,
            value <= u32::MAX,
            digits_value(digits.take(i - start)) == Some(value as nat),
        decreases len - i,
    {
        let b = s.get_ascii(i);
        let ghost k = i - start;
        proof {
            assert('\0' <= s@[i as int] <= '\u{7f}');
            assert(digits.take(k + 1).drop_last() =~= digits.take(k));
            assert(digits.take(k + 1).last() == s@[i as int]);
            lemma_digits_value_prefix(digits, k + 1);
        }
        if b < ZERO || b > NINE {
            return None;
        }
        let next: u64 = value * 10 + (b - ZERO) as u64;
        if next > 4294967295 {
            return None;
        }
        value = next;
        i += 1;
    }
    assert(digits.take(len - start) =~= digits);
    Some(value as u32)
}

/// What stands for `c` in escaped text: an entity for `&`, `<`, `>`, `"`
/// and `'`, the character itself for any other.
pub open spec fn escaped_char(c: char) -> Seq<char> {
    if c == '&' {
        "&amp;"@
    } else if c == '<' {
        "&lt;"@
    } else if c == '>' {
        "&gt;"@
    } else if c == '"' {
        "&quot;"@
    } else if c == '\'' {
        "&#39;"@
    } else {
        seq![c]
    }
}

/// `s` with every character that means something in markup replaced by
/// its entity.
pub open spec fn escaped(s: Seq<char>) -> Seq<char>
    decreases s.len(),
{
    if s.len() == 0 {
        Seq::empty()
    } else {
        escaped(s.drop_last()) + escaped_char(s.last())
    }
}

/// `c` can open or close a tag or an attribute value.
pub open spec fn is_markup_char(c: char) -> bool {
    c == '<' || c == '>' || c == '"' || c == '\''
}

/// Escaped text is inert: nothing in it opens or closes a tag or an
/// attribute value.
pub proof fn lemma_escaped_is_inert(s: Seq<char>)
    ensures
        forall|i: int| 0 <= i < escaped(s).len() ==> !is_markup_char(#[trigger] escaped(s)[i]),
    decreases s.len(),
{
    if s.len() > 0 {
        lemma_escaped_is_inert(s.drop_last());
        reveal_strlit("&amp;");
        reveal_strlit("&lt;");
        reveal_strlit("&gt;");
        reveal_strlit("&quot;");
        reveal_strlit("&#39;");
        let head = escaped(s.drop_last());
        let tail = escaped_char(s.last());
        assert forall|i: int| 0 <= i < escaped(s).len() implies !is_markup_char(
            #[trigger] escaped(s)[i],
        ) by {
            if i < head.len() {
                assert(escaped(s)[i] == head[i]);
            } else {
                assert(escaped(s)[i] == tail[i - head.len()]);
            }
        }
    }
}

/// Text without a character that means something in markup is its own
/// escaped form.
pub proof fn lemma_escaped_plain(s: Seq<char>)
    requires
        forall|i: int| 0 <= i < s.len() ==> !is_markup_char(#[trigger] s[i]) && s[i] != '&',
    ensures
        escaped(s) == s,
    decreases s.len(),
{
    if s.len() > 0 {
        lemma_escaped_plain(s.drop_last());
        assert(s.drop_last().push(s.last()) =~= s);
        assert(escaped(s.drop_last()) + seq![s.last()] =~= s);
    }
}

/// The entity of `c`, if it has one.
fn entity(c: char) -> (e: Option<&'static str>)
    ensures
        e is Some ==> e->Some_0@ == escaped_char(c),
        e is None ==> escaped_char(c) == seq![c],
{
    if c == '&' {
        Some("&amp;")
    } else if c == '<' {
        Some("&lt;")
    } else if c == '>' {
        Some("&gt;")
    } else if c == '"' {
        Some("&quot;")
    } else if c == '\'' {
        Some("&#39;")
    } else {
        None
    }
}

/// `s` with every character that means something in markup replaced by
/// its entity, for text that is to be shown and not read as markup.
pub fn escape(s: &str) -> (out: String)
    ensures
        out@ == escaped(s@),
{
    broadcast use vstd::string::group_string_axioms;

    let len = s.unicode_len();
    let mut chars = s.chars();
    let mut out = String::new();
    let mut run: usize = 0;
    let mut k: usize = 0;
    assert(s@.take(0) =~= Seq::<char>::empty());
    assert(s@.skip(0) =~= s@);
    assert(out@ + s@.subrange(0, 0) =~= Seq::<char>::empty());
    loop
        invariant
            len == s@.len(),
            run <= k <= len,
            chars.remaining() == s@.skip(k as int),
            out@ + s@.subrange(run as int, k as int) == escaped(s@.take(k as int)),
        decreases len - k,
    {
        match chars.next() {
            Some(c) => {
                proof {
                    assert(s@.take(k + 1).drop_last() =~= s@.take(k as int));
                    assert(s@.skip(k as int).drop_first() =~= s@.skip(k + 1));
                    assert(s@.subrange(run as int, k as int) + seq![c] =~= s@.subrange(
                        run as int,
                        k + 1,
                    ));
                }
                match entity(c) {
                    Some(e) => {
                        let ghost before = out@ + s@.subrange(run as int, k as int);
                        out.append(s.substring_char(run, k));
                        out.append(e);
                        run = k + 1;
                        assert(out@ + s@.subrange(run as int, k + 1) =~= before + e@);
                    },
                    None => {
                        assert(out@ + s@.subrange(run as int, k + 1) =~= out@ + s@.subrange(
                            run as int,
                            k as int,
                        ) + seq![c]);
                    },
                }
                k = k + 1;
            },
            None => {
                out.append(s.substring_char(run, k));
                assert(s@.take(k as int) =~= s@);
                return out;
            },
        }
    }
}

} // verus!
