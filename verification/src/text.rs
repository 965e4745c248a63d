//! Numbers as text, and text as numbers.
use vstd::prelude::*;
use vstd::string::*;

verus! {

/// The decimal digit that stands for `d`.
pub open spec fn digit_char(d: nat) -> char {
    if d == 0 {
        '0'
    } else if d == 1 {
        '1'
    } else if d == 2 {
        '2'
    } else if d == 3 {
        '3'
    } else if d == 4 {
        '4'
    } else if d == 5 {
        '5'
    } else if d == 6 {
        '6'
    } else if d == 7 {
        '7'
    } else if d == 8 {
        '8'
    } else {
        '9'
    }
}

/// `n` in decimal notation, without leading zeros.
pub open spec fn decimal(n: nat) -> Seq<char>
    decreases n,
{
    if n < 10 {
        seq![digit_char(n)]
    } else {
        decimal(n / 10).push(digit_char(n % 10))
    }
}

/// `n` in decimal notation, with a minus sign where it is negative.
pub open spec fn decimal_int(n: int) -> Seq<char> {
    if n < 0 {
        seq!['-'] + decimal((-n) as nat)
    } else {
        decimal(n as nat)
    }
}

/// `n` in decimal notation, always with a sign.
pub open spec fn signed_decimal(n: int) -> Seq<char> {
    if n < 0 {
        decimal_int(n)
    } else {
        seq!['+'] + decimal_int(n)
    }
}

/// `s` behind as many spaces as it takes to fill `width` characters.
pub open spec fn pad_left(s: Seq<char>, width: nat) -> Seq<char> {
    if s.len() >= width {
        s
    } else {
        Seq::new((width - s.len()) as nat, |i: int| ' ') + s
    }
}

/// The digit that stands for `d`, as text.
fn digit_text(d: u8) -> (text: &'static str)
    requires
        d < 10,
    ensures
        text@ == seq![digit_char(d as nat)],
{
    proof {
        reveal_strlit("0");
        reveal_strlit("1");
        reveal_strlit("2");
        reveal_strlit("3");
        reveal_strlit("4");
        reveal_strlit("5");
        reveal_strlit("6");
        reveal_strlit("7");
        reveal_strlit("8");
        reveal_strlit("9");
    }
    match d {
        0 => "0",
        1 => "1",
        2 => "2",
        3 => "3",
        4 => "4",
        5 => "5",
        6 => "6",
        7 => "7",
        8 => "8",
        _ => "9",
    }
}

/// Appends `n` in decimal notation.
pub fn push_decimal(out: &mut String, n: u64)
    ensures
        final(out)@ == old(out)@ + decimal(n as nat),
    decreases n,
{
    if n < 10 {
        out.append(digit_text(n as u8));
    } else {
        push_decimal(out, n / 10);
        out.append(digit_text((n % 10) as u8));
    }
}

/// Appends `n` in decimal notation, with a minus sign where it is negative.
pub fn push_decimal_int(out: &mut String, n: i64)
    ensures
        final(out)@ == old(out)@ + decimal_int(n as int),
{
    if n < 0 {
        proof {
            reveal_strlit("-");
        }
        out.append("-");
        let magnitude: u64 = (-(n + 1)) as u64 + 1;
        push_decimal(out, magnitude);
        assert("-"@ =~= seq!['-']);
        assert(out@ =~= old(out)@ + decimal_int(n as int));
    } else {
        push_decimal(out, n as u64);
    }
}

/// `n` in decimal notation.
pub fn decimal_text(n: i64) -> (text: String)
    ensures
        text@ == decimal_int(n as int),
{
    let mut text = String::new();
    push_decimal_int(&mut text, n);
    assert(text@ =~= decimal_int(n as int));
    text
}

/// Appends `n` in decimal notation with its sign, a plus sign for zero.
pub fn push_signed_decimal(out: &mut String, n: i64)
    ensures
        final(out)@ == old(out)@ + signed_decimal(n as int),
{
    if n >= 0 {
        proof {
            reveal_strlit("+");
        }
        out.append("+");
        push_decimal_int(out, n);
        assert("+"@ =~= seq!['+']);
        assert(out@ =~= old(out)@ + signed_decimal(n as int));
    } else {
        push_decimal_int(out, n);
    }
}

/// Appends `text`, right-aligned in a column of `width` characters.
pub fn push_padded(out: &mut String, text: &String, width: usize)
    ensures
        final(out)@ == old(out)@ + pad_left(text@, width as nat),
{
    let len: usize = text.as_str().unicode_len();
    let ghost before = out@;
    let mut done: usize = 0;
    if len < width {
        proof {
            reveal_strlit(" ");
        }
        while done < width - len
            invariant
                len < width,
                done <= width - len,
                " "@ == seq![' '],
                out@ == before + Seq::new(done as nat, |i: int| ' '),
            decreases width - len - done,
        {
            out.append(" ");
            done = done + 1;
            assert(out@ =~= before + Seq::new(done as nat, |i: int| ' '));
        }
    }
    out.append(text.as_str());
    assert(out@ =~= before + pad_left(text@, width as nat));
}

/// The value of a decimal digit.
pub open spec fn digit_value(c: char) -> Option<nat> {
    if '0' <= c && c <= '9' {
        Some((c as int - '0' as int) as nat)
    } else {
        None
    }
}

/// The number that a run of decimal digits stands for, if it holds nothing
/// else. The empty run stands for zero.
pub open spec fn digits_value(s: Seq<char>) -> Option<nat>
    decreases s.len(),
{
    if s.len() == 0 {
        Some(0)
    } else {
        match (digits_value(s.drop_last()), digit_value(s.last())) {
            (Some(v), Some(d)) => Some(10 * v + d),
            _ => None,
        }
    }
}

/// The 32-bit number that `s` spells: an optional plus sign, then at least one
/// decimal digit and nothing else.
pub open spec fn parsed_u32(s: Seq<char>) -> Option<u32> {
    let digits = if s.len() > 0 && s[0] == '+' {
        s.skip(1)
    } else {
        s
    };
    if digits.len() == 0 {
        None
    } else {
        match digits_value(digits) {
            Some(v) => if v <= u32::MAX {
                Some(v as u32)
            } else {
                None
            },
            None => None,
        }
    }
}

/// A run of digits is no number as soon as a prefix of it is none, and its value
/// is no less than that of a prefix.
proof fn lemma_digits_prefix(s: Seq<char>, k: int)
    requires
        0 <= k <= s.len(),
    ensures
        digits_value(s.take(k)) is None ==> digits_value(s) is None,
        digits_value(s) is Some ==> digits_value(s.take(k)) is Some && digits_value(s)->0
            >= digits_value(s.take(k))->0,
    decreases s.len() - k,
{
    if k == s.len() {
        assert(s.take(k) =~= s);
    } else {
        lemma_digits_prefix(s, k + 1);
        assert(s.take(k + 1).drop_last() =~= s.take(k));
    }
}

/// Reads the 32-bit number that `text` spells.
pub fn parse_u32(text: &str) -> (r: Option<u32>)
    ensures
        r == parsed_u32(text@),
{
    let len: usize = text.unicode_len();
    let mut start: usize = 0;
    if len > 0 && text.get_char(0) == '+' {
        start = 1;
    }
    let ghost digits = text@.skip(start as int);
    assert(start == 0 ==> digits =~= text@);
    if start == len {
        return None;
    }
    let mut value: u32 = 0;
    let mut i: usize = start;
    assert(digits.take(0) =~= Seq::<char>::empty());
    while i < len
        invariant
            start <= i <= len,
            len == text@.len(),
            start < len,
            digits == text@.skip(start as int),
            digits == if text@.len() > 0 && text@[0] == '+' {
                text@.skip(1)
            } else {
                text@
            },
            digits_value(digits.take(i - start)) == Some(value as nat),
        decreases len - i,
    {
        let c: char = text.get_char(i);
        proof {
            let k = i - start;
            lemma_digits_prefix(digits, k + 1);
            assert(digits.take(k + 1).drop_last() =~= digits.take(k));
            assert(digits.take(k + 1).last() == c);
        }
        if c < '0' || c > '9' {
            return None;
        }
        let d: u32 = c as u32 - '0' as u32;
        let next: u64 = value as u64 * 10 + d as u64;
        if next > u32::MAX as u64 {
            return None;
        }
        value = next as u32;
        i = i + 1;
    }
    assert(digits.take(len - start) =~= digits);
    Some(value)
}

/// The position of the first `c` in `s`, or the length of `s` where there is none.
pub open spec fn first_index(s: Seq<char>, c: char) -> nat
    decreases s.len(),
{
    if s.len() == 0 {
        0
    } else if s[0] == c {
        0
    } else {
        1 + first_index(s.skip(1), c)
    }
}

/// The pieces of `s` between the separators.
pub open spec fn split_on(s: Seq<char>, separator: char) -> Seq<Seq<char>>
    decreases s.len(),
{
    let at = first_index(s, separator);
    if at >= s.len() {
        seq![s]
    } else {
        seq![s.take(at as int)] + split_on(s.skip(at as int + 1), separator)
    }
}

/// `first_index` finds the first position, and finds one wherever there is one.
proof fn lemma_first_index(s: Seq<char>, c: char)
    ensures
        first_index(s, c) <= s.len(),
        forall|i: int| 0 <= i < first_index(s, c) ==> s[i] != c,
        first_index(s, c) < s.len() ==> s[first_index(s, c) as int] == c,
        first_index(s, c) < s.len() <==> s.contains(c),
    decreases s.len(),
{
    if s.len() > 0 && s[0] != c {
        let rest = s.skip(1);
        lemma_first_index(rest, c);
        assert forall|i: int| 0 <= i < first_index(s, c) implies s[i] != c by {
            if i > 0 {
                assert(s[i] == rest[i - 1]);
            }
        }
        if s.contains(c) {
            let k = choose|k: int| 0 <= k < s.len() && s[k] == c;
            assert(rest[k - 1] == c);
        }
    }
}

/// A position before which `c` does not occur, and at which it does, is the first
/// one; likewise the end of a text in which it does not occur.
proof fn lemma_first_index_is(s: Seq<char>, c: char, k: int)
    requires
        0 <= k <= s.len(),
        forall|i: int| 0 <= i < k ==> s[i] != c,
        k < s.len() ==> s[k] == c,
    ensures
        first_index(s, c) == k,
{
    lemma_first_index(s, c);
    if first_index(s, c) < k {
        assert(s[first_index(s, c) as int] == c);
    }
}

/// The position of the first `c` in `text`, at `from` or behind it.
fn find_char(text: &str, c: char, from: usize) -> (at: usize)
    requires
        from <= text@.len(),
    ensures
        at == from + first_index(text@.skip(from as int), c),
        from <= at <= text@.len(),
{
    let len: usize = text.unicode_len();
    let ghost rest = text@.skip(from as int);
    let mut i: usize = from;
    while i < len
        invariant
            from <= i <= len,
            len == text@.len(),
            rest == text@.skip(from as int),
            forall|j: int| 0 <= j < i - from ==> rest[j] != c,
        decreases len - i,
    {
        assert(rest[i - from] == text@[i as int]);
        if text.get_char(i) == c {
            proof {
                lemma_first_index_is(rest, c, i - from);
            }
            return i;
        }
        i = i + 1;
    }
    proof {
        lemma_first_index_is(rest, c, len - from);
    }
    len
}

/// Whether `c` occurs in `text`.
pub fn contains_char(text: &str, c: char) -> (r: bool)
    ensures
        r == text@.contains(c),
{
    let at: usize = find_char(text, c, 0);
    proof {
        assert(text@.skip(0) =~= text@);
        lemma_first_index(text@, c);
    }
    at < text.unicode_len()
}

/// The first two pieces of `text` between the separators.
pub fn first_two_pieces(text: &str, separator: char) -> (r: (String, String))
    requires
        text@.contains(separator),
    ensures
        split_on(text@, separator).len() >= 2,
        r.0@ == split_on(text@, separator)[0],
        r.1@ == split_on(text@, separator)[1],
{
    let len: usize = text.unicode_len();
    let first: usize = find_char(text, separator, 0);
    proof {
        assert(text@.skip(0) =~= text@);
        lemma_first_index(text@, separator);
    }
    let second: usize = find_char(text, separator, first + 1);
    let ghost rest = text@.skip(first + 1);
    let left = String::from_str(text.substring_char(0, first));
    let right = String::from_str(text.substring_char(first + 1, second));
    assert(left@ =~= text@.take(first as int));
    assert(rest.take(second - first - 1) =~= right@);
    assert(second == len ==> right@ =~= rest);
    proof {
        reveal_with_fuel(split_on, 2);
        lemma_first_index(rest, separator);
    }
    (left, right)
}

// What holds of every number and every text.

/// A run of digits is read from left to right: one more digit multiplies what was
/// read so far by ten and adds its own value, and one more character that is no
/// digit spoils the run.
pub proof fn law_digits_are_read_in_turn(s: Seq<char>, c: char)
    ensures
        digits_value(Seq::empty()) == Some(0nat),
        digits_value(s.push(c)) is Some <==> digits_value(s) is Some && 48 <= c as int <= 57,
        digits_value(s.push(c)) matches Some(v) ==> v == 10 * digits_value(s)->0 + (c as int - 48),
{
    assert(s.push(c).drop_last() =~= s);
}

/// What is written in decimal reads back as the number that it was, consists of
/// digits, and starts with a zero only where the number is zero.
pub proof fn law_decimals_read_back(n: nat)
    ensures
        digits_value(decimal(n)) == Some(n),
        decimal(n).len() > 0,
        forall|i: int| 0 <= i < decimal(n).len() ==> 48 <= #[trigger] decimal(n)[i] as int <= 57,
        n > 0 ==> decimal(n)[0] != '0',
        n < 10 ==> decimal(n).len() == 1,
    decreases n,
{
    if n < 10 {
        assert(decimal(n).drop_last() =~= Seq::empty());
        assert(digits_value(Seq::empty()) == Some(0nat));
    } else {
        law_decimals_read_back(n / 10);
        assert(decimal(n).drop_last() =~= decimal(n / 10));
    }
}

/// A 32-bit number is read back from its decimal notation, with or without a plus
/// sign. Only a run of digits behind at most one plus sign is read at all, and only
/// where it stands for a number that fits.
pub proof fn law_numbers_are_parsed(n: u32, s: Seq<char>)
    ensures
        parsed_u32(decimal(n as nat)) == Some(n),
        parsed_u32(seq!['+'] + decimal(n as nat)) == Some(n),
        s.len() == 0 ==> parsed_u32(s) is None,
        s.len() > 0 && s[0] != '+' && digits_value(s) is None ==> parsed_u32(s) is None,
        s.len() > 0 && s[0] != '+' && digits_value(s) is Some ==> (match parsed_u32(s) {
            Some(v) => digits_value(s) == Some(v as nat),
            None => digits_value(s)->0 > 0xffff_ffff,
        }),
        s.len() > 0 && s[0] == '+' ==> parsed_u32(s) == (if s.len() > 1 && s[1] == '+' {
            None
        } else {
            parsed_u32(s.skip(1))
        }),
{
    law_decimals_read_back(n as nat);
    let signed = seq!['+'] + decimal(n as nat);
    assert(signed.skip(1) =~= decimal(n as nat));
    assert(decimal(n as nat)[0] != '+');
    if s.len() > 1 && s[0] == '+' && s[1] == '+' {
        let rest = s.skip(1);
        lemma_digits_prefix(rest, 1);
        assert(rest.take(1) =~= Seq::<char>::empty().push('+'));
        assert(rest.take(1).drop_last() =~= Seq::<char>::empty());
        assert(digits_value(rest.take(1)) is None);
    }
}

/// A negative number is written with a minus sign before its magnitude, any other
/// without one; where the sign is always written, those have a plus sign.
pub proof fn law_signs_are_written(n: int)
    ensures
        n < 0 ==> decimal_int(n) == seq!['-'] + decimal((-n) as nat),
        n >= 0 ==> decimal_int(n) == decimal(n as nat),
        n < 0 ==> signed_decimal(n) == seq!['-'] + decimal((-n) as nat),
        n >= 0 ==> signed_decimal(n) == seq!['+'] + decimal(n as nat),
{
}

/// A text that is padded fills the width and ends with what it was; all before that
/// is blank. One that is wide enough is left as it is.
pub proof fn law_padding_keeps_the_text(s: Seq<char>, width: nat)
    ensures
        pad_left(s, width).len() == if s.len() > width {
            s.len()
        } else {
            width
        },
        pad_left(s, width).skip(pad_left(s, width).len() - s.len()) == s,
        forall|i: int|
            0 <= i < pad_left(s, width).len() - s.len() ==> #[trigger] pad_left(s, width)[i] == ' ',
{
    assert(pad_left(s, width).skip(pad_left(s, width).len() - s.len()) =~= s);
}

/// Pieces with separators between them.
pub open spec fn joined(pieces: Seq<Seq<char>>, separator: char) -> Seq<char>
    decreases pieces.len(),
{
    if pieces.len() == 0 {
        Seq::empty()
    } else if pieces.len() == 1 {
        pieces[0]
    } else {
        pieces[0] + seq![separator] + joined(pieces.skip(1), separator)
    }
}

/// The pieces of a text make up the text again when they are joined, and none of
/// them holds the separator.
pub proof fn law_pieces_make_up_the_text(s: Seq<char>, separator: char)
    ensures
        split_on(s, separator).len() > 0,
        joined(split_on(s, separator), separator) == s,
        forall|i: int|
            0 <= i < split_on(s, separator).len() ==> !(#[trigger] split_on(
                s,
                separator,
            )[i]).contains(separator),
    decreases s.len(),
{
    lemma_first_index(s, separator);
    let at = first_index(s, separator) as int;
    if at < s.len() {
        let rest = s.skip(at + 1);
        law_pieces_make_up_the_text(rest, separator);
        let pieces = split_on(s, separator);
        assert(pieces.skip(1) =~= split_on(rest, separator));
        assert(s =~= s.take(at) + seq![separator] + rest);
        assert(!s.take(at).contains(separator));
        assert forall|i: int| 0 <= i < pieces.len() implies !(#[trigger] pieces[i]).contains(
            separator,
        ) by {
            if i > 0 {
                assert(pieces[i] == split_on(rest, separator)[i - 1]);
            }
        }
    }
}

/// A text that is made of two pieces without the separator splits into them.
pub proof fn law_two_pieces_are_told_apart(a: Seq<char>, b: Seq<char>, separator: char)
    requires
        !a.contains(separator),
        !b.contains(separator),
    ensures
        split_on(a + seq![separator] + b, separator) == seq![a, b],
{
    let s = a + seq![separator] + b;
    assert forall|i: int| 0 <= i < a.len() implies s[i] != separator by {
        assert(s[i] == a[i]);
    }
    lemma_first_index_is(s, separator, a.len() as int);
    assert(s.take(a.len() as int) =~= a);
    assert(s.skip(a.len() as int + 1) =~= b);
    lemma_first_index(b, separator);
    reveal_with_fuel(split_on, 2);
    assert(split_on(s, separator) =~= seq![a, b]);
}

} // verus!
