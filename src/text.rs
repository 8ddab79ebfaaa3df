use vstd::prelude::*;

verus! {

/// The digit character of `d` (below ten).
pub open spec fn digit_text(d: nat) -> Seq<char> {
    if d == 0 {
        "0"@
    } else if d == 1 {
        "1"@
    } else if d == 2 {
        "2"@
    } else if d == 3 {
        "3"@
    } else if d == 4 {
        "4"@
    } else if d == 5 {
        "5"@
    } else if d == 6 {
        "6"@
    } else if d == 7 {
        "7"@
    } else if d == 8 {
        "8"@
    } else {
        "9"@
    }
}

/// Decimal notation of `n`, without leading zeros.
pub open spec fn decimal_text(n: nat) -> Seq<char>
    decreases n,
{
    if n < 10 {
        digit_text(n)
    } else {
        decimal_text(n / 10) + digit_text(n % 10)
    }
}

/// Decimal notation of a signed integer.
pub open spec fn signed_text(v: int) -> Seq<char> {
    if v < 0 {
        "-"@ + decimal_text((-v) as nat)
    } else {
        decimal_text(v as nat)
    }
}

/// A value given in hundredths, written with two decimals (`-3` is `-0.03`).
pub open spec fn centi_text(v: int) -> Seq<char> {
    let m: nat = if v < 0 { (-v) as nat } else { v as nat };
    (if v < 0 { "-"@ } else { Seq::<char>::empty() }) + decimal_text(m / 100) + "."@
        + digit_text((m % 100) / 10) + digit_text(m % 10)
}

/// `n` copies of `piece`.
pub open spec fn repeat_text(piece: Seq<char>, n: nat) -> Seq<char>
    decreases n,
{
    if n == 0 {
        Seq::empty()
    } else {
        repeat_text(piece, (n - 1) as nat) + piece
    }
}

/// `s` padded on the right with spaces to `width` characters.
pub open spec fn pad_right_text(s: Seq<char>, width: nat) -> Seq<char> {
    if s.len() < width {
        s + repeat_text(" "@, (width - s.len()) as nat)
    } else {
        s
    }
}

/// Appends the digit character of `d`.
pub fn push_digit(s: &mut String, d: u64)
    requires
        d < 10,
    ensures
        final(s)@ == old(s)@ + digit_text(d as nat),
{
    if d == 0 {
        s.append("0");
    } else if d == 1 {
        s.append("1");
    } else if d == 2 {
        s.append("2");
    } else if d == 3 {
        s.append("3");
    } else if d == 4 {
        s.append("4");
    } else if d == 5 {
        s.append("5");
    } else if d == 6 {
        s.append("6");
    } else if d == 7 {
        s.append("7");
    } else if d == 8 {
        s.append("8");
    } else {
        s.append("9");
    }
}

/// Appends the decimal notation of `n`.
pub fn push_decimal(s: &mut String, n: u64)
    ensures
        final(s)@ == old(s)@ + decimal_text(n as nat),
    decreases n,
{
    if n >= 10 {
        push_decimal(s, n / 10);
        push_digit(s, n % 10);
        assert(final(s)@ =~= old(s)@ + decimal_text(n as nat));
    } else {
        push_digit(s, n);
    }
}

/// Magnitude of a signed integer, without overflow at the lowest value.
fn magnitude(v: i64) -> (r: u64)
    ensures
        r as int == if v < 0 { -v } else { v as int },
{
    if v < 0 {
        ((0 - (v + 1)) as u64) + 1
    } else {
        v as u64
    }
}

/// Appends the decimal notation of a signed integer.
pub fn push_signed(s: &mut String, v: i64)
    ensures
        final(s)@ == old(s)@ + signed_text(v as int),
{
    let m = magnitude(v);
    if v < 0 {
        s.append("-");
    }
    push_decimal(s, m);
    assert(final(s)@ =~= old(s)@ + signed_text(v as int));
}

/// Appends a value given in hundredths, with two decimals.
pub fn push_centi(s: &mut String, v: i64)
    ensures
        final(s)@ == old(s)@ + centi_text(v as int),
{
    let m = magnitude(v);
    if v < 0 {
        s.append("-");
    }
    push_decimal(s, m / 100);
    s.append(".");
    push_digit(s, (m % 100) / 10);
    push_digit(s, m % 10);
    assert(final(s)@ =~= old(s)@ + centi_text(v as int));
}

/// Appends `piece` `n` times.
pub fn push_repeated(s: &mut String, piece: &str, n: usize)
    ensures
        final(s)@ == old(s)@ + repeat_text(piece@, n as nat),
{
    let mut i: usize = 0;
    while i < n
        invariant
            i <= n,
            s@ == old(s)@ + repeat_text(piece@, i as nat),
        decreases n - i,
    {
        s.append(piece);
        i = i + 1;
        assert(s@ =~= old(s)@ + repeat_text(piece@, i as nat));
    }
}

/// Appends `t` padded on the right with spaces to `width` characters.
pub fn push_padded(s: &mut String, t: &str, width: usize)
    ensures
        final(s)@ == old(s)@ + pad_right_text(t@, width as nat),
{
    let len = t.unicode_len();
    s.append(t);
    if len < width {
        push_repeated(s, " ", width - len);
    }
    assert(final(s)@ =~= old(s)@ + pad_right_text(t@, width as nat));
}

} // verus!
