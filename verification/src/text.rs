use vstd::prelude::*;
use vstd::string::StrSliceExecFns;

verus! {

/// The character that writes the decimal digit `d`.
pub open spec fn digit_char(d: nat) -> char {
    if d == 0 { '0' }
    else if d == 1 { '1' }
    else if d == 2 { '2' }
    else if d == 3 { '3' }
    else if d == 4 { '4' }
    else if d == 5 { '5' }
    else if d == 6 { '6' }
    else if d == 7 { '7' }
    else if d == 8 { '8' }
    else { '9' }
}

/// Decimal notation of a natural number, most significant digit first, no leading zeros.
pub open spec fn decimal(n: nat) -> Seq<char>
    decreases n,
{
    if n < 10 {
        seq![digit_char(n)]
    } else {
        decimal(n / 10).push(digit_char(n % 10))
    }
}

/// Decimal notation of an integer, as Rust's `Display` writes it: a minus sign before negatives.
pub open spec fn int_text(n: int) -> Seq<char> {
    if n < 0 {
        seq!['-'] + decimal((-n) as nat)
    } else {
        decimal(n as nat)
    }
}

/// Rust's integer division, which rounds toward zero (spec `/` is Euclidean).
pub open spec fn tdiv(a: int, b: int) -> int {
    if a >= 0 {
        a / b
    } else {
        -((-a) / b)
    }
}

/// `s` followed by spaces up to `width` characters, as the format width `{:width}` pads text.
pub open spec fn padded(s: Seq<char>, width: nat) -> Seq<char> {
    if s.len() >= width {
        s
    } else {
        s + Seq::new((width - s.len()) as nat, |i: int| ' ')
    }
}

fn digit_str(d: u64) -> (s: &'static str)
    requires
        d < 10,
    ensures
        s@ == seq![digit_char(d as nat)],
{
    if d == 0 {
        proof { reveal_strlit("0"); }
        "0"
    } else if d == 1 {
        proof { reveal_strlit("1"); }
        "1"
    } else if d == 2 {
        proof { reveal_strlit("2"); }
        "2"
    } else if d == 3 {
        proof { reveal_strlit("3"); }
        "3"
    } else if d == 4 {
        proof { reveal_strlit("4"); }
        "4"
    } else if d == 5 {
        proof { reveal_strlit("5"); }
        "5"
    } else if d == 6 {
        proof { reveal_strlit("6"); }
        "6"
    } else if d == 7 {
        proof { reveal_strlit("7"); }
        "7"
    } else if d == 8 {
        proof { reveal_strlit("8"); }
        "8"
    } else {
        proof { reveal_strlit("9"); }
        "9"
    }
}

fn push_decimal(out: &mut String, n: u64)
    ensures
        final(out)@ == old(out)@ + decimal(n as nat),
    decreases n,
{
    if n >= 10 {
        push_decimal(out, n / 10);
    }
    let d = digit_str(n % 10);
    out.append(d);
    assert(final(out)@ =~= old(out)@ + decimal(n as nat));
}

/// Writes an integer in decimal, as `to_string` does.
pub fn int_to_string(n: i64) -> (s: String)
    ensures
        s@ == int_text(n as int),
{
    let mut s = String::new();
    if n < 0 {
        proof { reveal_strlit("-"); }
        s.append("-");
        let m: u64 = if n == i64::MIN { 9223372036854775808u64 } else { (-n) as u64 };
        push_decimal(&mut s, m);
        assert(s@ =~= int_text(n as int));
    } else {
        push_decimal(&mut s, n as u64);
        assert(s@ =~= int_text(n as int));
    }
    s
}

/// Writes an unsigned integer in decimal, as `to_string` does.
pub fn u64_to_string(n: u64) -> (s: String)
    ensures
        s@ == decimal(n as nat),
{
    let mut s = String::new();
    push_decimal(&mut s, n);
    assert(s@ =~= decimal(n as nat));
    s
}

/// Whether a character is one of the decimal digits `0` to `9`.
pub open spec fn is_digit(c: char) -> bool {
    '0' <= c && c <= '9'
}

/// The number that the decimal digits `s` write, most significant first.
pub open spec fn digits_value(s: Seq<char>) -> int
    decreases s.len(),
{
    if s.len() == 0 {
        0
    } else {
        digits_value(s.drop_last()) * 10 + (s.last() as int - '0' as int)
    }
}

/// The unsigned integer that `s` writes in decimal exactly as `to_string` writes it (no sign,
/// no leading zero), if `s` is such a text and the number fits in `u64`.
pub open spec fn decimal_u64(s: Seq<char>) -> Option<u64> {
    if 0 <= digits_value(s) <= u64::MAX && decimal(digits_value(s) as nat) == s {
        Some(digits_value(s) as u64)
    } else {
        None
    }
}

proof fn digit_char_value(d: nat)
    requires
        d < 10,
    ensures
        is_digit(digit_char(d)),
        digit_char(d) as int - '0' as int == d,
{
}

proof fn decimal_is_digits(n: nat)
    ensures
        decimal(n).len() >= 1,
        forall|i: int| 0 <= i < decimal(n).len() ==> is_digit(#[trigger] decimal(n)[i]),
        digits_value(decimal(n)) == n,
    decreases n,
{
    if n < 10 {
        digit_char_value(n);
        let t = decimal(n);
        assert(t.drop_last() =~= Seq::<char>::empty());
        assert(digits_value(t.drop_last()) == 0);
        assert(digits_value(t) == digits_value(t.drop_last()) * 10 + (t.last() as int - '0' as int));
    } else {
        decimal_is_digits(n / 10);
        digit_char_value(n % 10);
        let t = decimal(n);
        assert(t.drop_last() =~= decimal(n / 10));
        assert(t.last() == digit_char(n % 10));
        assert(digits_value(t) == digits_value(t.drop_last()) * 10 + (t.last() as int - '0' as int));
        assert((n / 10) * 10 + n % 10 == n);
    }
}

proof fn digits_value_nonneg(s: Seq<char>)
    requires
        forall|i: int| 0 <= i < s.len() ==> is_digit(#[trigger] s[i]),
    ensures
        digits_value(s) >= 0,
    decreases s.len(),
{
    if s.len() > 0 {
        digits_value_nonneg(s.drop_last());
    }
}

proof fn digits_prefix_at_most(s: Seq<char>, k: int)
    requires
        0 <= k <= s.len(),
        forall|i: int| 0 <= i < s.len() ==> is_digit(#[trigger] s[i]),
    ensures
        0 <= digits_value(s.take(k)) <= digits_value(s),
    decreases s.len(),
{
    digits_value_nonneg(s);
    if k < s.len() {
        digits_prefix_at_most(s.drop_last(), k);
        assert(s.drop_last().take(k) =~= s.take(k));
    } else {
        assert(s.take(k) =~= s);
    }
}

/// A user id written by `to_string` reads back as the same id.
pub proof fn decimal_reads_back(n: u64)
    ensures
        decimal_u64(decimal(n as nat)) == Some(n),
{
    decimal_is_digits(n as nat);
}

/// A text that reads as a number is that number written by `to_string`.
pub proof fn decimal_u64_is_decimal(s: Seq<char>)
    ensures
        decimal_u64(s) matches Some(n) ==> s == decimal(n as nat),
{
}

/// Reads an unsigned integer written in decimal as `to_string` writes it; `None` for any other
/// text, and for a number above `u64::MAX`.
pub fn parse_decimal_u64(s: &str) -> (r: Option<u64>)
    ensures
        r == decimal_u64(s@),
{
    let cs = chars_of(s);
    let n = cs.len();
    let mut acc: u64 = 0;
    let mut i: usize = 0;
    assert(s@.take(0) =~= Seq::<char>::empty());
    while i < n
        invariant
            n == s@.len(),
            cs@ == s@,
            i <= n,
            acc == digits_value(s@.take(i as int)),
            forall|j: int| 0 <= j < i ==> is_digit(#[trigger] s@[j]),
        decreases n - i,
    {
        let c = cs[i];
        if c < '0' || c > '9' {
            proof {
                if decimal_u64(s@) is Some {
                    decimal_is_digits(digits_value(s@) as nat);
                    assert(is_digit(s@[i as int]));
                }
            }
            return None;
        }
        let d: u64 = (c as u32 - '0' as u32) as u64;
        proof {
            assert(s@.take((i + 1) as int).drop_last() =~= s@.take(i as int));
            assert(s@.take((i + 1) as int).last() == c);
        }
        let next = match acc.checked_mul(10) {
            Some(m) => m.checked_add(d),
            None => None,
        };
        match next {
            Some(v) => {
                acc = v;
            },
            None => {
                proof {
                    if decimal_u64(s@) is Some {
                        decimal_is_digits(digits_value(s@) as nat);
                        digits_prefix_at_most(s@, (i + 1) as int);
                    }
                }
                return None;
            },
        }
        i = i + 1;
    }
    assert(s@.take(n as int) =~= s@);
    let text = u64_to_string(acc);
    if same_text(text.as_str(), s) {
        Some(acc)
    } else {
        None
    }
}

/// Copies `s` and pads it with spaces to at least `width` characters.
pub fn pad_to(s: &str, width: usize) -> (r: String)
    ensures
        r@ == padded(s@, width as nat),
{
    let mut r = String::from_str(s);
    let n = s.unicode_len();
    let mut k = n;
    while k < width
        invariant
            n == s@.len(),
            n <= k,
            n < width ==> k <= width,
            n >= width ==> k == n,
            r@ == s@ + Seq::new((k - n) as nat, |i: int| ' '),
        decreases width - k,
    {
        proof { reveal_strlit(" "); }
        r.append(" ");
        k = k + 1;
        assert(r@ =~= s@ + Seq::new((k - n) as nat, |i: int| ' '));
    }
    assert(r@ =~= padded(s@, width as nat));
    r
}

/// The characters of `s`, one per element.
pub fn chars_of(s: &str) -> (v: Vec<char>)
    ensures
        v@ == s@,
{
    let n = s.unicode_len();
    let mut v: Vec<char> = Vec::new();
    let mut i: usize = 0;
    while i < n
        invariant
            n == s@.len(),
            i <= n,
            v@ == s@.take(i as int),
        decreases n - i,
    {
        v.push(s.get_char(i));
        i = i + 1;
        assert(v@ =~= s@.take(i as int));
    }
    assert(s@.take(n as int) =~= s@);
    v
}

/// Whether two texts hold the same characters.
pub fn same_text(a: &str, b: &str) -> (r: bool)
    ensures
        r == (a@ == b@),
{
    let x = String::from_str(a);
    let y = String::from_str(b);
    x == y
}

/// The texts of `parts` with `sep` between each two of them, as `join` writes them.
pub open spec fn join_seq(parts: Seq<Seq<char>>, sep: Seq<char>) -> Seq<char>
    decreases parts.len(),
{
    if parts.len() == 0 {
        Seq::empty()
    } else if parts.len() == 1 {
        parts[0]
    } else {
        join_seq(parts.drop_last(), sep) + sep + parts.last()
    }
}

/// The texts that a list of strings holds.
pub open spec fn texts_of(v: Seq<String>) -> Seq<Seq<char>> {
    v.map_values(|s: String| s@)
}

/// Joins `parts` with `sep` between each two of them.
pub fn join_texts(parts: &Vec<String>, sep: &str) -> (r: String)
    ensures
        r@ == join_seq(texts_of(parts@), sep@),
{
    let mut r = String::new();
    let n = parts.len();
    let mut i: usize = 0;
    while i < n
        invariant
            n == parts.len(),
            i <= n,
            r@ == join_seq(texts_of(parts@).take(i as int), sep@),
        decreases n - i,
    {
        let ghost before = texts_of(parts@).take(i as int);
        if i > 0 {
            r.append(sep);
        }
        r.append(parts[i].as_str());
        i = i + 1;
        proof {
            let now = texts_of(parts@).take(i as int);
            assert(now.drop_last() =~= before);
            assert(now.last() == parts@[i - 1]@);
            if i == 1 {
                assert(before.len() == 0);
                assert(r@ =~= join_seq(now, sep@));
            }
        }
    }
    assert(texts_of(parts@).take(n as int) =~= texts_of(parts@));
    r
}

/// Writes an `i32` in decimal.
pub fn i32_to_string(n: i32) -> (s: String)
    ensures
        s@ == int_text(n as int),
{
    int_to_string(n as i64)
}

/// The pieces of `s` between the occurrences of `sep`, as `split(sep)` gives them: one more
/// piece than there are separators, empty pieces included.
pub open spec fn split_on(s: Seq<char>, sep: char) -> Seq<Seq<char>>
    decreases s.len(),
{
    if s.len() == 0 {
        seq![Seq::empty()]
    } else {
        let init = split_on(s.drop_last(), sep);
        if s.last() == sep {
            init.push(Seq::empty())
        } else {
            init.update(init.len() - 1, init.last().push(s.last()))
        }
    }
}

/// A split always has at least one piece.
pub proof fn split_not_empty(s: Seq<char>, sep: char)
    ensures
        split_on(s, sep).len() >= 1,
    decreases s.len(),
{
    if s.len() > 0 {
        split_not_empty(s.drop_last(), sep);
    }
}

/// Splits `s` at each occurrence of `sep`.
pub fn split_text(s: &str, sep: char) -> (pieces: Vec<String>)
    ensures
        texts_of(pieces@) == split_on(s@, sep),
{
    let cs = chars_of(s);
    let n = cs.len();
    let mut pieces: Vec<String> = Vec::new();
    let mut start: usize = 0;
    let mut i: usize = 0;
    assert(s@.take(0) =~= Seq::<char>::empty());
    assert(texts_of(pieces@) =~= Seq::<Seq<char>>::empty());
    assert(texts_of(pieces@).push(s@.subrange(0, 0)) =~= split_on(s@.take(0), sep));
    while i < n
        invariant
            n == s@.len(),
            cs@ == s@,
            start <= i <= n,
            texts_of(pieces@).push(s@.subrange(start as int, i as int)) == split_on(
                s@.take(i as int),
                sep,
            ),
        decreases n - i,
    {
        proof {
            assert(s@.take((i + 1) as int).drop_last() =~= s@.take(i as int));
            assert(s@.take((i + 1) as int).last() == s@[i as int]);
        }
        let ghost before = texts_of(pieces@);
        let ghost sub = s@.subrange(start as int, i as int);
        if cs[i] == sep {
            let piece = String::from_str(s.substring_char(start, i));
            pieces.push(piece);
            start = i + 1;
            proof {
                assert(texts_of(pieces@) =~= before.push(sub));
                assert(s@.subrange(start as int, (i + 1) as int) =~= Seq::<char>::empty());
            }
        } else {
            proof {
                assert(s@.subrange(start as int, (i + 1) as int) =~= sub.push(s@[i as int]));
                assert(before.push(sub).update(before.len() as int, sub.push(s@[i as int])) =~= before.push(
                    sub.push(s@[i as int]),
                ));
            }
        }
        i = i + 1;
    }
    let last = String::from_str(s.substring_char(start, n));
    pieces.push(last);
    assert(s@.take(n as int) =~= s@);
    assert(texts_of(pieces@) =~= texts_of(pieces@.drop_last()).push(s@.subrange(start as int, n as int)));
    pieces
}

proof fn join_extend_last(p: Seq<Seq<char>>, sep: Seq<char>, c: char)
    requires
        p.len() >= 1,
    ensures
        join_seq(p.update(p.len() - 1, p.last().push(c)), sep) == join_seq(p, sep).push(c),
{
    let q = p.update(p.len() - 1, p.last().push(c));
    if p.len() > 1 {
        assert(q.drop_last() =~= p.drop_last());
    }
    assert(join_seq(q, sep) =~= join_seq(p, sep).push(c));
}

/// Splitting at a separator and joining the pieces back with it gives the text back.
pub proof fn split_then_join_is_identity(s: Seq<char>, sep: char)
    ensures
        join_seq(split_on(s, sep), seq![sep]) == s,
    decreases s.len(),
{
    split_not_empty(s, sep);
    if s.len() == 0 {
        assert(join_seq(split_on(s, sep), seq![sep]) =~= s);
    } else {
        let init = split_on(s.drop_last(), sep);
        split_then_join_is_identity(s.drop_last(), sep);
        split_not_empty(s.drop_last(), sep);
        if s.last() == sep {
            let p = init.push(Seq::<char>::empty());
            assert(p.drop_last() =~= init);
            assert(join_seq(p, seq![sep]) =~= s);
        } else {
            join_extend_last(init, seq![sep], s.last());
            assert(join_seq(split_on(s, sep), seq![sep]) =~= s);
        }
    }
}

/// No piece of a split holds the separator.
pub proof fn split_pieces_hold_no_separator(s: Seq<char>, sep: char)
    ensures
        forall|i: int, j: int|
            0 <= i < split_on(s, sep).len() && 0 <= j < split_on(s, sep)[i].len()
                ==> split_on(s, sep)[i][j] != sep,
    decreases s.len(),
{
    split_not_empty(s, sep);
    if s.len() > 0 {
        split_pieces_hold_no_separator(s.drop_last(), sep);
        split_not_empty(s.drop_last(), sep);
    }
}

} // verus!
