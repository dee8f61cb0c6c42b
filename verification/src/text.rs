use vstd::prelude::*;
use vstd::string::*;

verus! {

/// The character that writes the decimal digit `d`.
pub open spec fn digit_char(d: nat) -> char {
    seq!['0', '1', '2', '3', '4', '5', '6', '7', '8', '9'][d as int]
}

/// The shortest decimal numeral of `n`.
pub open spec fn decimal(n: nat) -> Seq<char>
    decreases n,
{
    if n < 10 {
        seq![digit_char(n)]
    } else {
        decimal(n / 10) + seq![digit_char(n % 10)]
    }
}

/// The decimal numeral of `n`, with zeros in front up to `width` characters.
pub open spec fn zero_padded(n: nat, width: nat) -> Seq<char> {
    let d = decimal(n);
    if d.len() >= width {
        d
    } else {
        Seq::new((width - d.len()) as nat, |i: int| '0') + d
    }
}

/// Ten to the power `k`.
pub open spec fn pow10(k: nat) -> nat
    decreases k,
{
    if k == 0 {
        1
    } else {
        10 * pow10((k - 1) as nat)
    }
}

/// A numeral below `10^k` has at most `k` digits, and every character of a
/// numeral is a digit.
pub proof fn lemma_decimal_shape(n: nat, k: nat)
    requires
        1 <= k,
        n < pow10(k),
    ensures
        decimal(n).len() <= k,
        forall|i: int| 0 <= i < decimal(n).len() ==> '0' <= #[trigger] decimal(n)[i] <= '9',
    decreases k,
{
    if n >= 10 {
        let p = pow10((k - 1) as nat);
        assert(n / 10 < p) by (nonlinear_arith)
            requires
                n < 10 * p,
        ;
        if k == 1 {
            assert(false);
        }
        lemma_decimal_shape(n / 10, (k - 1) as nat);
        let d = decimal(n / 10);
        assert(decimal(n) == d + seq![digit_char(n % 10)]);
        assert forall|i: int| 0 <= i < decimal(n).len() implies '0' <= #[trigger] decimal(n)[i] <= '9' by {
            if i < d.len() {
                assert(decimal(n)[i] == d[i]);
            } else {
                assert(n % 10 < 10);
            }
        }
    }
}

/// A zero-padded numeral of a number below `10^width` has exactly `width`
/// characters, all digits.
pub proof fn lemma_zero_padded_shape(n: nat, width: nat)
    requires
        1 <= width,
        n < pow10(width),
    ensures
        zero_padded(n, width).len() == width,
        forall|i: int| 0 <= i < width ==> '0' <= #[trigger] zero_padded(n, width)[i] <= '9',
{
    lemma_decimal_shape(n, width);
    let d = decimal(n);
    if d.len() < width {
        let z = Seq::new((width - d.len()) as nat, |i: int| '0');
        assert forall|i: int| 0 <= i < width implies '0' <= #[trigger] zero_padded(n, width)[i] <= '9' by {
            if i < z.len() {
                assert(zero_padded(n, width)[i] == z[i]);
            } else {
                assert(zero_padded(n, width)[i] == d[i - z.len()]);
            }
        }
    }
}

/// The one-character text of a decimal digit.
fn digit_str(d: u32) -> (s: &'static str)
    requires
        d < 10,
    ensures
        s@ == seq![digit_char(d as nat)],
{
    if d == 0 {
        proof { reveal_strlit("0"); }
        "0"
    } else if d == 1 {
        proof { reveal_strlit("1"); }
        "1"
    } else if d == 2 {
        proof { reveal_strlit("2"); }
        "2"
    } else if d == 3 {
        proof { reveal_strlit("3"); }
        "3"
    } else if d == 4 {
        proof { reveal_strlit("4"); }
        "4"
    } else if d == 5 {
        proof { reveal_strlit("5"); }
        "5"
    } else if d == 6 {
        proof { reveal_strlit("6"); }
        "6"
    } else if d == 7 {
        proof { reveal_strlit("7"); }
        "7"
    } else if d == 8 {
        proof { reveal_strlit("8"); }
        "8"
    } else {
        proof { reveal_strlit("9"); }
        "9"
    }
}

/// Appends the decimal numeral of `n` to `out`.
pub fn push_decimal(out: &mut String, n: u32)
    ensures
        final(out)@ == old(out)@ + decimal(n as nat),
    decreases n,
{
    if n >= 10 {
        push_decimal(out, n / 10);
    }
    out.append(digit_str(n % 10));
}

/// The number of characters of the decimal numeral of `n`.
fn decimal_len(n: u32) -> (len: u64)
    ensures
        len == decimal(n as nat).len(),
        1 <= len <= n as int + 1,
    decreases n,
{
    if n >= 10 {
        decimal_len(n / 10) + 1
    } else {
        1
    }
}

/// Appends the decimal numeral of `n` to `out`, zero-padded to `width` characters.
pub fn push_zero_padded(out: &mut String, n: u32, width: u32)
    ensures
        final(out)@ == old(out)@ + zero_padded(n as nat, width as nat),
{
    let len = decimal_len(n);
    let width = width as u64;
    let ghost start = out@;
    if len < width {
        let mut k: u64 = 0;
        while k < width - len
            invariant
                len < width,
                k <= width - len,
                out@ == start + Seq::new(k as nat, |i: int| '0'),
            decreases width - len - k,
        {
            proof { reveal_strlit("0"); }
            out.append("0");
            k = k + 1;
            assert(out@ =~= start + Seq::new(k as nat, |i: int| '0'));
        }
    }
    push_decimal(out, n);
    assert(out@ =~= start + zero_padded(n as nat, width as nat));
}


/// Whether two texts hold the same characters.
pub fn same_text(a: &str, b: &str) -> (r: bool)
    ensures
        r == (a@ == b@),
{
    let n = a.unicode_len();
    if n != b.unicode_len() {
        return false;
    }
    let mut i: usize = 0;
    while i < n
        invariant
            n == a@.len(),
            n == b@.len(),
            i <= n,
            forall|j: int| 0 <= j < i ==> a@[j] == b@[j],
        decreases n - i,
    {
        if a.get_char(i) != b.get_char(i) {
            return false;
        }
        i = i + 1;
    }
    assert(a@ =~= b@);
    true
}

/// `s` holds the separator `..` at position `i`.
pub open spec fn dots_at(s: Seq<char>, i: int) -> bool {
    0 <= i && i + 1 < s.len() && s[i] == '.' && s[i + 1] == '.'
}

/// `s` holds the separator `..` somewhere.
pub open spec fn has_dots(s: Seq<char>) -> bool {
    exists|i: int| dots_at(s, i)
}

/// The pieces of `s` between the separators `..`, taken from left to right
/// without overlap, as `str::split("..")` yields them.
pub open spec fn split_on_dots(s: Seq<char>) -> Seq<Seq<char>>
    decreases s.len(),
{
    if s.len() < 2 {
        seq![s]
    } else if s[0] == '.' && s[1] == '.' {
        seq![Seq::<char>::empty()] + split_on_dots(s.skip(2))
    } else {
        let rest = split_on_dots(s.drop_first());
        rest.update(0, seq![s[0]] + rest[0])
    }
}

/// Splitting always yields at least one piece.
pub proof fn lemma_split_nonempty(s: Seq<char>)
    ensures
        split_on_dots(s).len() >= 1,
    decreases s.len(),
{
    if s.len() >= 2 {
        if s[0] == '.' && s[1] == '.' {
            lemma_split_nonempty(s.skip(2));
        } else {
            lemma_split_nonempty(s.drop_first());
        }
    }
}

/// Without a separator, splitting yields the whole text.
pub proof fn lemma_split_without_dots(s: Seq<char>)
    requires
        !has_dots(s),
    ensures
        split_on_dots(s) == seq![s],
    decreases s.len(),
{
    if s.len() >= 2 {
        assert(!dots_at(s, 0));
        let t = s.drop_first();
        assert forall|j: int| !dots_at(t, j) by {
            if dots_at(t, j) {
                assert(dots_at(s, j + 1));
            }
        }
        lemma_split_without_dots(t);
        assert(seq![s[0]] + t =~= s);
        assert(split_on_dots(s) =~= seq![s]);
    }
}

/// Splitting at the first separator: the piece before it, then the pieces of the rest.
pub proof fn lemma_split_at_first(s: Seq<char>, i: int)
    requires
        dots_at(s, i),
        forall|j: int| 0 <= j < i ==> !dots_at(s, j),
    ensures
        split_on_dots(s) == seq![s.take(i)] + split_on_dots(s.skip(i + 2)),
    decreases i,
{
    if i == 0 {
        assert(s.take(0) =~= Seq::<char>::empty());
    } else {
        assert(!dots_at(s, 0));
        let t = s.drop_first();
        assert(dots_at(t, i - 1));
        assert forall|j: int| 0 <= j < i - 1 implies !dots_at(t, j) by {
            assert(!dots_at(s, j + 1));
        }
        lemma_split_at_first(t, i - 1);
        lemma_split_nonempty(t.skip(i + 1));
        assert(t.skip(i + 1) =~= s.skip(i + 2));
        assert(seq![s[0]] + t.take(i - 1) =~= s.take(i));
        assert(split_on_dots(s) =~= seq![s.take(i)] + split_on_dots(s.skip(i + 2)));
    }
}

/// The first position at or after `from` where `s` holds `..`.
pub fn find_dots(s: &str, from: usize) -> (r: Option<usize>)
    ensures
        r matches Some(i) ==> from <= i && dots_at(s@, i as int)
            && forall|j: int| from <= j < i ==> !dots_at(s@, j),
        r is None ==> forall|j: int| from <= j ==> !dots_at(s@, j),
{
    let n = s.unicode_len();
    let mut i = from;
    while i < n && n - i >= 2
        invariant
            n == s@.len(),
            from <= i,
            forall|j: int| from <= j < i ==> !dots_at(s@, j),
        decreases n - i,
    {
        if s.get_char(i) == '.' && s.get_char(i + 1) == '.' {
            return Some(i);
        }
        i = i + 1;
    }
    None
}

} // verus!
