//! Verified number formatting: the digit strings of unsigned integers
//! in decimal, binary, octal and hexadecimal notation, and the
//! scientific notation used by the exponent styles.

use vstd::prelude::*;

use crate::render::Renderable;
use crate::sink::RenderError;
use crate::sink::Sink;
use crate::text::chars_to_string;
use crate::text::Text;

verus! {

/// The character for one digit value below sixteen, in the requested
/// case.
pub open spec fn digit_char(d: nat, upper: bool) -> char {
    if d == 0 {
        '0'
    } else if d == 1 {
        '1'
    } else if d == 2 {
        '2'
    } else if d == 3 {
        '3'
    } else if d == 4 {
        '4'
    } else if d == 5 {
        '5'
    } else if d == 6 {
        '6'
    } else if d == 7 {
        '7'
    } else if d == 8 {
        '8'
    } else if d == 9 {
        '9'
    } else if d == 10 {
        if upper {
            'A'
        } else {
            'a'
        }
    } else if d == 11 {
        if upper {
            'B'
        } else {
            'b'
        }
    } else if d == 12 {
        if upper {
            'C'
        } else {
            'c'
        }
    } else if d == 13 {
        if upper {
            'D'
        } else {
            'd'
        }
    } else if d == 14 {
        if upper {
            'E'
        } else {
            'e'
        }
    } else {
        if upper {
            'F'
        } else {
            'f'
        }
    }
}

/// The decimal digit string of `n`, most significant digit first, with
/// no leading zero except for `n == 0` itself.
pub open spec fn dec_digits(n: nat) -> Seq<char>
    decreases n,
{
    if n < 10 {
        seq![digit_char(n, false)]
    } else {
        dec_digits(n / 10) + seq![digit_char(n % 10, false)]
    }
}

/// The hexadecimal digit string of `n`, in the requested case.
pub open spec fn hex_digits(n: nat, upper: bool) -> Seq<char>
    decreases n,
{
    if n < 16 {
        seq![digit_char(n, upper)]
    } else {
        hex_digits(n / 16, upper) + seq![digit_char(n % 16, upper)]
    }
}

/// The octal digit string of `n`.
pub open spec fn oct_digits(n: nat) -> Seq<char>
    decreases n,
{
    if n < 8 {
        seq![digit_char(n, false)]
    } else {
        oct_digits(n / 8) + seq![digit_char(n % 8, false)]
    }
}

/// The binary digit string of `n`.
pub open spec fn bin_digits(n: nat) -> Seq<char>
    decreases n,
{
    if n < 2 {
        seq![digit_char(n, false)]
    } else {
        bin_digits(n / 2) + seq![digit_char(n % 2, false)]
    }
}

/// The digit string with its trailing zeros removed.
pub open spec fn strip_trailing_zeros(ds: Seq<char>) -> Seq<char>
    decreases ds.len(),
{
    if ds.len() > 0 && ds.last() == '0' {
        strip_trailing_zeros(ds.drop_last())
    } else {
        ds
    }
}

/// The scientific-notation string of `n`: the significant digits with a
/// point after the first when there are several, then the exponent
/// marker in the requested case, then the exponent.
pub open spec fn exp_digits(n: nat, upper: bool) -> Seq<char> {
    let marker: char = if upper {
        'E'
    } else {
        'e'
    };
    if n == 0 {
        seq!['0', marker, '0']
    } else {
        let ds = dec_digits(n);
        let m = strip_trailing_zeros(ds);
        let e = (ds.len() - 1) as nat;
        if m.len() == 1 {
            m + seq![marker] + dec_digits(e)
        } else {
            seq![m[0], '.'] + m.skip(1) + seq![marker] + dec_digits(e)
        }
    }
}

/// The character for one digit value below sixteen.
fn digit_ch(d: u64, upper: bool) -> (c: char)
    requires
        d < 16,
    ensures
        c == digit_char(d as nat, upper),
{
    match d {
        0 => '0',
        1 => '1',
        2 => '2',
        3 => '3',
        4 => '4',
        5 => '5',
        6 => '6',
        7 => '7',
        8 => '8',
        9 => '9',
        10 => if upper {
            'A'
        } else {
            'a'
        },
        11 => if upper {
            'B'
        } else {
            'b'
        },
        12 => if upper {
            'C'
        } else {
            'c'
        },
        13 => if upper {
            'D'
        } else {
            'd'
        },
        14 => if upper {
            'E'
        } else {
            'e'
        },
        _ => if upper {
            'F'
        } else {
            'f'
        },
    }
}

/// The characters of `v` in reverse order.
fn reverse_chars(v: &Vec<char>) -> (r: Vec<char>)
    ensures
        r@ == v@.reverse(),
{
    let mut r: Vec<char> = Vec::new();
    let mut i = v.len();
    while i > 0
        invariant
            i <= v.len(),
            r@ =~= v@.subrange(i as int, v.len() as int).reverse(),
        decreases i,
    {
        i = i - 1;
        r.push(v[i]);
        proof {
            assert(r@ =~= v@.subrange(i as int, v.len() as int).reverse());
        }
    }
    proof {
        assert(v@.subrange(0, v.len() as int) =~= v@);
    }
    r
}

/// The decimal digit characters of `n`, most significant first.
pub fn u64_to_dec_chars(n: u64) -> (r: Vec<char>)
    ensures
        r@ == dec_digits(n as nat),
{
    let mut rev: Vec<char> = Vec::new();
    let mut m: u64 = n;
    while m >= 10
        invariant
            dec_digits(n as nat) =~= dec_digits(m as nat) + rev@.reverse(),
        decreases m,
    {
        let c = digit_ch(m % 10, false);
        proof {
            assert(rev@.push(c).reverse() =~= seq![c] + rev@.reverse());
            assert(dec_digits(m as nat) + rev@.reverse() =~= dec_digits((m / 10) as nat) + (
            seq![c] + rev@.reverse()));
        }
        rev.push(c);
        m = m / 10;
    }
    let c = digit_ch(m, false);
    proof {
        assert(rev@.push(c).reverse() =~= seq![c] + rev@.reverse());
        assert(dec_digits(m as nat) + rev@.reverse() =~= seq![c] + rev@.reverse());
    }
    rev.push(c);
    reverse_chars(&rev)
}

/// The decimal digit string of `n`.
pub fn u64_to_dec(n: u64) -> (s: String)
    ensures
        s@ == dec_digits(n as nat),
{
    let v = u64_to_dec_chars(n);
    chars_to_string(&v)
}

/// The hexadecimal digit string of `n`, in the requested case.
pub fn u64_to_hex(n: u64, upper: bool) -> (s: String)
    ensures
        s@ == hex_digits(n as nat, upper),
{
    let mut rev: Vec<char> = Vec::new();
    let mut m: u64 = n;
    while m >= 16
        invariant
            hex_digits(n as nat, upper) =~= hex_digits(m as nat, upper) + rev@.reverse(),
        decreases m,
    {
        let c = digit_ch(m % 16, upper);
        proof {
            assert(rev@.push(c).reverse() =~= seq![c] + rev@.reverse());
            assert(hex_digits(m as nat, upper) + rev@.reverse() =~= hex_digits(
                (m / 16) as nat,
                upper,
            ) + (seq![c] + rev@.reverse()));
        }
        rev.push(c);
        m = m / 16;
    }
    let c = digit_ch(m, upper);
    proof {
        assert(rev@.push(c).reverse() =~= seq![c] + rev@.reverse());
        assert(hex_digits(m as nat, upper) + rev@.reverse() =~= seq![c] + rev@.reverse());
    }
    rev.push(c);
    let v = reverse_chars(&rev);
    chars_to_string(&v)
}

/// The octal digit string of `n`.
pub fn u64_to_oct(n: u64) -> (s: String)
    ensures
        s@ == oct_digits(n as nat),
{
    let mut rev: Vec<char> = Vec::new();
    let mut m: u64 = n;
    while m >= 8
        invariant
            oct_digits(n as nat) =~= oct_digits(m as nat) + rev@.reverse(),
        decreases m,
    {
        let c = digit_ch(m % 8, false);
        proof {
            assert(rev@.push(c).reverse() =~= seq![c] + rev@.reverse());
            assert(oct_digits(m as nat) + rev@.reverse() =~= oct_digits((m / 8) as nat) + (
            seq![c] + rev@.reverse()));
        }
        rev.push(c);
        m = m / 8;
    }
    let c = digit_ch(m, false);
    proof {
        assert(rev@.push(c).reverse() =~= seq![c] + rev@.reverse());
        assert(oct_digits(m as nat) + rev@.reverse() =~= seq![c] + rev@.reverse());
    }
    rev.push(c);
    let v = reverse_chars(&rev);
    chars_to_string(&v)
}

/// The binary digit string of `n`.
pub fn u64_to_bin(n: u64) -> (s: String)
    ensures
        s@ == bin_digits(n as nat),
{
    let mut rev: Vec<char> = Vec::new();
    let mut m: u64 = n;
    while m >= 2
        invariant
            bin_digits(n as nat) =~= bin_digits(m as nat) + rev@.reverse(),
        decreases m,
    {
        let c = digit_ch(m % 2, false);
        proof {
            assert(rev@.push(c).reverse() =~= seq![c] + rev@.reverse());
            assert(bin_digits(m as nat) + rev@.reverse() =~= bin_digits((m / 2) as nat) + (
            seq![c] + rev@.reverse()));
        }
        rev.push(c);
        m = m / 2;
    }
    let c = digit_ch(m, false);
    proof {
        assert(rev@.push(c).reverse() =~= seq![c] + rev@.reverse());
        assert(bin_digits(m as nat) + rev@.reverse() =~= seq![c] + rev@.reverse());
    }
    rev.push(c);
    let v = reverse_chars(&rev);
    chars_to_string(&v)
}

/// The scientific-notation string of `n`, with the exponent marker in
/// the requested case.
pub fn u64_to_exp(n: u64, upper: bool) -> (s: String)
    ensures
        s@ == exp_digits(n as nat, upper),
{
    let marker: char = if upper {
        'E'
    } else {
        'e'
    };
    if n == 0 {
        let mut v: Vec<char> = Vec::new();
        v.push('0');
        v.push(marker);
        v.push('0');
        proof {
            assert(v@ =~= exp_digits(0, upper));
        }
        return chars_to_string(&v);
    }
    let ds = u64_to_dec_chars(n);
    let mut k = ds.len();
    proof {
        assert(ds@.take(k as int) =~= ds@);
    }
    while k > 0 && ds[k - 1] == '0'
        invariant
            k <= ds.len(),
            ds@ == dec_digits(n as nat),
            strip_trailing_zeros(ds@) == strip_trailing_zeros(ds@.take(k as int)),
        decreases k,
    {
        proof {
            assert(ds@.take(k as int).drop_last() =~= ds@.take(k - 1 as int));
        }
        k = k - 1;
    }
    proof {
        assert(ds@.take(ds@.len() as int) =~= ds@);
        if k == 0 {
            assert(ds@.take(0) =~= Seq::<char>::empty());
            assert(strip_trailing_zeros(ds@) =~= Seq::<char>::empty());
            assert(dec_digits(n as nat).len() > 0);
            assert(dec_digits(n as nat)[0] != '0') by {
                lemma_dec_digits_no_leading_zero(n as nat);
            }
            assert(strip_trailing_zeros(ds@).len() > 0) by {
                lemma_strip_keeps_nonzero_head(ds@);
            }
            assert(false);
        }
        assert(strip_trailing_zeros(ds@) == ds@.take(k as int));
    }
    let ghost m_spec = strip_trailing_zeros(ds@);
    let mut out: Vec<char> = Vec::new();
    out.push(ds[0]);
    if k > 1 {
        out.push('.');
        let mut i: usize = 1;
        while i < k
            invariant
                1 <= i <= k,
                k <= ds.len(),
                ds@ == dec_digits(n as nat),
                m_spec == ds@.take(k as int),
                out@ =~= seq![ds@[0], '.'] + ds@.take(k as int).skip(1).take(i - 1 as int),
            decreases k - i,
        {
            out.push(ds[i]);
            proof {
                assert(out@ =~= seq![ds@[0], '.'] + ds@.take(k as int).skip(1).take(i as int));
            }
            i = i + 1;
        }
        proof {
            assert(ds@.take(k as int).skip(1).take(k - 1 as int) =~= ds@.take(k as int).skip(1));
        }
    }
    out.push(marker);
    let e: u64 = (ds.len() - 1) as u64;
    let ev = u64_to_dec_chars(e);
    let mut j: usize = 0;
    let ghost base = out@;
    while j < ev.len()
        invariant
            j <= ev.len(),
            ev@ == dec_digits((ds@.len() - 1) as nat),
            out@ =~= base + ev@.take(j as int),
        decreases ev.len() - j,
    {
        out.push(ev[j]);
        proof {
            assert(out@ =~= base + ev@.take(j + 1 as int));
        }
        j = j + 1;
    }
    proof {
        assert(ev@.take(ev@.len() as int) =~= ev@);
        if m_spec.len() == 1 {
            assert(out@ =~= exp_digits(n as nat, upper));
        } else {
            assert(m_spec[0] == ds@[0]);
            assert(m_spec.skip(1) =~= ds@.take(k as int).skip(1));
            assert(out@ =~= exp_digits(n as nat, upper));
        }
    }
    chars_to_string(&out)
}

/// The leading digit of a positive number is never zero.
proof fn lemma_dec_digits_no_leading_zero(n: nat)
    requires
        n > 0,
    ensures
        dec_digits(n).len() > 0,
        dec_digits(n)[0] != '0',
    decreases n,
{
    if n >= 10 {
        lemma_dec_digits_no_leading_zero(n / 10);
    }
}

/// Stripping trailing zeros keeps a non-zero head character.
proof fn lemma_strip_keeps_nonzero_head(ds: Seq<char>)
    requires
        ds.len() > 0,
        ds[0] != '0',
    ensures
        strip_trailing_zeros(ds).len() > 0,
    decreases ds.len(),
{
    if ds.len() > 0 && ds.last() == '0' {
        lemma_strip_keeps_nonzero_head(ds.drop_last());
    }
}

/// `base` raised to the `k`-th power.
pub open spec fn pow_of(base: nat, k: nat) -> nat
    decreases k,
{
    if k == 0 {
        1
    } else {
        base * pow_of(base, (k - 1) as nat)
    }
}

/// A number below the `k`-th power of ten has at most `k` decimal
/// digits.
pub proof fn lemma_dec_digits_len(n: nat, k: nat)
    requires
        1 <= k,
        n < pow_of(10, k),
    ensures
        dec_digits(n).len() <= k,
    decreases k,
{
    if n >= 10 {
        if k == 1 {
            assert(pow_of(10, 1) == 10 * pow_of(10, 0));
            assert(false);
        }
        assert(pow_of(10, k) == 10 * pow_of(10, (k - 1) as nat));
        assert(n / 10 < pow_of(10, (k - 1) as nat)) by (nonlinear_arith)
            requires
                n < 10 * pow_of(10, (k - 1) as nat),
        ;
        lemma_dec_digits_len(n / 10, (k - 1) as nat);
    }
}

/// A number below the `k`-th power of sixteen has at most `k`
/// hexadecimal digits.
pub proof fn lemma_hex_digits_len(n: nat, k: nat, upper: bool)
    requires
        1 <= k,
        n < pow_of(16, k),
    ensures
        hex_digits(n, upper).len() <= k,
    decreases k,
{
    if n >= 16 {
        if k == 1 {
            assert(pow_of(16, 1) == 16 * pow_of(16, 0));
            assert(false);
        }
        assert(pow_of(16, k) == 16 * pow_of(16, (k - 1) as nat));
        assert(n / 16 < pow_of(16, (k - 1) as nat)) by (nonlinear_arith)
            requires
                n < 16 * pow_of(16, (k - 1) as nat),
        ;
        lemma_hex_digits_len(n / 16, (k - 1) as nat, upper);
    }
}

/// A number below the `k`-th power of eight has at most `k` octal
/// digits.
pub proof fn lemma_oct_digits_len(n: nat, k: nat)
    requires
        1 <= k,
        n < pow_of(8, k),
    ensures
        oct_digits(n).len() <= k,
    decreases k,
{
    if n >= 8 {
        if k == 1 {
            assert(pow_of(8, 1) == 8 * pow_of(8, 0));
            assert(false);
        }
        assert(pow_of(8, k) == 8 * pow_of(8, (k - 1) as nat));
        assert(n / 8 < pow_of(8, (k - 1) as nat)) by (nonlinear_arith)
            requires
                n < 8 * pow_of(8, (k - 1) as nat),
        ;
        lemma_oct_digits_len(n / 8, (k - 1) as nat);
    }
}

/// A number below the `k`-th power of two has at most `k` binary
/// digits.
pub proof fn lemma_bin_digits_len(n: nat, k: nat)
    requires
        1 <= k,
        n < pow_of(2, k),
    ensures
        bin_digits(n).len() <= k,
    decreases k,
{
    if n >= 2 {
        if k == 1 {
            assert(pow_of(2, 1) == 2 * pow_of(2, 0));
            assert(false);
        }
        assert(pow_of(2, k) == 2 * pow_of(2, (k - 1) as nat));
        assert(n / 2 < pow_of(2, (k - 1) as nat)) by (nonlinear_arith)
            requires
                n < 2 * pow_of(2, (k - 1) as nat),
        ;
        lemma_bin_digits_len(n / 2, (k - 1) as nat);
    }
}

/// A 64-bit number has at most 20 decimal digits.
pub proof fn lemma_dec_digits_len_u64(n: u64)
    ensures
        dec_digits(n as nat).len() <= 20,
{
    reveal_with_fuel(pow_of, 21);
    assert(pow_of(10, 20) > u64::MAX);
    lemma_dec_digits_len(n as nat, 20);
}

/// A 64-bit number has at most 16 hexadecimal digits.
pub proof fn lemma_hex_digits_len_u64(n: u64, upper: bool)
    ensures
        hex_digits(n as nat, upper).len() <= 16,
{
    reveal_with_fuel(pow_of, 17);
    assert(pow_of(16, 16) > u64::MAX);
    lemma_hex_digits_len(n as nat, 16, upper);
}

/// A 64-bit number has at most 22 octal digits.
pub proof fn lemma_oct_digits_len_u64(n: u64)
    ensures
        oct_digits(n as nat).len() <= 22,
{
    reveal_with_fuel(pow_of, 23);
    assert(pow_of(8, 22) > u64::MAX);
    lemma_oct_digits_len(n as nat, 22);
}

/// A 64-bit number has at most 64 binary digits.
pub proof fn lemma_bin_digits_len_u64(n: u64)
    ensures
        bin_digits(n as nat).len() <= 64,
{
    reveal_with_fuel(pow_of, 65);
    assert(pow_of(2, 64) > u64::MAX);
    lemma_bin_digits_len(n as nat, 64);
}

/// Stripping trailing zeros never lengthens a digit string.
pub proof fn lemma_strip_len_le(ds: Seq<char>)
    ensures
        strip_trailing_zeros(ds).len() <= ds.len(),
    decreases ds.len(),
{
    if ds.len() > 0 && ds.last() == '0' {
        lemma_strip_len_le(ds.drop_last());
    }
}

/// The scientific notation of a 64-bit number is short: at most 25
/// characters.
pub proof fn lemma_exp_digits_len_u64(n: u64, upper: bool)
    ensures
        exp_digits(n as nat, upper).len() <= 25,
{
    if n != 0 {
        let ds = dec_digits(n as nat);
        lemma_dec_digits_len_u64(n);
        lemma_strip_len_le(ds);
        reveal_with_fuel(pow_of, 3);
        assert(pow_of(10, 2) == 100);
        assert(ds.len() >= 1);
        lemma_dec_digits_len((ds.len() - 1) as nat, 2);
        let m = strip_trailing_zeros(ds);
        let e = (ds.len() - 1) as nat;
        assert(dec_digits(e).len() <= 2);
        assert(m.len() <= 20);
        lemma_dec_digits_no_leading_zero(n as nat);
        lemma_strip_keeps_nonzero_head(ds);
        assert(m.len() >= 1);
        let marker: char = if upper {
            'E'
        } else {
            'e'
        };
        if m.len() == 1 {
            assert(exp_digits(n as nat, upper).len() == m.len() + 1 + dec_digits(e).len());
        } else {
            assert(exp_digits(n as nat, upper).len() == 2 + m.skip(1).len() + 1 + dec_digits(
                e,
            ).len());
            assert(m.skip(1).len() <= 19);
        }
        assert(exp_digits(n as nat, upper).len() <= 25);
    } else {
        assert(n as nat == 0);
        assert(exp_digits(0, upper).len() == 3);
    }
}

/// A number rendered in decimal.
pub struct Num(Text);

impl Num {
    /// Wraps the given number; it renders as its decimal digit string.
    pub fn new(n: u64) -> (t: Num)
        ensures
            t.wf(),
            t.text() == dec_digits(n as nat),
    {
        let s = u64_to_dec(n);
        Num(Text::new(s.as_str()))
    }
}

impl Renderable for Num {
    closed spec fn wf(&self) -> bool {
        self.0.wf()
    }

    closed spec fn text(&self) -> Seq<char> {
        self.0.text()
    }

    proof fn text_bounded(&self) {
        self.0.text_bounded();
    }

    fn render(&self, sink: &mut Sink) -> (r: Result<(), RenderError>) {
        self.0.render(sink)
    }
}

} // verus!
