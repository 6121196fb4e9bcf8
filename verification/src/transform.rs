//! Fast Fourier transforms over fixed-point complex samples.
//!
//! The transforms are radix-2, decimation-in-frequency: every stage halves
//! its butterfly outputs so that no intermediate value can leave the
//! representable range, which matches the usual fixed-point convention of
//! scaling a length-`n` forward transform by `1/n`.  `OutputOrder::Raw`
//! leaves the results in butterfly order; `OutputOrder::Standard` applies
//! the bit-reversal permutation, yielding conventional bin order.
//!
//! The contracts describe each sample by its raw bit pattern as a
//! mathematical integer.  `cfft_spec` pins the exact output of a
//! transform, butterfly by butterfly, including the rescaling and
//! saturation of every step, as a function of the input sequence, the
//! direction, the output order, and the coefficient tables.

use vstd::arithmetic::div_mod::lemma_div_is_ordered;
use vstd::arithmetic::div_mod::lemma_div_multiples_vanish;
use vstd::arithmetic::div_mod::lemma_fundamental_div_mod;
use vstd::arithmetic::div_mod::lemma_fundamental_div_mod_converse;
use vstd::prelude::*;

use crate::fixedpoint::floor_div_i64;
use crate::fixedpoint::saturate;
use crate::fixedpoint::Q15;
use crate::fixedpoint::Q31;
use crate::tables::lemma_q15_quarter_sin_range;
use crate::tables::lemma_q31_quarter_sin_range;
use crate::tables::q15_quarter_sin;
use crate::tables::q15_quarter_sin_lookup;
use crate::tables::q31_quarter_sin;
use crate::tables::q31_quarter_sin_lookup;

verus! {

/// Transform directions.
#[derive(Debug, Copy, Clone, PartialEq, Eq, Structural)]
pub enum Direction {
    /// Forward transform (time to frequency): negative kernel exponent.
    Forward,
    /// Inverse transform (frequency to time): positive kernel exponent.
    Inverse,
}

/// Transform output orderings.
#[derive(Debug, Copy, Clone, PartialEq, Eq, Structural)]
pub enum OutputOrder {
    /// The output is straight out of the butterfly stages, not in the
    /// expected order.  No bit reversal has been applied.
    Raw,
    /// Bit reversal has been applied to the output, leaving the bins in
    /// the standard order of increasing frequency index.
    Standard,
}

impl Default for OutputOrder {
    /// Returns the Standard output order.
    fn default() -> (r: Self)
        ensures
            r == OutputOrder::Standard,
    {
        OutputOrder::Standard
    }
}

/// The complex transform lengths with a precomputed coefficient schedule.
pub open spec fn is_supported_cfft_size(n: int) -> bool {
    ||| n == 16
    ||| n == 32
    ||| n == 64
    ||| n == 128
    ||| n == 256
    ||| n == 512
    ||| n == 1024
    ||| n == 2048
    ||| n == 4096
}

/// The real transform lengths with a precomputed coefficient schedule.
pub open spec fn is_supported_rfft_size(n: int) -> bool {
    ||| n == 32
    ||| n == 64
    ||| n == 128
    ||| n == 256
    ||| n == 512
    ||| n == 1024
    ||| n == 2048
    ||| n == 4096
}

/// Two to the power `e`.
pub open spec fn two_to(e: nat) -> int
    decreases e,
{
    if e == 0 {
        1
    } else {
        2 * two_to((e - 1) as nat)
    }
}

proof fn lemma_two_to_mono(a: nat, b: nat)
    requires
        a <= b,
    ensures
        0 < two_to(a) <= two_to(b),
    decreases b,
{
    if b > 0 {
        if a == b {
            lemma_two_to_mono((a - 1) as nat, (b - 1) as nat);
        } else {
            lemma_two_to_mono(a, (b - 1) as nat);
        }
    }
}

proof fn lemma_two_to_divides(a: nat, b: nat)
    requires
        a <= b,
    ensures
        two_to(b) % two_to(a) == 0,
        two_to(b) / two_to(a) == two_to((b - a) as nat),
    decreases b,
{
    lemma_two_to_mono(a, b);
    if a == b {
        lemma_div_multiples_vanish(1, two_to(a));
        lemma_fundamental_div_mod(two_to(a), two_to(a));
    } else {
        lemma_two_to_divides(a, (b - 1) as nat);
        let p = two_to(a);
        let q = two_to((b - 1 - a) as nat);
        assert(two_to((b - 1) as nat) == p * q + 0) by {
            lemma_fundamental_div_mod(two_to((b - 1) as nat), p);
        }
        assert(two_to(b) == p * (2 * q)) by (nonlinear_arith)
            requires
                two_to(b) == 2 * two_to((b - 1) as nat),
                two_to((b - 1) as nat) == p * q,
        ;
        lemma_fundamental_div_mod_converse(two_to(b), p, 2 * q, 0);
    }
}

/// The quarter-wave sine table of the format with limit `lim`.
pub open spec fn quarter_sin(lim: int, i: int) -> int {
    if lim == 0x8000 {
        q15_quarter_sin(i)
    } else {
        q31_quarter_sin(i)
    }
}

/// Cosine of `2 pi t / 4096` quantized in the format with limit `lim`,
/// for `0 <= t < 2048`, read from the quarter-wave table by symmetry.
pub open spec fn circle_cos(lim: int, t: int) -> int {
    if t <= 1024 {
        quarter_sin(lim, 1024 - t)
    } else {
        -quarter_sin(lim, t - 1024)
    }
}

/// Sine of `2 pi t / 4096` quantized in the format with limit `lim`.
pub open spec fn circle_sin(lim: int, t: int) -> int {
    if t <= 1024 {
        quarter_sin(lim, t)
    } else {
        quarter_sin(lim, 2048 - t)
    }
}

/// Real part of the twiddle factor for phase step `t` of 4096.
pub open spec fn twiddle_re(lim: int, t: int) -> int {
    circle_cos(lim, t)
}

/// Imaginary part of the twiddle factor: the forward kernel rotates by
/// `e^(-i theta)`, the inverse kernel by `e^(+i theta)`.
pub open spec fn twiddle_im(lim: int, dir: Direction, t: int) -> int {
    if dir == Direction::Forward {
        -circle_sin(lim, t)
    } else {
        circle_sin(lim, t)
    }
}

/// Whether `x` is representable in the format with limit `lim`.
pub open spec fn in_range(lim: int, x: int) -> bool {
    -lim <= x <= lim - 1
}

/// Whether every component of a complex sequence is representable.
pub open spec fn all_in_range(lim: int, v: Seq<(int, int)>) -> bool {
    forall|j: int|
        0 <= j < v.len() ==> in_range(lim, (#[trigger] v[j]).0) && in_range(lim, v[j].1)
}

/// Real part of the saturating complex product of `(ar, ai)` and `(br, bi)`.
pub open spec fn cmul_re(lim: int, ar: int, ai: int, br: int, bi: int) -> int {
    saturate(lim, (ar * br - ai * bi) / lim)
}

/// Imaginary part of the saturating complex product.
pub open spec fn cmul_im(lim: int, ar: int, ai: int, br: int, bi: int) -> int {
    saturate(lim, (ar * bi + ai * br) / lim)
}

/// Halved sum of a butterfly, rounding toward negative infinity.
pub open spec fn havg(a: int, b: int) -> int {
    (a + b) / 2
}

/// Halved difference of a butterfly, rounding toward negative infinity.
pub open spec fn hdiff(a: int, b: int) -> int {
    (a - b) / 2
}

/// Element `j` after one decimation-in-frequency stage with half-block
/// length `h` over `v`: positions in the lower half of each block take
/// the halved sum of the pair, positions in the upper half take the
/// halved difference rotated by the twiddle factor of the pair.
pub open spec fn stage_elem(lim: int, v: Seq<(int, int)>, h: int, dir: Direction, j: int) -> (
    int,
    int,
) {
    let pos = j % (2 * h);
    if pos < h {
        (havg(v[j].0, v[j + h].0), havg(v[j].1, v[j + h].1))
    } else {
        let t = (pos - h) * (2048int / h);
        let dr = hdiff(v[j - h].0, v[j].0);
        let di = hdiff(v[j - h].1, v[j].1);
        (
            cmul_re(lim, dr, di, twiddle_re(lim, t), twiddle_im(lim, dir, t)),
            cmul_im(lim, dr, di, twiddle_re(lim, t), twiddle_im(lim, dir, t)),
        )
    }
}

/// One full decimation-in-frequency stage with half-block length `h`.
pub open spec fn stage(lim: int, v: Seq<(int, int)>, h: int, dir: Direction) -> Seq<(int, int)> {
    Seq::new(v.len(), |j: int| stage_elem(lim, v, h, dir, j))
}

/// All stages with half-block lengths `h, h/2, ..., 1` applied in order.
pub open spec fn stages_down(lim: int, v: Seq<(int, int)>, h: int, dir: Direction) -> Seq<
    (int, int),
>
    decreases h,
{
    if h < 1 {
        v
    } else {
        stages_down(lim, stage(lim, v, h, dir), h / 2, dir)
    }
}

/// The complete transform in raw butterfly order.
pub open spec fn cfft_raw(lim: int, v: Seq<(int, int)>, dir: Direction) -> Seq<(int, int)> {
    stages_down(lim, v, v.len() as int / 2, dir)
}

/// The low `l` bits of `j` in reversed order.
pub open spec fn bit_reverse(l: nat, j: int) -> int
    decreases l,
{
    if l == 0 {
        0
    } else {
        (j % 2) * two_to((l - 1) as nat) + bit_reverse((l - 1) as nat, j / 2)
    }
}

/// The bit-reversal permutation of a sequence of length two to the `l`.
pub open spec fn bit_reverse_seq(v: Seq<(int, int)>, l: nat) -> Seq<(int, int)> {
    Seq::new(v.len(), |j: int| v[bit_reverse(l, j)])
}

/// Base-two logarithm, exact on powers of two.
pub open spec fn log2_size(n: int) -> nat
    decreases (if n >= 1 {
        n
    } else {
        1
    }),
{
    if n <= 1 {
        0
    } else {
        (1 + log2_size(n / 2)) as nat
    }
}

/// The complete transform: raw butterfly order, then the bit-reversal
/// permutation if the standard output order was requested.
pub open spec fn cfft_spec(lim: int, v: Seq<(int, int)>, dir: Direction, order: OutputOrder) -> Seq<
    (int, int),
> {
    if order == OutputOrder::Standard {
        bit_reverse_seq(cfft_raw(lim, v, dir), log2_size(v.len() as int))
    } else {
        cfft_raw(lim, v, dir)
    }
}

/// The integer view of a buffer of raw complex samples.
pub open spec fn pair_view(s: Seq<(i64, i64)>) -> Seq<(int, int)> {
    Seq::new(s.len(), |i: int| (s[i].0 as int, s[i].1 as int))
}

proof fn lemma_two_to_vals()
    ensures
        two_to(0) == 1,
        two_to(1) == 2,
        two_to(2) == 4,
        two_to(3) == 8,
        two_to(4) == 16,
        two_to(5) == 32,
        two_to(6) == 64,
        two_to(7) == 128,
        two_to(8) == 256,
        two_to(9) == 512,
        two_to(10) == 1024,
        two_to(11) == 2048,
        two_to(12) == 4096,
{
    reveal_with_fuel(two_to, 14);
}

proof fn lemma_log2_vals()
    ensures
        log2_size(16) == 4,
        log2_size(32) == 5,
        log2_size(64) == 6,
        log2_size(128) == 7,
        log2_size(256) == 8,
        log2_size(512) == 9,
        log2_size(1024) == 10,
        log2_size(2048) == 11,
        log2_size(4096) == 12,
{
    reveal_with_fuel(log2_size, 14);
}

proof fn lemma_supported_log2(n: int)
    requires
        is_supported_cfft_size(n),
    ensures
        two_to(log2_size(n)) == n,
        log2_size(n) <= 12,
        1 <= log2_size(n),
{
    lemma_two_to_vals();
    lemma_log2_vals();
}

/// Looks up the quarter-wave sine entry of the requested format.
fn quarter_lookup(lim: i64, i: u16) -> (r: i64)
    requires
        lim == 0x8000 || lim == 0x8000_0000,
        i <= 1024,
    ensures
        r == quarter_sin(lim as int, i as int),
        0 <= r <= lim - 1,
{
    if lim == 0x8000 {
        proof {
            lemma_q15_quarter_sin_range(i as int);
        }
        q15_quarter_sin_lookup(i) as i64
    } else {
        proof {
            lemma_q31_quarter_sin_range(i as int);
        }
        q31_quarter_sin_lookup(i) as i64
    }
}

/// Looks up one twiddle factor for phase step `t` of 4096.
fn twiddle_lookup(lim: i64, t: u16, dir: Direction) -> (r: (i64, i64))
    requires
        lim == 0x8000 || lim == 0x8000_0000,
        t < 2048,
    ensures
        r.0 as int == twiddle_re(lim as int, t as int),
        r.1 as int == twiddle_im(lim as int, dir, t as int),
        -(lim - 1) <= r.0 <= lim - 1,
        -(lim - 1) <= r.1 <= lim - 1,
{
    let c: i64 = if t <= 1024 {
        quarter_lookup(lim, 1024 - t)
    } else {
        -quarter_lookup(lim, t - 1024)
    };
    let s: i64 = if t <= 1024 {
        quarter_lookup(lim, t)
    } else {
        quarter_lookup(lim, 2048 - t)
    };
    let si: i64 = match dir {
        Direction::Forward => -s,
        Direction::Inverse => s,
    };
    (c, si)
}

/// Saturating rescaled complex multiplication on raw samples.
fn cmul_exec(lim: i64, ar: i64, ai: i64, br: i64, bi: i64) -> (r: (i64, i64))
    requires
        lim == 0x8000 || lim == 0x8000_0000,
        in_range(lim as int, ar as int),
        in_range(lim as int, ai as int),
        -(lim - 1) <= br <= lim - 1,
        -(lim - 1) <= bi <= lim - 1,
    ensures
        r.0 as int == cmul_re(lim as int, ar as int, ai as int, br as int, bi as int),
        r.1 as int == cmul_im(lim as int, ar as int, ai as int, br as int, bi as int),
        in_range(lim as int, r.0 as int),
        in_range(lim as int, r.1 as int),
{
    proof {
        assert(-0x3fff_ffff_8000_0000 <= (ar as int) * (br as int)
            <= 0x3fff_ffff_8000_0000) by (nonlinear_arith)
            requires
                -0x8000_0000 <= ar as int <= 0x7fff_ffff,
                -0x7fff_ffff <= br as int <= 0x7fff_ffff,
        ;
        assert(-0x3fff_ffff_8000_0000 <= (ai as int) * (bi as int)
            <= 0x3fff_ffff_8000_0000) by (nonlinear_arith)
            requires
                -0x8000_0000 <= ai as int <= 0x7fff_ffff,
                -0x7fff_ffff <= bi as int <= 0x7fff_ffff,
        ;
        assert(-0x3fff_ffff_8000_0000 <= (ar as int) * (bi as int)
            <= 0x3fff_ffff_8000_0000) by (nonlinear_arith)
            requires
                -0x8000_0000 <= ar as int <= 0x7fff_ffff,
                -0x7fff_ffff <= bi as int <= 0x7fff_ffff,
        ;
        assert(-0x3fff_ffff_8000_0000 <= (ai as int) * (br as int)
            <= 0x3fff_ffff_8000_0000) by (nonlinear_arith)
            requires
                -0x8000_0000 <= ai as int <= 0x7fff_ffff,
                -0x7fff_ffff <= br as int <= 0x7fff_ffff,
        ;
    }
    let p1: i64 = ar * br;
    let p2: i64 = ai * bi;
    let p3: i64 = ar * bi;
    let p4: i64 = ai * br;
    let re_num: i64 = p1 - p2;
    let im_num: i64 = p3 + p4;
    let re_q: i64 = floor_div_i64(re_num, lim as u64);
    let im_q: i64 = floor_div_i64(im_num, lim as u64);
    let re: i64 = if re_q < -lim {
        -lim
    } else if re_q > lim - 1 {
        lim - 1
    } else {
        re_q
    };
    let im: i64 = if im_q < -lim {
        -lim
    } else if im_q > lim - 1 {
        lim - 1
    } else {
        im_q
    };
    (re, im)
}

/// Halved butterfly sum on raw samples.
fn havg_exec(lim: i64, a: i64, b: i64) -> (r: i64)
    requires
        lim == 0x8000 || lim == 0x8000_0000,
        in_range(lim as int, a as int),
        in_range(lim as int, b as int),
    ensures
        r as int == havg(a as int, b as int),
        in_range(lim as int, r as int),
{
    let s: i64 = a + b;
    let q: i64 = floor_div_i64(s, 2);
    proof {
        lemma_div_is_ordered(-2 * (lim as int), s as int, 2);
        lemma_div_is_ordered(s as int, 2 * (lim as int) - 2, 2);
        lemma_fundamental_div_mod_converse(-2 * (lim as int), 2, -(lim as int), 0);
        lemma_fundamental_div_mod_converse(2 * (lim as int) - 2, 2, lim as int - 1, 0);
    }
    q
}

/// Halved butterfly difference on raw samples.
fn hdiff_exec(lim: i64, a: i64, b: i64) -> (r: i64)
    requires
        lim == 0x8000 || lim == 0x8000_0000,
        in_range(lim as int, a as int),
        in_range(lim as int, b as int),
    ensures
        r as int == hdiff(a as int, b as int),
        in_range(lim as int, r as int),
{
    let s: i64 = a - b;
    let q: i64 = floor_div_i64(s, 2);
    proof {
        lemma_div_is_ordered(-2 * (lim as int) + 1, s as int, 2);
        lemma_div_is_ordered(s as int, 2 * (lim as int) - 1, 2);
        lemma_fundamental_div_mod_converse(-2 * (lim as int) + 1, 2, -(lim as int), 1);
        lemma_fundamental_div_mod_converse(2 * (lim as int) - 1, 2, lim as int - 1, 1);
    }
    q
}

proof fn lemma_block_indices(n: int, h: int, j: int)
    requires
        h >= 1,
        n % (2 * h) == 0,
        0 <= j < n,
    ensures
        0 <= j % (2 * h) < 2 * h,
        j % (2 * h) < h ==> j + h < n,
        j % (2 * h) >= h ==> h <= j,
{
    let m = 2 * h;
    vstd::arithmetic::div_mod::lemma_mod_bound(j, m);
    lemma_fundamental_div_mod(j, m);
    lemma_fundamental_div_mod(n, m);
    let q = j / m;
    let nq = n / m;
    assert(n == m * nq);
    assert(q * m >= 0) by (nonlinear_arith)
        requires
            q >= 0,
            m >= 1,
    ;
    if j % m < h {
        assert(q < nq) by {
            if q >= nq {
                assert(m * q >= m * nq) by (nonlinear_arith)
                    requires
                        q >= nq,
                        m >= 1,
                ;
            }
        }
        assert(m * (q + 1) <= m * nq) by (nonlinear_arith)
            requires
                q + 1 <= nq,
                m >= 1,
        ;
        assert(j + h < m * (q + 1)) by (nonlinear_arith)
            requires
                j == m * q + j % m,
                j % m < h,
                m == 2 * h,
        ;
    }
}

/// One element of a stage, computed from the previous stage's buffer.
fn stage_elem_exec(lim: i64, cur: &Vec<(i64, i64)>, h: usize, dir: Direction, j: usize) -> (r: (
    i64,
    i64,
))
    requires
        lim == 0x8000 || lim == 0x8000_0000,
        all_in_range(lim as int, pair_view(cur@)),
        1 <= h <= 2048,
        cur@.len() as int % (2 * h as int) == 0,
        2048 as int % (h as int) == 0,
        j < cur@.len(),
        cur@.len() <= 4096,
    ensures
        (r.0 as int, r.1 as int) == stage_elem(lim as int, pair_view(cur@), h as int, dir, j as int),
        in_range(lim as int, r.0 as int),
        in_range(lim as int, r.1 as int),
{
    proof {
        lemma_block_indices(cur@.len() as int, h as int, j as int);
    }
    let m: usize = 2 * h;
    let pos: usize = j % m;
    if pos < h {
        let a: (i64, i64) = cur[j];
        let b: (i64, i64) = cur[j + h];
        assert(pair_view(cur@)[j as int] == (a.0 as int, a.1 as int));
        assert(pair_view(cur@)[j as int + h as int] == (b.0 as int, b.1 as int));
        let re: i64 = havg_exec(lim, a.0, b.0);
        let im: i64 = havg_exec(lim, a.1, b.1);
        (re, im)
    } else {
        let k: usize = pos - h;
        let stride: usize = 2048 / h;
        proof {
            lemma_fundamental_div_mod(2048, h as int);
            assert(2048 == (h as int) * (stride as int));
            assert(stride as int >= 1) by (nonlinear_arith)
                requires
                    2048 == (h as int) * (stride as int),
                    h as int >= 1,
            ;
            assert((k as int) * (stride as int) <= ((h as int) - 1) * (stride as int))
                by (nonlinear_arith)
                requires
                    k as int <= h as int - 1,
                    stride as int >= 0,
            ;
            assert(((h as int) - 1) * (stride as int) == 2048 - stride as int)
                by (nonlinear_arith)
                requires
                    2048 == (h as int) * (stride as int),
            ;
        }
        let t: usize = k * stride;
        let w: (i64, i64) = twiddle_lookup(lim, t as u16, dir);
        let a: (i64, i64) = cur[j - h];
        let b: (i64, i64) = cur[j];
        assert(pair_view(cur@)[j as int - h as int] == (a.0 as int, a.1 as int));
        assert(pair_view(cur@)[j as int] == (b.0 as int, b.1 as int));
        let dr: i64 = hdiff_exec(lim, a.0, b.0);
        let di: i64 = hdiff_exec(lim, a.1, b.1);
        cmul_exec(lim, dr, di, w.0, w.1)
    }
}

/// One full stage, computed out of place.
fn stage_exec(lim: i64, cur: &Vec<(i64, i64)>, h: usize, dir: Direction) -> (out: Vec<(i64, i64)>)
    requires
        lim == 0x8000 || lim == 0x8000_0000,
        all_in_range(lim as int, pair_view(cur@)),
        1 <= h <= 2048,
        cur@.len() as int % (2 * h as int) == 0,
        2048 as int % (h as int) == 0,
        cur@.len() <= 4096,
    ensures
        pair_view(out@) == stage(lim as int, pair_view(cur@), h as int, dir),
        out@.len() == cur@.len(),
        all_in_range(lim as int, pair_view(out@)),
{
    let n: usize = cur.len();
    let mut out: Vec<(i64, i64)> = Vec::new();
    let mut j: usize = 0;
    while j < n
        invariant
            lim == 0x8000 || lim == 0x8000_0000,
            all_in_range(lim as int, pair_view(cur@)),
            1 <= h <= 2048,
            cur@.len() as int % (2 * h as int) == 0,
            2048 as int % (h as int) == 0,
            cur@.len() <= 4096,
            n == cur@.len(),
            j <= n,
            out@.len() == j,
            forall|i: int|
                0 <= i < j ==> ((#[trigger] out@[i]).0 as int, out@[i].1 as int) == stage_elem(
                    lim as int,
                    pair_view(cur@),
                    h as int,
                    dir,
                    i,
                ) && in_range(lim as int, out@[i].0 as int) && in_range(lim as int, out@[i].1 as int),
        decreases n - j,
    {
        let e: (i64, i64) = stage_elem_exec(lim, cur, h, dir, j);
        out.push(e);
        j = j + 1;
    }
    proof {
        assert(pair_view(out@) =~= stage(lim as int, pair_view(cur@), h as int, dir));
    }
    out
}

/// The bit reversal of the low `l` bits of `j`.
fn bit_reverse_exec(l: usize, j: usize) -> (r: usize)
    requires
        l <= 12,
        j <= 4096,
    ensures
        r as int == bit_reverse(l as nat, j as int),
        (r as int) < two_to(l as nat),
    decreases l,
{
    if l == 0 {
        0
    } else {
        let bit: usize = j % 2;
        let rest: usize = bit_reverse_exec(l - 1, j / 2);
        let p: usize = two_to_exec(l - 1);
        proof {
            lemma_two_to_vals();
            lemma_two_to_mono((l - 1) as nat, 11);
            assert(bit == 0 || bit == 1);
        }
        let upper_part: usize = if bit == 1 {
            p
        } else {
            0
        };
        upper_part + rest
    }
}

/// Two to the power `e`, as a machine integer.
fn two_to_exec(e: usize) -> (r: usize)
    requires
        e <= 12,
    ensures
        r as int == two_to(e as nat),
    decreases e,
{
    if e == 0 {
        1
    } else {
        let p: usize = two_to_exec(e - 1);
        proof {
            lemma_two_to_vals();
            lemma_two_to_mono((e - 1) as nat, 11);
        }
        2 * p
    }
}

/// The bit-reversal permutation of a buffer of length two to the `l`.
fn bit_reverse_permute(cur: &Vec<(i64, i64)>, l: usize) -> (out: Vec<(i64, i64)>)
    requires
        l <= 12,
        cur@.len() as int == two_to(l as nat),
    ensures
        pair_view(out@) == bit_reverse_seq(pair_view(cur@), l as nat),
        out@.len() == cur@.len(),
{
    let n: usize = cur.len();
    let mut out: Vec<(i64, i64)> = Vec::new();
    let mut j: usize = 0;
    proof {
        lemma_two_to_vals();
        lemma_two_to_mono(l as nat, 12);
    }
    while j < n
        invariant
            l <= 12,
            cur@.len() as int == two_to(l as nat),
            n == cur@.len(),
            n <= 4096,
            j <= n,
            out@.len() == j,
            forall|i: int|
                0 <= i < j ==> (#[trigger] out@[i]) == cur@[bit_reverse(l as nat, i)],
        decreases n - j,
    {
        let idx: usize = bit_reverse_exec(l, j);
        let e: (i64, i64) = cur[idx];
        out.push(e);
        j = j + 1;
    }
    proof {
        assert forall|i: int| 0 <= i < n implies pair_view(out@)[i] == bit_reverse_seq(
            pair_view(cur@),
            l as nat,
        )[i] by {
            lemma_bit_reverse_bound(l as nat, i);
            assert(out@[i] == cur@[bit_reverse(l as nat, i)]);
        }
        assert(pair_view(out@) =~= bit_reverse_seq(pair_view(cur@), l as nat));
    }
    out
}

/// Runs the complete transform in place over raw samples.
pub(crate) fn cfft_core(data: &mut Vec<(i64, i64)>, lim: i64, dir: Direction, order: OutputOrder)
    requires
        lim == 0x8000 || lim == 0x8000_0000,
        is_supported_cfft_size(old(data)@.len() as int),
        all_in_range(lim as int, pair_view(old(data)@)),
    ensures
        pair_view(final(data)@) == cfft_spec(lim as int, pair_view(old(data)@), dir, order),
        final(data)@.len() == old(data)@.len(),
        all_in_range(lim as int, pair_view(final(data)@)),
{
    let n: usize = data.len();
    let l: usize = match n {
        16 => 4,
        32 => 5,
        64 => 6,
        128 => 7,
        256 => 8,
        512 => 9,
        1024 => 10,
        2048 => 11,
        _ => 12,
    };
    proof {
        lemma_supported_log2(n as int);
        assert(l as nat == log2_size(n as int)) by {
            lemma_log2_vals();
        }
    }
    let ghost orig = pair_view(data@);
    let mut h: usize = n / 2;
    let ghost mut e: nat = (l - 1) as nat;
    proof {
        lemma_two_to_divides((l - 1) as nat, l as nat);
        assert(h as int == two_to(e));
    }
    while h >= 1
        invariant
            lim == 0x8000 || lim == 0x8000_0000,
            data@.len() == n,
            n as int == two_to(l as nat),
            1 <= l <= 12,
            all_in_range(lim as int, pair_view(data@)),
            h >= 1 ==> h as int == two_to(e) && e < l as nat,
            stages_down(lim as int, pair_view(data@), h as int, dir) == stages_down(
                lim as int,
                orig,
                (n / 2) as int,
                dir,
            ),
        decreases h,
    {
        proof {
            lemma_two_to_vals();
            lemma_two_to_mono(e, 11);
            lemma_two_to_divides((e + 1) as nat, l as nat);
            lemma_two_to_divides(e, 11);
            assert(2 * h as int == two_to((e + 1) as nat));
            assert(n as int % (2 * h as int) == 0);
            assert(2048 as int % (h as int) == 0);
            lemma_two_to_mono(l as nat, 12);
        }
        let out = stage_exec(lim, data, h, dir);
        let ghost before = pair_view(data@);
        *data = out;
        proof {
            assert(stages_down(lim as int, before, h as int, dir) == stages_down(
                lim as int,
                pair_view(data@),
                (h / 2) as int,
                dir,
            ));
            if h >= 2 {
                e = (e - 1) as nat;
                lemma_two_to_divides(e, (e + 1) as nat);
                assert((h / 2) as int == two_to(e));
            }
        }
        h = h / 2;
    }
    proof {
        assert(stages_down(lim as int, pair_view(data@), 0, dir) == pair_view(data@));
        assert(pair_view(data@) == cfft_raw(lim as int, orig, dir));
    }
    if matches!(order, OutputOrder::Standard) {
        let out = bit_reverse_permute(data, l);
        let ghost raw = pair_view(data@);
        *data = out;
        proof {
            assert(all_in_range(lim as int, pair_view(data@))) by {
                assert forall|j: int|
                    0 <= j < pair_view(data@).len() implies in_range(
                    lim as int,
                    (#[trigger] pair_view(data@)[j]).0,
                ) && in_range(lim as int, pair_view(data@)[j].1) by {
                    lemma_bit_reverse_bound(l as nat, j);
                    assert(pair_view(data@)[j] == raw[bit_reverse(l as nat, j)]);
                }
            }
        }
    }
}

proof fn lemma_bit_reverse_bound(l: nat, j: int)
    ensures
        0 <= bit_reverse(l, j) < two_to(l),
    decreases l,
{
    if l == 0 {
    } else {
        lemma_bit_reverse_bound((l - 1) as nat, j / 2);
        let b = j % 2;
        assert(0 <= b <= 1);
        let p = two_to((l - 1) as nat);
        lemma_two_to_mono(0, (l - 1) as nat);
        assert(b * p <= p && b * p >= 0) by (nonlinear_arith)
            requires
                0 <= b <= 1,
                p >= 1,
        ;
    }
}

proof fn lemma_stages_down_len(lim: int, v: Seq<(int, int)>, h: int, dir: Direction)
    ensures
        stages_down(lim, v, h, dir).len() == v.len(),
    decreases h,
{
    if h >= 1 {
        lemma_stages_down_len(lim, stage(lim, v, h, dir), h / 2, dir);
    }
}

/// Whether every sample of a complex sequence is zero.
pub open spec fn all_zero(v: Seq<(int, int)>) -> bool {
    forall|j: int| 0 <= j < v.len() ==> (#[trigger] v[j]) == (0int, 0int)
}

proof fn lemma_stage_zero(lim: int, v: Seq<(int, int)>, h: int, dir: Direction)
    requires
        lim >= 2,
        h >= 1,
        v.len() as int % (2 * h) == 0,
        all_zero(v),
    ensures
        all_zero(stage(lim, v, h, dir)),
{
    let n = v.len() as int;
    assert forall|j: int| 0 <= j < n implies (#[trigger] stage(lim, v, h, dir)[j]) == (
    0int,
    0int,
    ) by {
        lemma_block_indices(n, h, j);
        let pos = j % (2 * h);
        if pos < h {
            assert(v[j] == (0int, 0int));
            assert(v[j + h] == (0int, 0int));
            assert(havg(0, 0) == 0);
        } else {
            assert(v[j - h] == (0int, 0int));
            assert(v[j] == (0int, 0int));
            assert(hdiff(0, 0) == 0);
            let t = (pos - h) * (2048int / h);
            let wr = twiddle_re(lim, t);
            let wi = twiddle_im(lim, dir, t);
            assert(0 * wr == 0) by (nonlinear_arith);
            assert(0 * wi == 0) by (nonlinear_arith);
            vstd::arithmetic::div_mod::lemma_basic_div(0, lim);
            assert(cmul_re(lim, 0, 0, wr, wi) == 0);
            assert(cmul_im(lim, 0, 0, wr, wi) == 0);
        }
    }
}

proof fn lemma_stages_down_zero(lim: int, v: Seq<(int, int)>, e: nat, dir: Direction)
    requires
        lim >= 2,
        all_zero(v),
        v.len() as int % (2 * two_to(e)) == 0,
    ensures
        all_zero(stages_down(lim, v, two_to(e), dir)),
        stages_down(lim, v, two_to(e), dir).len() == v.len(),
    decreases e,
{
    let h = two_to(e);
    lemma_two_to_mono(0, e);
    lemma_stages_down_len(lim, v, h, dir);
    lemma_stage_zero(lim, v, h, dir);
    let w = stage(lim, v, h, dir);
    if e == 0 {
        assert(h == 1);
        assert(stages_down(lim, v, 1, dir) == stages_down(lim, w, 0, dir));
    } else {
        assert(h == 2 * two_to((e - 1) as nat));
        assert(h / 2 == two_to((e - 1) as nat)) by {
            lemma_fundamental_div_mod_converse(h, 2, two_to((e - 1) as nat), 0);
        }
        let q = v.len() as int / (2 * h);
        lemma_fundamental_div_mod(v.len() as int, 2 * h);
        assert(v.len() as int == (2 * h) * q);
        assert(v.len() as int == (2 * (h / 2)) * (2 * q)) by (nonlinear_arith)
            requires
                v.len() as int == (2 * h) * q,
                h == 2 * (h / 2),
        ;
        vstd::arithmetic::div_mod::lemma_mod_multiples_basic(2 * q, 2 * (h / 2));
        assert((2 * (h / 2)) * (2 * q) == (2 * q) * (2 * (h / 2))) by (nonlinear_arith);
        lemma_stages_down_zero(lim, w, (e - 1) as nat, dir);
    }
}

/// Zero preservation: a transform of an all-zero buffer, in either
/// direction and either output order, is all zero.
pub proof fn lemma_cfft_zero_preserved(
    lim: int,
    v: Seq<(int, int)>,
    dir: Direction,
    order: OutputOrder,
)
    requires
        lim == 0x8000 || lim == 0x8000_0000,
        is_supported_cfft_size(v.len() as int),
        all_zero(v),
    ensures
        cfft_spec(lim, v, dir, order).len() == v.len(),
        all_zero(cfft_spec(lim, v, dir, order)),
{
    let n = v.len() as int;
    let l = log2_size(n);
    lemma_supported_log2(n);
    assert(n == two_to(l));
    assert(n == 2 * two_to((l - 1) as nat));
    vstd::arithmetic::div_mod::lemma_mod_self_0(n);
    assert(n % (2 * two_to((l - 1) as nat)) == 0);
    lemma_stages_down_zero(lim, v, (l - 1) as nat, dir);
    assert(n / 2 == two_to((l - 1) as nat)) by {
        lemma_fundamental_div_mod_converse(n, 2, two_to((l - 1) as nat), 0);
    }
    let raw = cfft_raw(lim, v, dir);
    assert(all_zero(raw));
    if order == OutputOrder::Standard {
        assert forall|j: int| 0 <= j < n implies (#[trigger] bit_reverse_seq(raw, l)[j]) == (
        0int,
        0int,
        ) by {
            lemma_bit_reverse_bound(l, j);
            assert(raw[bit_reverse(l, j)] == (0int, 0int));
        }
    }
}

/// An interleaved complex sample of Q1.15 values.
///
/// The real part is stored first, then the imaginary part, with no
/// padding, so a buffer of these samples is the flat interleaved layout
/// that transform engines operate on.
#[derive(Clone, Copy, Debug, PartialEq, Eq, Structural)]
pub struct ComplexQ15 {
    pub re: Q15,
    pub im: Q15,
}

impl ComplexQ15 {
    /// Builds a complex sample from its two parts.
    pub fn new(re: Q15, im: Q15) -> (r: ComplexQ15)
        ensures
            r.re == re,
            r.im == im,
    {
        ComplexQ15 { re, im }
    }
}

/// An interleaved complex sample of Q1.31 values, laid out like
/// `ComplexQ15`.
#[derive(Clone, Copy, Debug, PartialEq, Eq, Structural)]
pub struct ComplexQ31 {
    pub re: Q31,
    pub im: Q31,
}

impl ComplexQ31 {
    /// Builds a complex sample from its two parts.
    pub fn new(re: Q31, im: Q31) -> (r: ComplexQ31)
        ensures
            r.re == re,
            r.im == im,
    {
        ComplexQ31 { re, im }
    }
}

/// The integer view of a buffer of Q1.15 complex samples.
pub open spec fn complex_q15_view(s: Seq<ComplexQ15>) -> Seq<(int, int)> {
    Seq::new(s.len(), |i: int| (s[i].re@, s[i].im@))
}

/// The integer view of a buffer of Q1.31 complex samples.
pub open spec fn complex_q31_view(s: Seq<ComplexQ31>) -> Seq<(int, int)> {
    Seq::new(s.len(), |i: int| (s[i].re@, s[i].im@))
}

fn q15_to_raw(v: &Vec<ComplexQ15>) -> (out: Vec<(i64, i64)>)
    ensures
        pair_view(out@) == complex_q15_view(v@),
        out@.len() == v@.len(),
        all_in_range(0x8000, pair_view(out@)),
{
    let n: usize = v.len();
    let mut out: Vec<(i64, i64)> = Vec::new();
    let mut j: usize = 0;
    while j < n
        invariant
            n == v@.len(),
            j <= n,
            out@.len() == j,
            forall|i: int|
                0 <= i < j ==> ((#[trigger] out@[i]).0 as int, out@[i].1 as int) == (
                    v@[i].re@,
                    v@[i].im@,
                ) && in_range(0x8000, out@[i].0 as int) && in_range(0x8000, out@[i].1 as int),
        decreases n - j,
    {
        let c: ComplexQ15 = v[j];
        out.push((c.re.to_bits() as i64, c.im.to_bits() as i64));
        j = j + 1;
    }
    proof {
        assert(pair_view(out@) =~= complex_q15_view(v@));
    }
    out
}

fn raw_to_q15(v: &Vec<(i64, i64)>) -> (out: Vec<ComplexQ15>)
    requires
        all_in_range(0x8000, pair_view(v@)),
    ensures
        complex_q15_view(out@) == pair_view(v@),
        out@.len() == v@.len(),
{
    let n: usize = v.len();
    let mut out: Vec<ComplexQ15> = Vec::new();
    let mut j: usize = 0;
    while j < n
        invariant
            all_in_range(0x8000, pair_view(v@)),
            n == v@.len(),
            j <= n,
            out@.len() == j,
            forall|i: int|
                0 <= i < j ==> ((#[trigger] out@[i]).re@, out@[i].im@) == (
                    v@[i].0 as int,
                    v@[i].1 as int,
                ),
        decreases n - j,
    {
        let p: (i64, i64) = v[j];
        assert(pair_view(v@)[j as int] == (p.0 as int, p.1 as int));
        let c = ComplexQ15 { re: Q15::from_bits(p.0 as i16), im: Q15::from_bits(p.1 as i16) };
        out.push(c);
        j = j + 1;
    }
    proof {
        assert(complex_q15_view(out@) =~= pair_view(v@));
    }
    out
}

fn q31_to_raw(v: &Vec<ComplexQ31>) -> (out: Vec<(i64, i64)>)
    ensures
        pair_view(out@) == complex_q31_view(v@),
        out@.len() == v@.len(),
        all_in_range(0x8000_0000, pair_view(out@)),
{
    let n: usize = v.len();
    let mut out: Vec<(i64, i64)> = Vec::new();
    let mut j: usize = 0;
    while j < n
        invariant
            n == v@.len(),
            j <= n,
            out@.len() == j,
            forall|i: int|
                0 <= i < j ==> ((#[trigger] out@[i]).0 as int, out@[i].1 as int) == (
                    v@[i].re@,
                    v@[i].im@,
                ) && in_range(0x8000_0000, out@[i].0 as int) && in_range(0x8000_0000, out@[i].1 as int),
        decreases n - j,
    {
        let c: ComplexQ31 = v[j];
        out.push((c.re.to_bits() as i64, c.im.to_bits() as i64));
        j = j + 1;
    }
    proof {
        assert(pair_view(out@) =~= complex_q31_view(v@));
    }
    out
}

fn raw_to_q31(v: &Vec<(i64, i64)>) -> (out: Vec<ComplexQ31>)
    requires
        all_in_range(0x8000_0000, pair_view(v@)),
    ensures
        complex_q31_view(out@) == pair_view(v@),
        out@.len() == v@.len(),
{
    let n: usize = v.len();
    let mut out: Vec<ComplexQ31> = Vec::new();
    let mut j: usize = 0;
    while j < n
        invariant
            all_in_range(0x8000_0000, pair_view(v@)),
            n == v@.len(),
            j <= n,
            out@.len() == j,
            forall|i: int|
                0 <= i < j ==> ((#[trigger] out@[i]).re@, out@[i].im@) == (
                    v@[i].0 as int,
                    v@[i].1 as int,
                ),
        decreases n - j,
    {
        let p: (i64, i64) = v[j];
        assert(pair_view(v@)[j as int] == (p.0 as int, p.1 as int));
        let c = ComplexQ31 { re: Q31::from_bits(p.0 as i32), im: Q31::from_bits(p.1 as i32) };
        out.push(c);
        j = j + 1;
    }
    proof {
        assert(complex_q31_view(out@) =~= pair_view(v@));
    }
    out
}

/// Checks that an FFT size is equal to the number of values in an input
/// or output buffer.  A mismatch is a caller bug, not a runtime
/// condition, so callers must establish equality before any transform
/// touches memory.
pub fn check_fft_size(size: u32, value_count: usize)
    requires
        value_count == size as usize,
{
}

/// Runs an FFT on Q1.15 fixed-point complex numbers.
///
/// The direction and output order are fixed at construction time; the
/// Q1.31 engine takes them per call instead.
pub struct Q15Fft {
    size: u16,
    direction: Direction,
    output_order: OutputOrder,
}

impl Q15Fft {
    /// The transform length selected at construction.
    pub closed spec fn size_spec(&self) -> int {
        self.size as int
    }

    /// The direction selected at construction.
    pub closed spec fn direction_spec(&self) -> Direction {
        self.direction
    }

    /// The output order selected at construction.
    pub closed spec fn output_order_spec(&self) -> OutputOrder {
        self.output_order
    }

    /// A constructed engine always holds a supported size.
    pub open spec fn wf(&self) -> bool {
        is_supported_cfft_size(self.size_spec())
    }

    /// Initializes an FFT with the specified size.
    ///
    /// Valid size values are 16, 32, 64, 128, 256, 512, 1024, 2048, and
    /// 4096.  This function returns an error if the size value is not
    /// valid.
    pub fn new(size: u16, direction: Direction, output_order: OutputOrder) -> (r: Result<
        Q15Fft,
        crate::Error,
    >)
        ensures
            is_supported_cfft_size(size as int) <==> r is Ok,
            r matches Ok(f) ==> f.wf() && f.size_spec() == size as int && f.direction_spec()
                == direction && f.output_order_spec() == output_order,
            r matches Err(e) ==> e == crate::Error::Argument,
    {
        match size {
            16 | 32 | 64 | 128 | 256 | 512 | 1024 | 2048 | 4096 => Ok(
                Q15Fft { size, direction, output_order },
            ),
            _ => Err(crate::Error::Argument),
        }
    }

    /// Runs the FFT in place on a buffer of values whose length equals
    /// the engine's configured size.
    pub fn run(&self, data: &mut Vec<ComplexQ15>)
        requires
            self.wf(),
            old(data)@.len() == self.size_spec(),
        ensures
            complex_q15_view(final(data)@) == cfft_spec(
                0x8000,
                complex_q15_view(old(data)@),
                self.direction_spec(),
                self.output_order_spec(),
            ),
            final(data)@.len() == old(data)@.len(),
    {
        check_fft_size(self.size as u32, data.len());
        let mut raw = q15_to_raw(data);
        cfft_core(&mut raw, 0x8000, self.direction, self.output_order);
        let out = raw_to_q15(&raw);
        *data = out;
    }
}

/// Runs an FFT on Q1.31 fixed-point complex numbers.
pub struct Q31Fft {
    size: u16,
}

impl Q31Fft {
    /// The transform length selected at construction.
    pub closed spec fn size_spec(&self) -> int {
        self.size as int
    }

    /// A constructed engine always holds a supported size.
    pub open spec fn wf(&self) -> bool {
        is_supported_cfft_size(self.size_spec())
    }

    /// Initializes an FFT with the specified size.
    ///
    /// Valid size values are 16, 32, 64, 128, 256, 512, 1024, 2048, and
    /// 4096.  This function returns an error if the size value is not
    /// valid.
    pub fn new(size: u16) -> (r: Result<Q31Fft, crate::Error>)
        ensures
            is_supported_cfft_size(size as int) <==> r is Ok,
            r matches Ok(f) ==> f.wf() && f.size_spec() == size as int,
            r matches Err(e) ==> e == crate::Error::Argument,
    {
        match size {
            16 | 32 | 64 | 128 | 256 | 512 | 1024 | 2048 | 4096 => Ok(Q31Fft { size }),
            _ => Err(crate::Error::Argument),
        }
    }

    /// Runs the FFT in place on a buffer of values whose length equals
    /// the engine's configured size.
    pub fn run(&self, data: &mut Vec<ComplexQ31>, direction: Direction, output_order: OutputOrder)
        requires
            self.wf(),
            old(data)@.len() == self.size_spec(),
        ensures
            complex_q31_view(final(data)@) == cfft_spec(
                0x8000_0000,
                complex_q31_view(old(data)@),
                direction,
                output_order,
            ),
            final(data)@.len() == old(data)@.len(),
    {
        check_fft_size(self.size as u32, data.len());
        let mut raw = q31_to_raw(data);
        cfft_core(&mut raw, 0x8000_0000, direction, output_order);
        let out = raw_to_q31(&raw);
        *data = out;
    }
}

/// A fixed-length buffer on which an FFT can run.
///
/// The size check is discharged statically through the `requires`
/// clause, so an implementation performs no runtime validation; the
/// result is pinned to the same `cfft_spec` as the general engines, so a
/// buffer transform and an engine `run` of the same size and format
/// produce identical output.
pub trait FftBuffer {
    /// The complex samples held by the buffer, by raw bit pattern.
    spec fn samples(&self) -> Seq<(int, int)>;

    /// The representable limit of the buffer's sample format.
    spec fn format_limit(&self) -> int;

    /// Runs the transform in place on the buffer.
    fn run_fft(&mut self, direction: Direction, output_order: OutputOrder)
        requires
            is_supported_cfft_size(old(self).samples().len() as int),
        ensures
            final(self).samples() == cfft_spec(
                old(self).format_limit(),
                old(self).samples(),
                direction,
                output_order,
            ),
            final(self).format_limit() == old(self).format_limit(),
            final(self).samples().len() == old(self).samples().len(),
    ;
}

impl FftBuffer for Vec<ComplexQ15> {
    open spec fn samples(&self) -> Seq<(int, int)> {
        complex_q15_view(self@)
    }

    open spec fn format_limit(&self) -> int {
        0x8000
    }

    fn run_fft(&mut self, direction: Direction, output_order: OutputOrder) {
        let mut raw = q15_to_raw(self);
        cfft_core(&mut raw, 0x8000, direction, output_order);
        let out = raw_to_q15(&raw);
        *self = out;
    }
}

impl FftBuffer for Vec<ComplexQ31> {
    open spec fn samples(&self) -> Seq<(int, int)> {
        complex_q31_view(self@)
    }

    open spec fn format_limit(&self) -> int {
        0x8000_0000
    }

    fn run_fft(&mut self, direction: Direction, output_order: OutputOrder) {
        let mut raw = q31_to_raw(self);
        cfft_core(&mut raw, 0x8000_0000, direction, output_order);
        let out = raw_to_q31(&raw);
        *self = out;
    }
}

/// Runs an FFT on a buffer of samples whose supported length is already
/// established, skipping the runtime size check of the general engines.
pub fn fft<D: FftBuffer>(data: &mut D, direction: Direction, output_order: OutputOrder)
    requires
        is_supported_cfft_size(old(data).samples().len() as int),
    ensures
        final(data).samples() == cfft_spec(
            old(data).format_limit(),
            old(data).samples(),
            direction,
            output_order,
        ),
        final(data).format_limit() == old(data).format_limit(),
        final(data).samples().len() == old(data).samples().len(),
{
    data.run_fft(direction, output_order)
}

/// The integer view of a buffer of raw scalar samples.
pub open spec fn ints_of(s: Seq<i64>) -> Seq<int> {
    Seq::new(s.len(), |i: int| s[i] as int)
}

/// The integer view of a buffer of Q1.15 scalar samples.
pub open spec fn q15_bits_view(s: Seq<Q15>) -> Seq<int> {
    Seq::new(s.len(), |i: int| s[i]@)
}

/// The integer view of a buffer of raw 16-bit patterns.
pub open spec fn i16_bits_view(s: Seq<i16>) -> Seq<int> {
    Seq::new(s.len(), |i: int| s[i] as int)
}

/// The integer view of a buffer of Q1.31 scalar samples.
pub open spec fn q31_bits_view(s: Seq<Q31>) -> Seq<int> {
    Seq::new(s.len(), |i: int| s[i]@)
}

/// The integer view of a buffer of raw 32-bit patterns.
pub open spec fn i32_bits_view(s: Seq<i32>) -> Seq<int> {
    Seq::new(s.len(), |i: int| s[i] as int)
}

/// Whether every scalar of a sequence is representable.
pub open spec fn all_scalars_in_range(lim: int, s: Seq<int>) -> bool {
    forall|j: int| 0 <= j < s.len() ==> in_range(lim, #[trigger] s[j])
}

/// A real sequence as a complex sequence with zero imaginary parts.
pub open spec fn complexify(x: Seq<int>) -> Seq<(int, int)> {
    Seq::new(x.len(), |j: int| (x[j], 0int))
}

/// The packed form of a real-input spectrum of even length `n`: the
/// first two slots hold the purely real bins 0 and `n/2`, and slots
/// `2k` and `2k + 1` hold the real and imaginary parts of bin `k` for
/// `1 <= k < n/2`.
pub open spec fn pack_spectrum(y: Seq<(int, int)>) -> Seq<int> {
    Seq::new(
        y.len(),
        |j: int|
            if j == 0 {
                y[0].0
            } else if j == 1 {
                y[y.len() as int / 2].0
            } else if j % 2 == 0 {
                y[j / 2].0
            } else {
                y[j / 2].1
            },
    )
}

/// The full spectrum reconstructed from its packed form, using the
/// conjugate symmetry of a real-input spectrum for the upper bins.
/// Negating the imaginary part saturates, since `-1.0` has no exact
/// negation in the format.
pub open spec fn unpack_spectrum(lim: int, p: Seq<int>) -> Seq<(int, int)> {
    let n = p.len() as int;
    Seq::new(
        p.len(),
        |k: int|
            if k == 0 {
                (p[0], 0int)
            } else if 2 * k == n {
                (p[1], 0int)
            } else if 2 * k < n {
                (p[2 * k], p[2 * k + 1])
            } else {
                (p[2 * (n - k)], saturate(lim, -p[2 * (n - k) + 1]))
            },
    )
}

/// The real parts of a complex sequence.
pub open spec fn real_parts(y: Seq<(int, int)>) -> Seq<int> {
    Seq::new(y.len(), |j: int| y[j].0)
}

/// The complete real transform.  Forward: embed the real sequence as
/// complex samples, run the complex transform, pack the spectrum.
/// Inverse: unpack the spectrum to its full conjugate-symmetric form,
/// run the complex transform, keep the real parts.
pub open spec fn rfft_spec(lim: int, x: Seq<int>, dir: Direction, order: OutputOrder) -> Seq<int> {
    if dir == Direction::Forward {
        pack_spectrum(cfft_spec(lim, complexify(x), dir, order))
    } else {
        real_parts(cfft_spec(lim, unpack_spectrum(lim, x), dir, order))
    }
}

/// Saturating negation of a raw sample.
fn saturating_neg_raw(lim: i64, b: i64) -> (r: i64)
    requires
        lim >= 2,
        in_range(lim as int, b as int),
    ensures
        r as int == saturate(lim as int, -(b as int)),
        in_range(lim as int, r as int),
{
    if b == -lim {
        lim - 1
    } else {
        -b
    }
}

/// Runs the complete real transform over raw scalar samples.
pub(crate) fn rfft_core(xbits: &Vec<i64>, lim: i64, dir: Direction, order: OutputOrder) -> (out:
    Vec<i64>)
    requires
        lim == 0x8000 || lim == 0x8000_0000,
        is_supported_rfft_size(xbits@.len() as int),
        all_scalars_in_range(lim as int, ints_of(xbits@)),
    ensures
        ints_of(out@) == rfft_spec(lim as int, ints_of(xbits@), dir, order),
        out@.len() == xbits@.len(),
        all_scalars_in_range(lim as int, ints_of(out@)),
{
    let n: usize = xbits.len();
    if matches!(dir, Direction::Forward) {
        let mut cplx: Vec<(i64, i64)> = Vec::new();
        let mut j: usize = 0;
        while j < n
            invariant
                lim == 0x8000 || lim == 0x8000_0000,
                all_scalars_in_range(lim as int, ints_of(xbits@)),
                n == xbits@.len(),
                j <= n,
                cplx@.len() == j,
                forall|i: int|
                    0 <= i < j ==> ((#[trigger] cplx@[i]).0 as int, cplx@[i].1 as int) == (
                        xbits@[i] as int,
                        0int,
                    ),
            decreases n - j,
        {
            assert(ints_of(xbits@)[j as int] == xbits@[j as int] as int);
            let x: i64 = xbits[j];
            cplx.push((x, 0));
            j = j + 1;
        }
        proof {
            assert(pair_view(cplx@) =~= complexify(ints_of(xbits@)));
        }
        cfft_core(&mut cplx, lim, dir, order);
        let ghost y = pair_view(cplx@);
        let mut out: Vec<i64> = Vec::new();
        let mut j2: usize = 0;
        while j2 < n
            invariant
                lim == 0x8000 || lim == 0x8000_0000,
                n == xbits@.len(),
                n >= 32,
                cplx@.len() == n,
                y == pair_view(cplx@),
                all_in_range(lim as int, y),
                j2 <= n,
                out@.len() == j2,
                forall|i: int|
                    0 <= i < j2 ==> (#[trigger] out@[i]) as int == pack_spectrum(y)[i],
            decreases n - j2,
        {
            let v: i64 = if j2 == 0 {
                cplx[0].0
            } else if j2 == 1 {
                cplx[n / 2].0
            } else if j2 % 2 == 0 {
                cplx[j2 / 2].0
            } else {
                cplx[j2 / 2].1
            };
            out.push(v);
            j2 = j2 + 1;
        }
        proof {
            assert(ints_of(out@) =~= pack_spectrum(y));
            assert forall|i: int|
                0 <= i < out@.len() implies in_range(lim as int, #[trigger] ints_of(out@)[i]) by {
                assert(ints_of(out@)[i] == pack_spectrum(y)[i]);
            }
        }
        out
    } else {
        proof {
            assert(n % 2 == 0);
        }
        let mut u: Vec<(i64, i64)> = Vec::new();
        let mut k: usize = 0;
        while k < n
            invariant
                lim == 0x8000 || lim == 0x8000_0000,
                all_scalars_in_range(lim as int, ints_of(xbits@)),
                n == xbits@.len(),
                32 <= n <= 4096,
                n % 2 == 0,
                k <= n,
                u@.len() == k,
                forall|i: int|
                    0 <= i < k ==> ((#[trigger] u@[i]).0 as int, u@[i].1 as int) == unpack_spectrum(
                        lim as int,
                        ints_of(xbits@),
                    )[i] && in_range(lim as int, u@[i].0 as int) && in_range(
                        lim as int,
                        u@[i].1 as int,
                    ),
            decreases n - k,
        {
            proof {
                assert forall|i: int| 0 <= i < n implies xbits@[i] as int == ints_of(xbits@)[i]
                    && in_range(lim as int, xbits@[i] as int) by {
                    assert(ints_of(xbits@)[i] == xbits@[i] as int);
                }
            }
            let e: (i64, i64) = if k == 0 {
                (xbits[0], 0)
            } else if 2 * k == n {
                (xbits[1], 0)
            } else if 2 * k < n {
                (xbits[2 * k], xbits[2 * k + 1])
            } else {
                let m2: usize = 2 * (n - k);
                (xbits[m2], saturating_neg_raw(lim, xbits[m2 + 1]))
            };
            u.push(e);
            k = k + 1;
        }
        proof {
            assert(pair_view(u@) =~= unpack_spectrum(lim as int, ints_of(xbits@)));
        }
        cfft_core(&mut u, lim, dir, order);
        let ghost y = pair_view(u@);
        let mut out: Vec<i64> = Vec::new();
        let mut j3: usize = 0;
        while j3 < n
            invariant
                lim == 0x8000 || lim == 0x8000_0000,
                n == xbits@.len(),
                u@.len() == n,
                y == pair_view(u@),
                all_in_range(lim as int, y),
                j3 <= n,
                out@.len() == j3,
                forall|i: int|
                    0 <= i < j3 ==> (#[trigger] out@[i]) as int == y[i].0 && in_range(
                        lim as int,
                        out@[i] as int,
                    ),
            decreases n - j3,
        {
            let p: (i64, i64) = u[j3];
            assert(y[j3 as int] == (p.0 as int, p.1 as int));
            out.push(p.0);
            j3 = j3 + 1;
        }
        proof {
            assert(ints_of(out@) =~= real_parts(y));
        }
        out
    }
}

/// Runs an FFT on Q1.15 fixed-point real numbers.
///
/// The direction and output order are fixed at construction time, so the
/// engine exposes a single `run`.
pub struct Q15RealFft {
    size: u32,
    direction: Direction,
    output_order: OutputOrder,
}

impl Q15RealFft {
    /// The transform length selected at construction.
    pub closed spec fn size_spec(&self) -> int {
        self.size as int
    }

    /// The direction selected at construction.
    pub closed spec fn direction_spec(&self) -> Direction {
        self.direction
    }

    /// The output order selected at construction.
    pub closed spec fn output_order_spec(&self) -> OutputOrder {
        self.output_order
    }

    /// A constructed engine always holds a supported size.
    pub open spec fn wf(&self) -> bool {
        is_supported_rfft_size(self.size_spec())
    }

    /// Initializes an FFT with the specified size.
    ///
    /// Valid size values are 32, 64, 128, 256, 512, 1024, 2048, and
    /// 4096.  This function returns an error if the size value is not
    /// valid.
    pub fn new(size: u32, direction: Direction, output_order: OutputOrder) -> (r: Result<
        Q15RealFft,
        crate::Error,
    >)
        ensures
            is_supported_rfft_size(size as int) <==> r is Ok,
            r matches Ok(f) ==> f.wf() && f.size_spec() == size as int && f.direction_spec()
                == direction && f.output_order_spec() == output_order,
            r matches Err(e) ==> e == crate::Error::Argument,
    {
        match size {
            32 | 64 | 128 | 256 | 512 | 1024 | 2048 | 4096 => Ok(
                Q15RealFft { size, direction, output_order },
            ),
            _ => Err(crate::Error::Argument),
        }
    }

    /// Runs an FFT on fixed-point values.
    ///
    /// The output holds raw bit patterns: how a caller scales them back
    /// to fractions depends on the configured size, because the
    /// transform rescales by one bit per stage.
    pub fn run(&self, input: &Vec<Q15>, output: &mut Vec<i16>)
        requires
            self.wf(),
            input@.len() == self.size_spec(),
            old(output)@.len() == self.size_spec(),
        ensures
            i16_bits_view(final(output)@) == rfft_spec(
                0x8000,
                q15_bits_view(input@),
                self.direction_spec(),
                self.output_order_spec(),
            ),
            final(output)@.len() == old(output)@.len(),
    {
        check_fft_size(self.size, input.len());
        check_fft_size(self.size, output.len());
        let n: usize = input.len();
        let mut xb: Vec<i64> = Vec::new();
        let mut j: usize = 0;
        while j < n
            invariant
                n == input@.len(),
                j <= n,
                xb@.len() == j,
                forall|i: int|
                    0 <= i < j ==> (#[trigger] xb@[i]) as int == input@[i]@ && in_range(
                        0x8000,
                        xb@[i] as int,
                    ),
            decreases n - j,
        {
            let q: Q15 = input[j];
            xb.push(q.to_bits() as i64);
            j = j + 1;
        }
        proof {
            assert(ints_of(xb@) =~= q15_bits_view(input@));
        }
        let res: Vec<i64> = rfft_core(&xb, 0x8000, self.direction, self.output_order);
        let mut j2: usize = 0;
        while j2 < n
            invariant
                n == res@.len(),
                output@.len() == n,
                all_scalars_in_range(0x8000, ints_of(res@)),
                j2 <= n,
                forall|i: int|
                    0 <= i < j2 ==> (#[trigger] output@[i]) as int == res@[i] as int,
            decreases n - j2,
        {
            assert(ints_of(res@)[j2 as int] == res@[j2 as int] as int);
            let v: i64 = res[j2];
            output.set(j2, v as i16);
            j2 = j2 + 1;
        }
        proof {
            assert(i16_bits_view(output@) =~= ints_of(res@));
        }
    }
}

/// Runs an FFT on Q1.31 fixed-point real numbers.
///
/// The direction and output order are fixed at construction time, so the
/// engine exposes a single `run`.
pub struct Q31RealFft {
    size: u32,
    direction: Direction,
    output_order: OutputOrder,
}

impl Q31RealFft {
    /// The transform length selected at construction.
    pub closed spec fn size_spec(&self) -> int {
        self.size as int
    }

    /// The direction selected at construction.
    pub closed spec fn direction_spec(&self) -> Direction {
        self.direction
    }

    /// The output order selected at construction.
    pub closed spec fn output_order_spec(&self) -> OutputOrder {
        self.output_order
    }

    /// A constructed engine always holds a supported size.
    pub open spec fn wf(&self) -> bool {
        is_supported_rfft_size(self.size_spec())
    }

    /// Initializes an FFT with the specified size.
    ///
    /// Valid size values are 32, 64, 128, 256, 512, 1024, 2048, and
    /// 4096.  This function returns an error if the size value is not
    /// valid.
    pub fn new(size: u32, direction: Direction, output_order: OutputOrder) -> (r: Result<
        Q31RealFft,
        crate::Error,
    >)
        ensures
            is_supported_rfft_size(size as int) <==> r is Ok,
            r matches Ok(f) ==> f.wf() && f.size_spec() == size as int && f.direction_spec()
                == direction && f.output_order_spec() == output_order,
            r matches Err(e) ==> e == crate::Error::Argument,
    {
        match size {
            32 | 64 | 128 | 256 | 512 | 1024 | 2048 | 4096 => Ok(
                Q31RealFft { size, direction, output_order },
            ),
            _ => Err(crate::Error::Argument),
        }
    }

    /// Runs an FFT on fixed-point values.
    ///
    /// The output holds raw bit patterns: how a caller scales them back
    /// to fractions depends on the configured size, because the
    /// transform rescales by one bit per stage.
    pub fn run(&self, input: &Vec<Q31>, output: &mut Vec<i32>)
        requires
            self.wf(),
            input@.len() == self.size_spec(),
            old(output)@.len() == self.size_spec(),
        ensures
            i32_bits_view(final(output)@) == rfft_spec(
                0x8000_0000,
                q31_bits_view(input@),
                self.direction_spec(),
                self.output_order_spec(),
            ),
            final(output)@.len() == old(output)@.len(),
    {
        check_fft_size(self.size, input.len());
        check_fft_size(self.size, output.len());
        let n: usize = input.len();
        let mut xb: Vec<i64> = Vec::new();
        let mut j: usize = 0;
        while j < n
            invariant
                n == input@.len(),
                j <= n,
                xb@.len() == j,
                forall|i: int|
                    0 <= i < j ==> (#[trigger] xb@[i]) as int == input@[i]@ && in_range(
                        0x8000_0000,
                        xb@[i] as int,
                    ),
            decreases n - j,
        {
            let q: Q31 = input[j];
            xb.push(q.to_bits() as i64);
            j = j + 1;
        }
        proof {
            assert(ints_of(xb@) =~= q31_bits_view(input@));
        }
        let res: Vec<i64> = rfft_core(&xb, 0x8000_0000, self.direction, self.output_order);
        let mut j2: usize = 0;
        while j2 < n
            invariant
                n == res@.len(),
                output@.len() == n,
                all_scalars_in_range(0x8000_0000, ints_of(res@)),
                j2 <= n,
                forall|i: int|
                    0 <= i < j2 ==> (#[trigger] output@[i]) as int == res@[i] as int,
            decreases n - j2,
        {
            assert(ints_of(res@)[j2 as int] == res@[j2 as int] as int);
            let v: i64 = res[j2];
            output.set(j2, v as i32);
            j2 = j2 + 1;
        }
        proof {
            assert(i32_bits_view(output@) =~= ints_of(res@));
        }
    }
}

/// The output order changes only which permutation is applied to the
/// results, not the numeric values: the standard-order transform is
/// exactly the bit-reversal permutation of the raw-order transform.
pub proof fn lemma_standard_is_bit_reversed_raw(
    lim: int,
    v: Seq<(int, int)>,
    dir: Direction,
)
    ensures
        cfft_spec(lim, v, dir, OutputOrder::Standard) == bit_reverse_seq(
            cfft_spec(lim, v, dir, OutputOrder::Raw),
            log2_size(v.len() as int),
        ),
{
}

/// A transform always covers every index of its buffer: the output has
/// exactly the length of the input, in either direction and order.
pub proof fn lemma_cfft_spec_len(lim: int, v: Seq<(int, int)>, dir: Direction, order: OutputOrder)
    ensures
        cfft_spec(lim, v, dir, order).len() == v.len(),
{
    lemma_stages_down_len(lim, v, v.len() as int / 2, dir);
}

} // verus!
