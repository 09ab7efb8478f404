//! The problems on which FP8 tensor cores are tried out: a bare product of one tile, a
//! tiled product, and a small causal attention.
use crate::error::{unsupported_plan, AegisError, Message, Value, Values};
use crate::launch::LaunchConfig;
use crate::loader::numeric;
use crate::runtime::rng::{self, Rng};
use crate::runtime::CudaRuntime;
use vstd::arithmetic::power2::pow2;
use vstd::prelude::*;

verus! {

/// How often each problem is run.
pub const SMOKE_RUNS: usize = 5;

/// A number over a divisor, rounded to the nearest, ties to even.
pub open spec fn nearest_even(value: int, divisor: int) -> int {
    let quotient = value / divisor;
    let rest = value % divisor;
    if rest * 2 > divisor || (rest * 2 == divisor && quotient % 2 == 1) {
        quotient + 1
    } else {
        quotient
    }
}

/// The step of E4M3 numbers beside a single-precision number of the given exponent, in
/// units of that number's last place.
pub open spec fn e4m3_step(exponent: int) -> int {
    if exponent >= 121 {
        0x10_0000
    } else if exponent == 120 {
        0x20_0000
    } else if exponent == 119 {
        0x40_0000
    } else if exponent == 118 {
        0x80_0000
    } else {
        0x100_0000
    }
}

/// The E4M3 number nearest to a single-precision number, ties to even; what is too large
/// becomes the largest one, what is no number stays none.
pub open spec fn e4m3_nearest(bits: u32) -> int {
    let magnitude = bits as int % 0x8000_0000;
    let sign: int = if bits >= 0x8000_0000 {
        0x80
    } else {
        0
    };
    let exponent = magnitude / 0x80_0000;
    let fraction = magnitude % 0x80_0000;
    if magnitude > 0x7F80_0000 {
        0x7f
    } else if magnitude >= 0x43E0_0000 {
        sign + 0x7e
    } else if exponent >= 121 {
        sign + (exponent - 121) * 8 + nearest_even(0x80_0000 + fraction, e4m3_step(exponent))
    } else if exponent >= 117 {
        sign + nearest_even(0x80_0000 + fraction, e4m3_step(exponent))
    } else {
        sign
    }
}

fn round_to_even(value: u32, divisor: u32) -> (rounded: u32)
    requires
        0 < divisor <= 0x100_0000,
        value <= 0x100_0000,
    ensures
        rounded == nearest_even(value as int, divisor as int),
{
    let quotient: u32 = value / divisor;
    let rest: u32 = value % divisor;
    assert(quotient <= value) by (nonlinear_arith)
        requires
            quotient == value / divisor,
            divisor > 0,
    ;
    if rest * 2 > divisor || (rest * 2 == divisor && quotient % 2 == 1) {
        quotient + 1
    } else {
        quotient
    }
}

/// Encodes a single-precision number, given by its bits, as E4M3: to the nearest, ties to
/// even, saturating at 448.
pub fn f32_to_e4m3(bits: u32) -> (byte: u8)
    ensures
        byte == e4m3_nearest(bits),
{
    let magnitude: u32 = bits % 0x8000_0000;
    let sign: u8 = if bits >= 0x8000_0000 { 0x80 } else { 0 };
    if magnitude > 0x7F80_0000 {
        return 0x7f;
    }
    if magnitude >= 0x43E0_0000 {
        return sign + 0x7e;
    }
    let exponent: u32 = magnitude / 0x80_0000;
    let fraction: u32 = magnitude % 0x80_0000;
    if exponent >= 121 {
        let rounded: u32 = round_to_even(0x80_0000 + fraction, 0x10_0000);
        let code: u32 = (exponent - 121) * 8 + rounded;
        assert(code <= 0x7e);
        return sign + code as u8;
    }
    if exponent >= 117 {
        let step: u32 = if exponent == 120 {
            0x20_0000
        } else if exponent == 119 {
            0x40_0000
        } else if exponent == 118 {
            0x80_0000
        } else {
            0x100_0000
        };
        let rounded: u32 = round_to_even(0x80_0000 + fraction, step);
        assert(rounded <= 8);
        return sign + rounded as u8;
    }
    sign
}

/// Encoding what an E4M3 number decodes to gives it back.
pub proof fn encoding_undoes_decoding(byte: u8)
    requires
        byte % 128 != 127,
    ensures
        e4m3_nearest(numeric::e4m3_bits(byte)) == byte,
{
    let exponent = (byte as int % 128) / 8;
    let mantissa = byte as int % 8;
    let bits = numeric::e4m3_bits(byte);
    let magnitude = bits as int % 0x8000_0000;
    if exponent > 0 {
        assert(magnitude == (exponent + 120) * 0x80_0000 + mantissa * 0x10_0000);
        assert(magnitude / 0x80_0000 == exponent + 120);
        assert(magnitude % 0x80_0000 == mantissa * 0x10_0000);
        assert((0x80_0000 + mantissa * 0x10_0000) / 0x10_0000 == 8 + mantissa);
    } else if mantissa >= 4 {
        assert(magnitude / 0x80_0000 == 120);
        assert((0x80_0000 + (mantissa - 4) * 0x20_0000) / 0x20_0000 == mantissa);
    } else if mantissa >= 2 {
        assert(magnitude / 0x80_0000 == 119);
    } else if mantissa == 1 {
        assert(magnitude / 0x80_0000 == 118);
    }
}

/// Rounding to the nearest multiple is off by at most half of it.
proof fn lemma_half_step(value: int, step: int)
    requires
        0 <= value,
        0 < step,
    ensures
        ({
            let q = nearest_even(value, step);
            let off = q * step - value;
            &&& -step <= 2 * off <= step
            &&& 2 * off == step || 2 * off == -step ==> q % 2 == 0
        }),
{
    let q = nearest_even(value, step);
    let quotient = value / step;
    vstd::arithmetic::div_mod::lemma_fundamental_div_mod(value, step);
    vstd::arithmetic::div_mod::lemma_mod_bound(value, step);
    if q == quotient {
        assert(q * step == step * quotient) by (nonlinear_arith)
            requires
                q == quotient,
        ;
    } else {
        assert(q * step == step * quotient + step) by (nonlinear_arith)
            requires
                q == quotient + 1,
        ;
    }
}

/// Encoding is exact to half a step, and takes the even neighbour where it is off by just
/// that: in units of 2^-149, twice the error is at most the step.
#[verifier::spinoff_prover]
#[verifier::rlimit(40)]
pub proof fn encoding_is_nearest_even(bits: u32)
    requires
        117 * 0x80_0000 <= bits as int % 0x8000_0000 < 0x43E0_0000,
    ensures
        ({
            let exponent = (bits as int % 0x8000_0000) / 0x80_0000;
            let scale = pow2((exponent - 1) as nat);
            let error = numeric::e4m3_units(e4m3_nearest(bits) as u8) * pow2(140)
                - numeric::f32_units(bits);
            let step = e4m3_step(exponent) * scale;
            &&& -step <= 2 * error <= step
            &&& 2 * error == step || 2 * error == -step ==> e4m3_nearest(bits) % 2 == 0
        }),
{
    let magnitude = bits as int % 0x8000_0000;
    let exponent = magnitude / 0x80_0000;
    let fraction = magnitude % 0x80_0000;
    let value = 0x80_0000 + fraction;
    let step = e4m3_step(exponent);
    let q = nearest_even(value, step);
    let code = e4m3_nearest(bits);
    let scale = pow2((exponent - 1) as nat);
    vstd::arithmetic::power2::lemma2_to64();
    vstd::arithmetic::power2::lemma_pow2_pos((exponent - 1) as nat);
    assert(117 <= exponent <= 135) by {
        assert(magnitude < 0x43E0_0000);
    }
    assert(numeric::f32_units(bits) == value * scale);
    let off = q * step - value;
    lemma_half_step(value, step);
    let units = numeric::e4m3_units(code as u8);
    if exponent >= 121 {
        let e = (exponent - 121) as nat;
        assert(8 <= q <= 16);
        assert(units == q * pow2(e)) by {
            let field = (code % 128) / 8;
            let mantissa = code % 8;
            if q < 16 {
                assert(field == exponent - 120 && mantissa == q - 8);
            } else {
                assert(field == exponent - 119 && mantissa == 0);
                vstd::arithmetic::power2::lemma_pow2_unfold((e + 1) as nat);
                assert((field - 1) as nat == (e + 1) as nat);
            }
        }
        vstd::arithmetic::power2::lemma_pow2_adds(e, 140);
        vstd::arithmetic::power2::lemma_pow2_adds(20, (exponent - 1) as nat);
        assert((e + 140) as nat == (20 + (exponent - 1)) as nat);
        assert(units * pow2(140) == q * (pow2(e) * pow2(140))) by (nonlinear_arith)
            requires
                units == q * pow2(e),
        ;
        assert(q * (0x10_0000 * scale) == (q * 0x10_0000) * scale) by (nonlinear_arith);
    } else {
        assert(0 <= q <= 8);
        assert(units == q) by {
            if q == 8 {
                assert((code % 128) / 8 == 1 && code % 8 == 0);
            } else {
                assert((code % 128) / 8 == 0 && code % 8 == q);
            }
        }
        let s = (141 - exponent) as nat;
        assert(step == pow2(s));
        vstd::arithmetic::power2::lemma_pow2_adds(s, (exponent - 1) as nat);
        assert(q * (step * scale) == (q * step) * scale) by (nonlinear_arith);
    }
    let error = units * pow2(140) - numeric::f32_units(bits);
    assert(error == off * scale) by (nonlinear_arith)
        requires
            error == (q * step) * scale - value * scale,
            off == q * step - value,
    ;
    assert(-(step * scale) <= 2 * (off * scale) <= step * scale) by (nonlinear_arith)
        requires
            -step <= 2 * off <= step,
            scale > 0,
    ;
    if 2 * error == step * scale {
        assert(2 * off == step) by (nonlinear_arith)
            requires
                2 * (off * scale) == step * scale,
                scale > 0,
        ;
    }
    if 2 * error == -(step * scale) {
        assert(2 * off == -step) by (nonlinear_arith)
            requires
                2 * (off * scale) == -(step * scale),
                scale > 0,
        ;
    }
}

/// The E4M3 number of an integer between -7 and 7.
pub fn e4m3_of_small_int(value: i32) -> (byte: u8)
    requires
        -7 <= value <= 7,
    ensures
        numeric::e4m3_units(byte) == (if value < 0 { -value } else { value as int }) * 512,
        (byte >= 128) == (value < 0),
{
    let magnitude: i32 = if value < 0 { -value } else { value };
    let code: u8 = if magnitude == 0 {
        0
    } else if magnitude == 1 {
        0x38
    } else if magnitude == 2 {
        0x40
    } else if magnitude == 3 {
        0x44
    } else if magnitude == 4 {
        0x48
    } else if magnitude == 5 {
        0x4a
    } else if magnitude == 6 {
        0x4c
    } else {
        0x4e
    };
    proof {
        vstd::arithmetic::power2::lemma2_to64();
        assert(numeric::e4m3_units(0) == 0);
        assert(numeric::e4m3_units(0x38) == 8 * pow2(6));
        assert(numeric::e4m3_units(0x40) == 8 * pow2(7));
        assert(numeric::e4m3_units(0x44) == 12 * pow2(7));
        assert(numeric::e4m3_units(0x48) == 8 * pow2(8));
        assert(numeric::e4m3_units(0x4a) == 10 * pow2(8));
        assert(numeric::e4m3_units(0x4c) == 12 * pow2(8));
        assert(numeric::e4m3_units(0x4e) == 14 * pow2(8));
        assert(numeric::e4m3_units((code + 0x80) as u8) == numeric::e4m3_units(code));
    }
    if value < 0 {
        code + 0x80
    } else {
        code
    }
}

/// Draws `len` integers between -7 and 7.
pub fn draw_small_ints(source: &mut Rng, len: usize) -> (values: Vec<i32>)
    ensures
        values@ == Seq::new(
            len as nat,
            |i: int| rng::small_of(rng::drawn(old(source).0, (i + 1) as nat)) as i32,
        ),
        final(source).0 == rng::drawn(old(source).0, len as nat),
        forall|i: int| 0 <= i < len ==> -7 <= #[trigger] values@[i] <= 7,
{
    let mut values: Vec<i32> = Vec::new();
    let mut i: usize = 0;
    while i < len
        invariant
            i <= len,
            source.0 == rng::drawn(old(source).0, i as nat),
            values@ == Seq::new(
                i as nat,
                |j: int| rng::small_of(rng::drawn(old(source).0, (j + 1) as nat)) as i32,
            ),
            forall|j: int| 0 <= j < i ==> -7 <= #[trigger] values@[j] <= 7,
        decreases len - i,
    {
        values.push(source.small_int());
        i += 1;
        assert(values@ =~= Seq::new(
            i as nat,
            |j: int| rng::small_of(rng::drawn(old(source).0, (j + 1) as nat)) as i32,
        ));
    }
    values
}

/// The sum of the first `n` products of a row of `a` and a row of `b`, each of `k` values.
pub open spec fn dot(a: Seq<i32>, b: Seq<i32>, row: int, col: int, k: int, n: int) -> int
    decreases n,
{
    if n <= 0 {
        0
    } else {
        dot(a, b, row, col, k, n - 1) + a[row * k + n - 1] * b[col * k + n - 1]
    }
}

/// The product of two matrices of small integers, the second one transposed.
pub fn small_product(a: &Vec<i32>, b: &Vec<i32>, m: usize, n: usize, k: usize) -> (out: Vec<i32>)
    requires
        a@.len() == m * k,
        b@.len() == n * k,
        m * n <= usize::MAX,
        k <= 0xff_ffff,
        forall|i: int| 0 <= i < a@.len() ==> -7 <= #[trigger] a@[i] <= 7,
        forall|i: int| 0 <= i < b@.len() ==> -7 <= #[trigger] b@[i] <= 7,
    ensures
        out@.len() == m * n,
        forall|row: int, col: int|
            0 <= row < m && 0 <= col < n ==> #[trigger] out@[row * n + col] == dot(
                a@,
                b@,
                row,
                col,
                k as int,
                k as int,
            ),
{
    let mut out: Vec<i32> = Vec::new();
    let mut row: usize = 0;
    assert(0 * n == 0);
    while row < m
        invariant
            a@.len() == m * k,
            b@.len() == n * k,
            m * n <= usize::MAX,
            k <= 0xff_ffff,
            forall|i: int| 0 <= i < a@.len() ==> -7 <= #[trigger] a@[i] <= 7,
            forall|i: int| 0 <= i < b@.len() ==> -7 <= #[trigger] b@[i] <= 7,
            row <= m,
            out@.len() == row * n,
            forall|r: int, c: int|
                0 <= r < row && 0 <= c < n ==> #[trigger] out@[r * n + c] == dot(
                    a@,
                    b@,
                    r,
                    c,
                    k as int,
                    k as int,
                ),
        decreases m - row,
    {
        let mut col: usize = 0;
        while col < n
            invariant
                a@.len() == m * k,
                b@.len() == n * k,
                m * n <= usize::MAX,
                k <= 0xff_ffff,
                forall|i: int| 0 <= i < a@.len() ==> -7 <= #[trigger] a@[i] <= 7,
                forall|i: int| 0 <= i < b@.len() ==> -7 <= #[trigger] b@[i] <= 7,
                row < m,
                col <= n,
                out@.len() == row * n + col,
                forall|r: int, c: int|
                    0 <= r < row && 0 <= c < n ==> #[trigger] out@[r * n + c] == dot(
                        a@,
                        b@,
                        r,
                        c,
                        k as int,
                        k as int,
                    ),
                forall|c: int|
                    0 <= c < col ==> #[trigger] out@[row * n + c] == dot(
                        a@,
                        b@,
                        row as int,
                        c,
                        k as int,
                        k as int,
                    ),
            decreases n - col,
        {
            let sum: i32 = row_product(a, b, row, col, m, n, k);
            let ghost before = out@;
            out.push(sum);
            proof {
                assert forall|r: int, c: int| 0 <= r < row && 0 <= c < n implies
                    #[trigger] out@[r * n + c] == dot(a@, b@, r, c, k as int, k as int) by {
                    assert(0 <= r * n && r * n + c < row * n) by (nonlinear_arith)
                        requires
                            0 <= r < row,
                            0 <= c < n,
                    ;
                    assert(before[r * n + c] == out@[r * n + c]);
                }
                assert(row * n >= 0) by (nonlinear_arith);
                assert forall|c: int| 0 <= c < col + 1 implies #[trigger] out@[row * n + c] == dot(
                    a@,
                    b@,
                    row as int,
                    c,
                    k as int,
                    k as int,
                ) by {
                    if c < col {
                        assert(before[row * n + c] == out@[row * n + c]);
                    }
                }
            }
            col += 1;
        }
        proof {
            assert((row + 1) * n == row * n + n) by (nonlinear_arith);
            assert forall|r: int, c: int| 0 <= r < row + 1 && 0 <= c < n implies
                #[trigger] out@[r * n + c] == dot(a@, b@, r, c, k as int, k as int) by {
                if r == row {
                    assert(out@[row * n + c] == dot(a@, b@, row as int, c, k as int, k as int));
                }
            }
        }
        row += 1;
    }
    out
}

fn row_product(a: &Vec<i32>, b: &Vec<i32>, row: usize, col: usize, m: usize, n: usize, k: usize) -> (sum: i32)
    requires
        a@.len() == m * k,
        b@.len() == n * k,
        row < m,
        col < n,
        k <= 0xff_ffff,
        forall|i: int| 0 <= i < a@.len() ==> -7 <= #[trigger] a@[i] <= 7,
        forall|i: int| 0 <= i < b@.len() ==> -7 <= #[trigger] b@[i] <= 7,
    ensures
        sum == dot(a@, b@, row as int, col as int, k as int, k as int),
{
    let rows: usize = a.len();
    let cols: usize = b.len();
    let mut sum: i32 = 0;
    let mut i: usize = 0;
    while i < k
        invariant
            rows == a@.len(),
            cols == b@.len(),
            rows == m * k,
            cols == n * k,
            row < m,
            col < n,
            k <= 0xff_ffff,
            i <= k,
            forall|j: int| 0 <= j < a@.len() ==> -7 <= #[trigger] a@[j] <= 7,
            forall|j: int| 0 <= j < b@.len() ==> -7 <= #[trigger] b@[j] <= 7,
            sum == dot(a@, b@, row as int, col as int, k as int, i as int),
            -49 * i <= sum <= 49 * i,
        decreases k - i,
    {
        proof {
            assert(0 <= row * k && row * k + k <= m * k) by (nonlinear_arith)
                requires
                    0 <= row < m,
                    0 <= k,
            ;
            assert(0 <= col * k && col * k + k <= n * k) by (nonlinear_arith)
                requires
                    0 <= col < n,
                    0 <= k,
            ;
        }
        let x: i32 = a[row * k + i];
        let y: i32 = b[col * k + i];
        assert(-49 <= x * y <= 49) by (nonlinear_arith)
            requires
                -7 <= x <= 7,
                -7 <= y <= 7,
        ;
        sum = sum + x * y;
        i += 1;
    }
    sum
}

/// A problem that FP8 tensor cores are tried out on.
#[derive(Clone, Copy, Debug, PartialEq, Eq, Structural)]
pub enum SmokeStage {
    /// One product of 16 by 8 by 32.
    BareMma,
    /// A product of 64 by 64 by 512.
    TiledGemm,
    /// Causal attention of 4 heads, 16 queries on 128 positions, 512 wide.
    Attention,
}

/// Bytes of shared memory for attention on `context` positions: scores of sixteen queries,
/// the same quantized and rounded up to four bytes, and a scale for each query.
pub open spec fn attention_shared_bytes(context: int) -> int {
    16 * context * 4 + (16 * context + 3) / 4 * 4 + 64
}

impl SmokeStage {
    /// The name of the stage.
    pub fn name(self) -> (name: &'static str)
        ensures
            name == match self {
                SmokeStage::BareMma => "stage1_bare_mma",
                SmokeStage::TiledGemm => "stage2_tiled_gemm",
                SmokeStage::Attention => "stage3_fp8_attention",
            },
    {
        match self {
            SmokeStage::BareMma => "stage1_bare_mma",
            SmokeStage::TiledGemm => "stage2_tiled_gemm",
            SmokeStage::Attention => "stage3_fp8_attention",
        }
    }

    /// The kernel of the stage.
    pub fn symbol(self) -> (symbol: &'static str)
        ensures
            symbol == match self {
                SmokeStage::BareMma => "aegis_fp8_mma_smoke_stage1",
                SmokeStage::TiledGemm => "aegis_fp8_mma_smoke_stage2",
                SmokeStage::Attention => "aegis_fp8_mma_smoke_stage3",
            },
    {
        match self {
            SmokeStage::BareMma => "aegis_fp8_mma_smoke_stage1",
            SmokeStage::TiledGemm => "aegis_fp8_mma_smoke_stage2",
            SmokeStage::Attention => "aegis_fp8_mma_smoke_stage3",
        }
    }

    /// The geometry of the stage: a warp for each tile of 16 by 8, or for each head.
    pub open spec fn spec_config(self) -> LaunchConfig {
        match self {
            SmokeStage::BareMma => LaunchConfig::of(1, 1, 1, 32, 0),
            SmokeStage::TiledGemm => LaunchConfig::of(64int / 8, 64int / 16, 1, 32, 0),
            SmokeStage::Attention => LaunchConfig::of(4, 1, 1, 32, attention_shared_bytes(128)),
        }
    }

    /// The geometry of the stage.
    pub fn config(self) -> (config: LaunchConfig)
        ensures
            config == self.spec_config(),
    {
        match self {
            SmokeStage::BareMma => LaunchConfig {
                grid_dim: (1, 1, 1),
                block_dim: (32, 1, 1),
                shared_mem_bytes: 0,
            },
            SmokeStage::TiledGemm => LaunchConfig {
                grid_dim: (8, 4, 1),
                block_dim: (32, 1, 1),
                shared_mem_bytes: 0,
            },
            SmokeStage::Attention => LaunchConfig {
                grid_dim: (4, 1, 1),
                block_dim: (32, 1, 1),
                shared_mem_bytes: 10304,
            },
        }
    }
}

impl SmokeStage {
    /// The seed of the stage's data.
    pub fn seed(self) -> (seed: u32)
        ensures
            seed == match self {
                SmokeStage::BareMma => 0x51_A6E1u32,
                SmokeStage::TiledGemm => 0xBE_EF77,
                SmokeStage::Attention => 0x3A_77E9,
            },
    {
        match self {
            SmokeStage::BareMma => 0x51_A6E1,
            SmokeStage::TiledGemm => 0xBE_EF77,
            SmokeStage::Attention => 0x3A_77E9,
        }
    }

    /// The numbers that the stage's kernel takes after its buffers.
    pub open spec fn spec_numbers(self) -> Seq<i32> {
        match self {
            SmokeStage::BareMma => seq![],
            SmokeStage::TiledGemm => seq![64i32, 64, 512],
            SmokeStage::Attention => seq![4i32, 128, 512],
        }
    }

    /// The numbers that the stage's kernel takes after its buffers: how many rows and columns
    /// there are and over how many values they are multiplied, or how many heads, positions
    /// and values per head.
    pub fn numbers(self) -> (numbers: Vec<i32>)
        ensures
            numbers@ == self.spec_numbers(),
    {
        let numbers: Vec<i32> = match self {
            SmokeStage::BareMma => Vec::new(),
            SmokeStage::TiledGemm => vec![64, 64, 512],
            SmokeStage::Attention => vec![4, 128, 512],
        };
        assert(numbers@ =~= self.spec_numbers());
        numbers
    }

    /// The lengths of the stage's buffers, the output last.
    pub open spec fn spec_lens(self) -> Seq<int> {
        match self {
            SmokeStage::BareMma => seq![16int * 32, 8int * 32, 16int * 8],
            SmokeStage::TiledGemm => seq![64int * 512, 64int * 512, 64int * 64],
            SmokeStage::Attention => seq![
                4int * 16 * 512,
                4int * 128 * 512,
                4int * 128 * 512,
                4int * 16,
                4int * 128,
                4int * 128,
                4int * 16 * 512,
            ],
        }
    }

    /// The lengths of the stage's buffers: the two factors and their product, or queries, keys
    /// and values, a scale for each of their rows, and what comes out.
    pub fn lens(self) -> (lens: Vec<usize>)
        ensures
            lens@.len() == self.spec_lens().len(),
            forall|i: int| 0 <= i < lens@.len() ==> #[trigger] lens@[i] == self.spec_lens()[i],
    {
        match self {
            SmokeStage::BareMma => vec![512, 256, 128],
            SmokeStage::TiledGemm => vec![32768, 32768, 4096],
            SmokeStage::Attention => vec![32768, 262144, 262144, 64, 512, 512, 32768],
        }
    }

    /// What the stage's report says of its problem.
    pub fn shape(self, bit_exact: bool) -> (shape: Message)
        ensures
            shape == match self {
                SmokeStage::BareMma => (Message {
                    text: "M={} N={} K={} (bit_exact={})",
                    values: Values::Four(
                        Value::Number(16),
                        Value::Number(8),
                        Value::Number(32),
                        Value::Flag(bit_exact),
                    ),
                }),
                SmokeStage::TiledGemm => (Message {
                    text: "M={} N={} K={}",
                    values: Values::Three(
                        Value::Number(64),
                        Value::Number(64),
                        Value::Number(512),
                    ),
                }),
                SmokeStage::Attention => (Message {
                    text: "H={} q={} ctx={} D={} causal",
                    values: Values::Four(
                        Value::Number(4),
                        Value::Number(16),
                        Value::Number(128),
                        Value::Number(512),
                    ),
                }),
            },
    {
        match self {
            SmokeStage::BareMma => Message {
                text: "M={} N={} K={} (bit_exact={})",
                values: Values::Four(
                    Value::Number(16),
                    Value::Number(8),
                    Value::Number(32),
                    Value::Flag(bit_exact),
                ),
            },
            SmokeStage::TiledGemm => Message {
                text: "M={} N={} K={}",
                values: Values::Three(Value::Number(64), Value::Number(64), Value::Number(512)),
            },
            SmokeStage::Attention => Message {
                text: "H={} q={} ctx={} D={} causal",
                values: Values::Four(
                    Value::Number(4),
                    Value::Number(16),
                    Value::Number(128),
                    Value::Number(512),
                ),
            },
        }
    }
}

/// Draws `len` numbers below one, as numerators over 2^24.
pub fn draw_units(source: &mut Rng, len: usize) -> (values: Vec<u32>)
    ensures
        values@ == Seq::new(len as nat, |i: int| rng::drawn(old(source).0, (i + 1) as nat) >> 8),
        final(source).0 == rng::drawn(old(source).0, len as nat),
{
    let mut values: Vec<u32> = Vec::new();
    let mut i: usize = 0;
    while i < len
        invariant
            i <= len,
            source.0 == rng::drawn(old(source).0, i as nat),
            values@ == Seq::new(i as nat, |j: int| rng::drawn(old(source).0, (j + 1) as nat) >> 8),
        decreases len - i,
    {
        values.push(source.next_unit());
        i += 1;
        assert(values@ =~= Seq::new(
            i as nat,
            |j: int| rng::drawn(old(source).0, (j + 1) as nat) >> 8,
        ));
    }
    values
}

/// The attention that is tried out fits the shared memory that its kernel is allowed.
pub proof fn attention_fits_shared_memory()
    ensures
        attention_shared_bytes(128) <= 96 * 1024,
        SmokeStage::Attention.spec_config().shared_mem_bytes == attention_shared_bytes(128),
{
}

/// Whether query `query` of `queries`, the last ones of `context` positions, sees position
/// `position`: none after its own.
pub fn is_visible(position: usize, query: usize, queries: usize, context: usize) -> (yes: bool)
    requires
        queries <= context,
        query < queries,
    ensures
        yes == (position <= context - queries + query),
{
    position <= (context - queries) + query
}

/// Every run gave the numbers of the first, bit by bit, as far as both go.
pub open spec fn all_alike(runs: Seq<Vec<u32>>) -> bool {
    forall|i: int, j: int|
        0 <= i < runs.len() && 0 <= j < runs[i]@.len() && j < runs[0]@.len() ==> #[trigger]
            runs[i]@[j] == runs[0]@[j]
}

/// Whether every run gave the numbers of the first.
pub fn runs_agree(runs: &Vec<Vec<u32>>) -> (yes: bool)
    requires
        runs@.len() > 0,
    ensures
        yes == all_alike(runs@),
{
    let mut i: usize = 0;
    while i < runs.len()
        invariant
            i <= runs@.len(),
            0 < runs@.len(),
            forall|r: int, j: int|
                0 <= r < i && 0 <= j < runs@[r]@.len() && j < runs@[0]@.len() ==> #[trigger]
                    runs@[r]@[j] == runs@[0]@[j],
        decreases runs@.len() - i,
    {
        let mut j: usize = 0;
        while j < runs[i].len() && j < runs[0].len()
            invariant
                i < runs@.len(),
                0 < runs@.len(),
                j <= runs@[i as int]@.len(),
                j <= runs@[0]@.len(),
                forall|r: int, c: int|
                    0 <= r < i && 0 <= c < runs@[r]@.len() && c < runs@[0]@.len() ==> #[trigger]
                        runs@[r]@[c] == runs@[0]@[c],
                forall|c: int| 0 <= c < j ==> #[trigger] runs@[i as int]@[c] == runs@[0]@[c],
            decreases runs@[i as int]@.len() - j,
        {
            if runs[i][j] != runs[0][j] {
                assert(runs@[i as int]@[j as int] != runs@[0]@[j as int]);
                return false;
            }
            j += 1;
        }
        i += 1;
    }
    true
}

/// Whether a stage passed: its runs agree, and the result is close enough to the reference.
/// The bare product of integers has to be the same to the bit.
pub fn stage_passed(stage: SmokeStage, deterministic: bool, bit_exact: bool, above_bar: bool) -> (yes: bool)
    ensures
        yes == (deterministic && if stage == SmokeStage::BareMma {
            bit_exact
        } else {
            above_bar
        }),
{
    deterministic && if stage == SmokeStage::BareMma {
        bit_exact
    } else {
        above_bar
    }
}

/// Whether all stages passed.
pub fn all_passed(stages: &Vec<bool>) -> (yes: bool)
    ensures
        yes == (forall|i: int| 0 <= i < stages@.len() ==> #[trigger] stages@[i]),
{
    let mut i: usize = 0;
    while i < stages.len()
        invariant
            i <= stages@.len(),
            forall|j: int| 0 <= j < i ==> #[trigger] stages@[j],
        decreases stages@.len() - i,
    {
        if !stages[i] {
            assert(!stages@[i as int]);
            return false;
        }
        i = i + 1;
    }
    true
}

impl CudaRuntime {
    /// Whether FP8 tensor cores can be tried out on the device: its compute capability has
    /// to be `12.x`.
    pub fn fp8_mma_smoke(&self) -> (capability: Result<String, AegisError>)
        ensures
            match capability {
                Ok(text) => self.is_sm120() && self.capability() == Some(text@),
                Err(error) => {
                    &&& !self.is_sm120()
                    &&& error matches AegisError::Unsupported(message)
                    &&& message.text
                        == "fp8 mma smoke requires SM120 (compute capability 12.x); device reports {}"
                    &&& message.values matches Values::One(Value::Name(shown))
                    &&& shown@ == match self.capability() {
                        Some(text) => text,
                        None => "unknown"@,
                    }
                },
            },
    {
        let shown = match self.compute_capability() {
            Some(text) => text.to_owned(),
            None => "unknown".to_owned(),
        };
        if !self.reports_sm120() {
            return Err(
                unsupported_plan(
                    "fp8 mma smoke requires SM120 (compute capability 12.x); device reports {}",
                    Values::One(Value::Name(shown)),
                ),
            );
        }
        Ok(shown)
    }
}

} // verus!
