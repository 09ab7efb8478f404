//! What the kernels make of their arguments: which parameter stands at which place, what a
//! block of the grid works on, and where the numbers of a row lie in memory.
use crate::functions::Kernel;
use crate::launch::{Arg, BridgeView, GemmShape, LaunchView};
use vstd::prelude::*;

verus! {

/// The number that an argument passes; no number that a kernel takes is negative.
pub open spec fn number(arg: Arg) -> int {
    match arg {
        Arg::U32(value) => value as int,
        Arg::I32(value) => value as int,
        Arg::Size(value) => value as int,
        _ => -1,
    }
}

/// `blocks` tiles hold `count` things, and no tile is left without any.
pub open spec fn tiled(blocks: int, tile: int, count: int) -> bool {
    (blocks - 1) * tile < count <= blocks * tile
}

/// Attention of a run of query tokens over the cached positions up to their own.
pub struct CausalPrefill {
    pub keys: Arg,
    pub values: Arg,
    pub queries: Arg,
    pub start: int,
    pub tokens: int,
    pub heads: int,
    pub kv_heads: int,
    pub head_dim: int,
    pub capacity: int,
}

impl CausalPrefill {
    /// Where the row of a token and a query head starts, among the queries and in the output.
    pub open spec fn row(&self, token: int, head: int) -> int {
        (token * self.heads + head) * self.head_dim
    }

    /// The key/value head that a query head shares with the others of its group.
    pub open spec fn kv_head(&self, head: int) -> int {
        head / (self.heads / self.kv_heads)
    }

    /// Where the row that a query head sees of a position starts in the caches.
    pub open spec fn cached(&self, position: int, head: int) -> int {
        ((position % self.capacity) * self.kv_heads + self.kv_head(head)) * self.head_dim
    }

    /// The last position that a query token sees: its own.
    pub open spec fn last_position(&self, token: int) -> int {
        self.start + token
    }
}

/// The work of the batched kernels over an unpaged cache: caches, for continuations the
/// chunk's own keys and values, queries, start, tokens, heads, key/value heads, head
/// dimension, capacity and output.
pub open spec fn batched_prefill(launch: LaunchView) -> CausalPrefill {
    let a = launch.args;
    let first: int = if launch.kernel is AttentionPrefillContinuation {
        4
    } else {
        2
    };
    CausalPrefill {
        keys: a[0],
        values: a[1],
        queries: a[first],
        start: number(a[first + 1]),
        tokens: number(a[first + 2]),
        heads: number(a[first + 3]),
        kv_heads: number(a[first + 4]),
        head_dim: number(a[first + 5]),
        capacity: number(a[first + 6]),
    }
}

/// The work of the dense half-precision kernels: caches, queries, start, tokens, context,
/// heads, key/value heads, head dimension and capacity, before the output or the scratch.
pub open spec fn dense_prefill(launch: LaunchView) -> CausalPrefill {
    let a = launch.args;
    CausalPrefill {
        keys: a[0],
        values: a[1],
        queries: a[2],
        start: number(a[3]),
        tokens: number(a[4]),
        heads: number(a[6]),
        kv_heads: number(a[7]),
        head_dim: number(a[8]),
        capacity: number(a[9]),
    }
}

/// Attention of the query tokens of several sequences over paged caches.
pub struct PagedPrefill {
    pub keys: Arg,
    pub values: Arg,
    pub queries: Arg,
    pub slots: Arg,
    pub query_starts: Arg,
    pub context_lens: Arg,
    pub block_tables: Arg,
    pub sequences: int,
    pub tokens: int,
    pub heads: int,
    pub kv_heads: int,
    pub head_dim: int,
    pub page_tokens: int,
    pub table_stride: int,
    pub physical_slots: int,
}

/// The work of the paged kernels. The one that splits the context takes the size and the
/// number of the splits before the stride of the block tables.
pub open spec fn paged_prefill(launch: LaunchView) -> PagedPrefill {
    let a = launch.args;
    let after: int = if launch.kernel is AttentionPrefillPagedVarlenHalfqBlock4Split {
        15
    } else {
        13
    };
    PagedPrefill {
        keys: a[0],
        values: a[1],
        queries: a[2],
        slots: a[3],
        query_starts: a[4],
        context_lens: a[5],
        block_tables: a[6],
        sequences: number(a[7]),
        tokens: number(a[8]),
        heads: number(a[9]),
        kv_heads: number(a[10]),
        head_dim: number(a[11]),
        page_tokens: number(a[12]),
        table_stride: number(a[after]),
        physical_slots: number(a[after + 1]),
    }
}

/// Attention of one query token: caches, query, length of the sequence, heads, key/value
/// heads, head dimension and window.
pub struct Decode {
    pub keys: Arg,
    pub values: Arg,
    pub query: Arg,
    pub length: Arg,
    pub heads: int,
    pub kv_heads: int,
    pub head_dim: int,
    pub window: int,
}

/// The work of the decode kernels. Those that split the sequence take the number and the
/// size of the chunks before the window.
pub open spec fn decode(launch: LaunchView) -> Decode {
    let a = launch.args;
    let window: int = if launch.kernel is AttentionDecodePtrSplit
        || launch.kernel is AttentionDecodePtrSplitFp8 {
        9
    } else {
        7
    };
    Decode {
        keys: a[0],
        values: a[1],
        query: a[2],
        length: a[3],
        heads: number(a[4]),
        kv_heads: number(a[5]),
        head_dim: number(a[6]),
        window: number(a[window]),
    }
}

/// The kernels of batched prefill over an unpaged cache.
pub open spec fn is_batched(kernel: Kernel) -> bool {
    kernel is AttentionPrefillBatched || kernel is AttentionPrefillBatchedWarp || kernel
        is AttentionPrefillContinuation
}

/// The dense kernels that take whole groups of query heads.
pub open spec fn is_grouped(kernel: Kernel) -> bool {
    kernel is AttentionPrefillDenseHalfqWmmaHdim128Gqa4 || kernel
        is AttentionPrefillDenseHalfqWmmaHdim128Gqa4Split
}

/// The dense kernels that leave splits in a scratch.
pub open spec fn is_dense_split(kernel: Kernel) -> bool {
    kernel is AttentionPrefillDenseHalfqWmmaHdim128Split || kernel
        is AttentionPrefillDenseHalfqWmmaHdim128Gqa4Split
}

/// The dense kernels for a head dimension of 128.
pub open spec fn is_dense_128(kernel: Kernel) -> bool {
    is_grouped(kernel) || is_dense_split(kernel) || kernel
        is AttentionPrefillDenseHalfqWarpTileHdim128 || kernel
        is AttentionPrefillDenseHalfqWmmaHdim128 || kernel
        is AttentionPrefillDenseHalfqWmmaHdim128Fa || kernel
        is AttentionPrefillDenseHalfqWmmaHdim128Cluster2 || kernel
        is AttentionPrefillDenseHalfqWmmaHdim128Q32
}

/// The dense half-precision kernels.
pub open spec fn is_dense(kernel: Kernel) -> bool {
    is_dense_128(kernel) || kernel is AttentionPrefillDenseHalfqBlock4 || kernel
        is AttentionPrefillDenseHalfqWmmaHdim256
}

/// The kernels that combine splits.
pub open spec fn is_prefill_combine(kernel: Kernel) -> bool {
    kernel is AttentionPrefillDenseHalfqWmmaHdim128Combine || kernel
        is AttentionPrefillPagedVarlenHalfqBlock4Combine
}

/// The kernels over paged caches.
pub open spec fn is_paged(kernel: Kernel) -> bool {
    kernel is AttentionPrefillPagedVarlen || kernel is AttentionPrefillPagedVarlenHalfq || kernel
        is AttentionPrefillPagedVarlenHalfqBlock4 || kernel
        is AttentionPrefillPagedVarlenHalfqBlock4Split || kernel
        is AttentionPrefillPagedVarlenFa4Hdim128 || kernel
        is AttentionPrefillPagedVarlenHalfqWmmaHdim128Gqa4
}

/// Query tokens that one block of a prefill kernel serves.
pub open spec fn tokens_per_block(kernel: Kernel) -> int {
    match kernel {
        Kernel::AttentionPrefillDenseHalfqBlock4 => 4,
        Kernel::AttentionPrefillPagedVarlenHalfqBlock4 => 4,
        Kernel::AttentionPrefillPagedVarlenHalfqBlock4Split => 4,
        Kernel::AttentionPrefillPagedVarlenHalfqBlock4Combine => 4,
        Kernel::AttentionPrefillPagedVarlenFa4Hdim128 => 8,
        Kernel::AttentionPrefillPagedVarlenHalfqWmmaHdim128Gqa4 => 8,
        Kernel::AttentionPrefillDenseHalfqWmmaHdim128Gqa4 => 8,
        Kernel::AttentionPrefillDenseHalfqWmmaHdim128Gqa4Split => 8,
        Kernel::AttentionPrefillDenseHalfqWarpTileHdim128 => 16,
        Kernel::AttentionPrefillDenseHalfqWmmaHdim128 => 16,
        Kernel::AttentionPrefillDenseHalfqWmmaHdim256 => 16,
        Kernel::AttentionPrefillDenseHalfqWmmaHdim128Fa => 16,
        Kernel::AttentionPrefillDenseHalfqWmmaHdim128Cluster2 => 16,
        Kernel::AttentionPrefillDenseHalfqWmmaHdim128Split => 16,
        Kernel::AttentionPrefillDenseHalfqWmmaHdim128Combine => 16,
        Kernel::AttentionPrefillDenseHalfqWmmaHdim128Q32 => 32,
        _ => 1,
    }
}

/// Threads of one block of an attention kernel.
pub open spec fn attention_threads(kernel: Kernel) -> int {
    match kernel {
        Kernel::AttentionPrefillDenseHalfqBlock4 => 64,
        Kernel::AttentionPrefillDenseHalfqWarpTileHdim128 => 512,
        Kernel::AttentionPrefillDenseHalfqWmmaHdim256 => 512,
        Kernel::AttentionPrefillDenseHalfqWmmaHdim128 => 256,
        Kernel::AttentionPrefillDenseHalfqWmmaHdim128Fa => 256,
        Kernel::AttentionPrefillDenseHalfqWmmaHdim128Cluster2 => 256,
        Kernel::AttentionPrefillDenseHalfqWmmaHdim128Q32 => 256,
        Kernel::AttentionPrefillDenseHalfqWmmaHdim128Gqa4 => 256,
        Kernel::AttentionPrefillDenseHalfqWmmaHdim128Gqa4Split => 256,
        Kernel::AttentionPrefillDenseHalfqWmmaHdim128Split => 256,
        Kernel::AttentionPrefillDenseHalfqWmmaHdim128Combine => 256,
        Kernel::AttentionPrefillPagedVarlenHalfqWmmaHdim128Gqa4 => 256,
        _ => 128,
    }
}

/// Bytes of shared memory that a block of a dense kernel uses, for this head dimension.
pub open spec fn dense_shared_bytes(kernel: Kernel, head_dim: int) -> int {
    match kernel {
        Kernel::AttentionPrefillDenseHalfqBlock4 => 4 * (24 + 10 * head_dim),
        Kernel::AttentionPrefillDenseHalfqWarpTileHdim128 => 16384,
        Kernel::AttentionPrefillDenseHalfqWmmaHdim128 => 40128,
        Kernel::AttentionPrefillDenseHalfqWmmaHdim256 => 76992,
        Kernel::AttentionPrefillDenseHalfqWmmaHdim128Fa => 31936,
        Kernel::AttentionPrefillDenseHalfqWmmaHdim128Cluster2 => 31936,
        Kernel::AttentionPrefillDenseHalfqWmmaHdim128Q32 => 63872,
        Kernel::AttentionPrefillDenseHalfqWmmaHdim128Gqa4 => 50048,
        Kernel::AttentionPrefillDenseHalfqWmmaHdim128Gqa4Split => 47488,
        Kernel::AttentionPrefillDenseHalfqWmmaHdim128Split => 40128,
        _ => 8384,
    }
}

/// Bytes of shared memory that a block of a paged kernel uses, for this head dimension.
pub open spec fn paged_shared_bytes(kernel: Kernel, head_dim: int) -> int {
    match kernel {
        Kernel::AttentionPrefillPagedVarlenHalfqWmmaHdim128Gqa4 => 50048,
        Kernel::AttentionPrefillPagedVarlenFa4Hdim128 => 46336,
        Kernel::AttentionPrefillPagedVarlenHalfqBlock4 => 4 * (32 + 10 * head_dim),
        Kernel::AttentionPrefillPagedVarlenHalfqBlock4Split => 4 * (32 + 10 * head_dim),
        Kernel::AttentionPrefillPagedVarlenHalfqBlock4Combine => 4 * (16 + 4 * head_dim),
        Kernel::AttentionPrefillPagedVarlenHalfq => 4 * (132 + 2 * head_dim),
        _ => 4 * (132 + head_dim),
    }
}

/// `x` blocks serve all query heads: one block each, a pair of blocks each for the clustered
/// kernel, and for the kernels that take four heads of a group at a time as many for each
/// group as hold it.
pub open spec fn heads_served(kernel: Kernel, x: int, heads: int, kv_heads: int) -> bool {
    match kernel {
        Kernel::AttentionPrefillDenseHalfqWmmaHdim128Cluster2 => x == 2 * heads,
        Kernel::AttentionPrefillDenseHalfqWmmaHdim128Gqa4
        | Kernel::AttentionPrefillDenseHalfqWmmaHdim128Gqa4Split
        | Kernel::AttentionPrefillPagedVarlenHalfqWmmaHdim128Gqa4 => exists|per_group: int|
            x == kv_heads * per_group && #[trigger] tiled(per_group, 4, heads / kv_heads),
        _ => x == heads,
    }
}

/// The projections of an expert, in the order in which a slot holds them.
pub enum Projection {
    Gate,
    Up,
    Down,
}

impl Projection {
    /// The projection's place among the three.
    pub open spec fn place(self) -> int {
        match self {
            Projection::Gate => 0,
            Projection::Up => 1,
            Projection::Down => 2,
        }
    }
}

/// What the gather kernel does: for each slot it looks up the expert that was routed there,
/// and copies of each projection the expert's weights and scales, and its two scales of the
/// whole tensor.
pub struct Gather {
    pub routes: Arg,
    pub slots: int,
    pub experts: int,
    pub packed_pointers: spec_fn(Projection) -> Arg,
    pub scale_pointers: spec_fn(Projection) -> Arg,
    pub packed_bytes: spec_fn(Projection) -> int,
    pub scale_bytes: spec_fn(Projection) -> int,
    pub in_scales: spec_fn(Projection) -> Arg,
    pub out_scales: spec_fn(Projection) -> Arg,
    pub packed: Arg,
    pub scales: Arg,
    pub slot_in_scales: Arg,
    pub slot_out_scales: Arg,
}

/// The work of the gather kernel: routes, slots and experts; the three tables of pointers to
/// weights and the three to scales; bytes of weights and of scales, projection by projection;
/// the scales of the whole tensors, on the way in and on the way out; and what it fills.
pub open spec fn gather(launch: LaunchView) -> Gather {
    let a = launch.args;
    Gather {
        routes: a[0],
        slots: number(a[1]),
        experts: number(a[2]),
        packed_pointers: |p: Projection| a[3 + p.place()],
        scale_pointers: |p: Projection| a[6 + p.place()],
        packed_bytes: |p: Projection| number(a[9 + 2 * p.place()]),
        scale_bytes: |p: Projection| number(a[10 + 2 * p.place()]),
        in_scales: |p: Projection| a[15 + p.place()],
        out_scales: |p: Projection| a[18 + p.place()],
        packed: a[21],
        scales: a[22],
        slot_in_scales: a[23],
        slot_out_scales: a[24],
    }
}

/// Where a projection starts within a slot, given the bytes of each.
pub open spec fn part_start(bytes: spec_fn(Projection) -> int, p: Projection) -> int {
    match p {
        Projection::Gate => 0,
        Projection::Up => bytes(Projection::Gate),
        Projection::Down => bytes(Projection::Gate) + bytes(Projection::Up),
    }
}

/// Bytes of a slot.
pub open spec fn slot_bytes(bytes: spec_fn(Projection) -> int) -> int {
    part_start(bytes, Projection::Down) + bytes(Projection::Down)
}

/// Which projection a byte of a slot is of.
pub open spec fn projection_at(bytes: spec_fn(Projection) -> int, offset: int) -> Projection {
    if offset < part_start(bytes, Projection::Up) {
        Projection::Gate
    } else if offset < part_start(bytes, Projection::Down) {
        Projection::Up
    } else {
        Projection::Down
    }
}

impl Gather {
    /// Where a byte of a slot's weights comes from: the table that points to it, and its
    /// place behind the pointer of the slot's expert.
    pub open spec fn packed_source(&self, offset: int) -> (Arg, int) {
        let p = projection_at(self.packed_bytes, offset);
        ((self.packed_pointers)(p), offset - part_start(self.packed_bytes, p))
    }

    /// Where a byte of a slot's scales comes from.
    pub open spec fn scale_source(&self, offset: int) -> (Arg, int) {
        let p = projection_at(self.scale_bytes, offset);
        ((self.scale_pointers)(p), offset - part_start(self.scale_bytes, p))
    }
}

/// A product of each slot's weights with its own row of inputs.
pub struct SlotMatvec {
    pub packed: Arg,
    pub scales: Arg,
    pub packed_stride: int,
    pub scale_stride: int,
    pub packed_offset: int,
    pub scale_offset: int,
    pub input: Arg,
    pub input_stride: int,
    pub rows: int,
    pub cols: int,
    pub out_scales: Arg,
    pub projection: int,
    pub output_stride: int,
    pub slots: int,
    pub output: Arg,
}

/// The work of the products slot by slot.
pub open spec fn slot_matvec(launch: LaunchView) -> SlotMatvec {
    let a = launch.args;
    SlotMatvec {
        packed: a[0],
        scales: a[1],
        packed_stride: number(a[2]),
        scale_stride: number(a[3]),
        packed_offset: number(a[4]),
        scale_offset: number(a[5]),
        input: a[6],
        input_stride: number(a[7]),
        rows: number(a[8]),
        cols: number(a[9]),
        out_scales: a[10],
        projection: number(a[11]),
        output_stride: number(a[12]),
        slots: number(a[13]),
        output: a[14],
    }
}

impl SlotMatvec {
    /// Where the weights of a row of a slot's projection start.
    pub open spec fn weight_row(&self, slot: int, row: int) -> int {
        slot * self.packed_stride + self.packed_offset + row * (self.cols / 2)
    }

    /// Where the scales of a row of a slot's projection start.
    pub open spec fn scale_row(&self, slot: int, row: int) -> int {
        slot * self.scale_stride + self.scale_offset + row * (self.cols / 16)
    }
}

/// A product of four-bit matrices: `m` rows of `k` activations by `n` rows of `k` weights,
/// each with the scales of their blocks, to `m` rows of `n` numbers.
pub struct ScaledProduct {
    pub activations: Arg,
    pub weights: Arg,
    pub activation_scales: Arg,
    pub weight_scales: Arg,
    pub output: Arg,
    pub workspace: Arg,
    pub workspace_bytes: int,
    pub m: int,
    pub n: int,
    pub k: int,
    pub scale: Arg,
}

/// The work of the bridge's product: activations, weights, their scales, output, workspace
/// and its bytes, `m`, `n`, `k`, and the scale of the result.
pub open spec fn bridge_product(call: BridgeView) -> ScaledProduct {
    let a = call.args;
    ScaledProduct {
        activations: a[0],
        weights: a[1],
        activation_scales: a[2],
        weight_scales: a[3],
        output: a[4],
        workspace: a[5],
        workspace_bytes: number(a[6]),
        m: number(a[7]),
        n: number(a[8]),
        k: number(a[9]),
        scale: a[10],
    }
}

/// The work of the bridge's pair of products, which have their activations in common: the
/// first one, or the second.
pub open spec fn bridge_pair(call: BridgeView, second: bool) -> ScaledProduct {
    let a = call.args;
    let i: int = if second {
        1
    } else {
        0
    };
    ScaledProduct {
        activations: a[0],
        weights: a[1 + i],
        activation_scales: a[3],
        weight_scales: a[4 + i],
        output: a[6 + i],
        workspace: a[8],
        workspace_bytes: number(a[9]),
        m: number(a[10]),
        n: number(a[11 + i]),
        k: number(a[13]),
        scale: a[14 + i],
    }
}

impl GemmShape {
    /// Where an element of the first factor lies, of row `i` and depth `j`: columns are
    /// `lda` apart, and are the rows where the factor is transposed.
    pub open spec fn first_at(&self, i: int, j: int) -> int {
        if self.transa {
            i * self.lda + j
        } else {
            j * self.lda + i
        }
    }

    /// Where an element of the second factor lies, of depth `j` and column `b`.
    pub open spec fn second_at(&self, j: int, b: int) -> int {
        if self.transb {
            j * self.ldb + b
        } else {
            b * self.ldb + j
        }
    }

    /// Where an element of the product lies, of row `i` and column `b`.
    pub open spec fn product_at(&self, i: int, b: int) -> int {
        b * self.ldc + i
    }
}

/// A product of `batch` vectors of `cols` numbers with `rows` rows of weights.
pub struct MatrixProduct {
    pub weights: Arg,
    pub weight_scales: Arg,
    pub input: Arg,
    pub rows: int,
    pub cols: int,
    pub batch: int,
    pub blocks_per_row: int,
    pub input_scale: Arg,
    pub output_scale: Arg,
    pub output: Arg,
}

/// The work of the kernels that multiply matrices. Where a kernel takes no batch, it has one
/// block row for each vector along the second axis; what it does not take is null or none.
pub open spec fn matrix_product(launch: LaunchView) -> MatrixProduct {
    let a = launch.args;
    let vectors = launch.config.grid_dim.1 as int;
    match launch.kernel {
        Kernel::Bf16Matvec => MatrixProduct {
            weights: a[0],
            weight_scales: Arg::Null,
            input: a[1],
            rows: number(a[2]),
            cols: number(a[3]),
            batch: vectors,
            blocks_per_row: -1,
            input_scale: Arg::Null,
            output_scale: Arg::Null,
            output: a[4],
        },
        Kernel::Bf16MatmulReferenceBatched => MatrixProduct {
            weights: a[0],
            weight_scales: Arg::Null,
            input: a[1],
            rows: number(a[2]),
            cols: number(a[3]),
            batch: number(a[4]),
            blocks_per_row: -1,
            input_scale: Arg::Null,
            output_scale: Arg::Null,
            output: a[5],
        },
        Kernel::Fp8Matvec => MatrixProduct {
            weights: a[0],
            weight_scales: a[1],
            input: a[2],
            rows: number(a[3]),
            cols: number(a[4]),
            batch: vectors,
            blocks_per_row: -1,
            input_scale: Arg::Null,
            output_scale: Arg::Null,
            output: a[5],
        },
        Kernel::Fp8MatmulBatched => MatrixProduct {
            weights: a[0],
            weight_scales: a[1],
            input: a[2],
            rows: number(a[3]),
            cols: number(a[4]),
            batch: number(a[5]),
            blocks_per_row: -1,
            input_scale: Arg::Null,
            output_scale: Arg::Null,
            output: a[6],
        },
        Kernel::Nvfp4Reference | Kernel::Nvfp4ReferenceBatched => MatrixProduct {
            weights: a[0],
            weight_scales: a[1],
            input: a[2],
            rows: number(a[3]),
            cols: number(a[4]),
            batch: vectors,
            blocks_per_row: -1,
            input_scale: a[5],
            output_scale: a[6],
            output: a[7],
        },
        Kernel::Nvfp4Prequant | Kernel::Nvfp4PrequantBatched => MatrixProduct {
            weights: a[0],
            weight_scales: a[1],
            input: a[2],
            rows: number(a[3]),
            cols: number(a[4]),
            batch: vectors,
            blocks_per_row: -1,
            input_scale: Arg::Null,
            output_scale: a[5],
            output: a[6],
        },
        Kernel::Nvfp4PrequantBatchedGemm | Kernel::Nvfp4PrequantBatchedGemmWmmaBf16 => MatrixProduct {
            weights: a[0],
            weight_scales: a[1],
            input: a[2],
            rows: number(a[3]),
            cols: number(a[4]),
            batch: number(a[5]),
            blocks_per_row: -1,
            input_scale: Arg::Null,
            output_scale: a[6],
            output: a[7],
        },
        Kernel::Mxfp4Matvec | Kernel::Mxfp4Matvec4warp | Kernel::Mxfp4Matvec16warp => MatrixProduct {
            weights: a[0],
            weight_scales: Arg::Null,
            input: a[1],
            rows: number(a[2]),
            cols: number(a[3]),
            batch: vectors,
            blocks_per_row: number(a[4]),
            input_scale: Arg::Null,
            output_scale: a[5],
            output: a[6],
        },
        _ => MatrixProduct {
            weights: a[0],
            weight_scales: Arg::Null,
            input: a[1],
            rows: number(a[2]),
            cols: number(a[3]),
            batch: number(a[5]),
            blocks_per_row: number(a[4]),
            input_scale: Arg::Null,
            output_scale: a[6],
            output: a[7],
        },
    }
}

/// Number of arguments that a kernel for matrices takes.
pub open spec fn product_arity(kernel: Kernel) -> nat {
    match kernel {
        Kernel::Bf16Matvec => 5,
        Kernel::Bf16MatmulReferenceBatched => 6,
        Kernel::Fp8Matvec => 6,
        Kernel::Fp8MatmulBatched => 7,
        Kernel::Nvfp4Prequant => 7,
        Kernel::Nvfp4PrequantBatched => 7,
        Kernel::Mxfp4Matvec => 7,
        Kernel::Mxfp4Matvec4warp => 7,
        Kernel::Mxfp4Matvec16warp => 7,
        _ => 8,
    }
}

/// Rows of weights and vectors that one block works on.
pub open spec fn product_tile(kernel: Kernel) -> (int, int) {
    match kernel {
        Kernel::Nvfp4PrequantBatchedGemm => (1, 8),
        Kernel::Nvfp4PrequantBatchedGemmWmmaBf16 => (16, 16),
        Kernel::Mxfp4Matvec => (16, 1),
        Kernel::Mxfp4Matvec4warp => (16, 1),
        Kernel::Mxfp4Matvec16warp => (16, 1),
        Kernel::Mxfp4MatmulN8 => (16, 8),
        Kernel::Mxfp4MatmulTileM16n32 => (32, 16),
        Kernel::Mxfp4MatmulTileM16n64 => (64, 16),
        _ => (1, 1),
    }
}

/// Threads of one block.
pub open spec fn product_threads(kernel: Kernel) -> int {
    match kernel {
        Kernel::Fp8Matvec => 256,
        Kernel::Nvfp4ReferenceBatched => 256,
        Kernel::Nvfp4PrequantBatched => 256,
        Kernel::Nvfp4PrequantBatchedGemm => 256,
        Kernel::Nvfp4PrequantBatchedGemmWmmaBf16 => 32,
        Kernel::Mxfp4Matvec => 32,
        Kernel::Mxfp4Matvec4warp => 128,
        Kernel::Mxfp4Matvec16warp => 512,
        Kernel::Mxfp4MatmulN8 => 32,
        Kernel::Mxfp4MatmulTileM16n32 => 128,
        Kernel::Mxfp4MatmulTileM16n64 => 256,
        _ => 128,
    }
}

/// Bytes of shared memory of one block: a number for each thread where threads add up their
/// parts, a row of weights with its scales where vectors share it.
pub open spec fn product_shared(kernel: Kernel, cols: int) -> int {
    match kernel {
        Kernel::Nvfp4PrequantBatchedGemm => cols / 2 + cols / 16,
        Kernel::Nvfp4PrequantBatchedGemmWmmaBf16 => 0,
        Kernel::Mxfp4Matvec => 0,
        Kernel::Mxfp4Matvec4warp => 0,
        Kernel::Mxfp4Matvec16warp => 0,
        Kernel::Mxfp4MatmulN8 => 0,
        Kernel::Mxfp4MatmulTileM16n32 => 0,
        Kernel::Mxfp4MatmulTileM16n64 => 0,
        _ => 4 * product_threads(kernel),
    }
}

/// The work of the kernels that multiply three projections at once: the weights of each, the
/// input, rows of the first and of the others, columns, blocks per row of each, batch, scales
/// and outputs. `i` tells which projection.
pub open spec fn qkv_product(launch: LaunchView, i: int) -> MatrixProduct {
    let a = launch.args;
    MatrixProduct {
        weights: a[i],
        weight_scales: Arg::Null,
        input: a[3],
        rows: if i == 0 {
            number(a[4])
        } else {
            number(a[5])
        },
        cols: number(a[6]),
        batch: number(a[10]),
        blocks_per_row: number(a[7 + i]),
        input_scale: Arg::Null,
        output_scale: a[11 + i],
        output: a[14 + i],
    }
}

/// The work of the kernels that multiply two projections at once: the weights of each, the
/// input, rows of each, columns, blocks per row of each, batch, scales and outputs.
pub open spec fn gate_up_product(launch: LaunchView, i: int) -> MatrixProduct {
    let a = launch.args;
    MatrixProduct {
        weights: a[i],
        weight_scales: Arg::Null,
        input: a[2],
        rows: number(a[3 + i]),
        cols: number(a[5]),
        batch: number(a[8]),
        blocks_per_row: number(a[6 + i]),
        input_scale: Arg::Null,
        output_scale: a[9 + i],
        output: a[11 + i],
    }
}

/// Where the rows of a fused query, key and value lie: all of a vector's queries, keys and
/// values one after the other. `part` tells which of the three.
pub open spec fn fused_row(q_rows: int, kv_rows: int, vector: int, part: int, row: int) -> int {
    vector * (q_rows + 2 * kv_rows) + (if part == 0 {
        0
    } else if part == 1 {
        q_rows
    } else {
        q_rows + kv_rows
    }) + row
}

} // verus!
