//! Plans that fill caches, read them back and attend over them.
use aegisllm_cuda::config::{
    CudaAttentionBackend, CudaPrefillAttentionKernel, CudaRuntimeConfig, PrefillTuning,
};
use aegisllm_cuda::error::AegisError;
use aegisllm_cuda::functions::Kernel;
use aegisllm_cuda::launch::{Arg, Engine, Launch, LaunchConfig, Operand, Plan, Region, Scalar, Step};
use aegisllm_cuda::runtime::CudaRuntime;
use aegisllm_cuda::types::{DensePrefillMetadataProof, DeviceBuffer, F32};

fn runtime() -> CudaRuntime {
    CudaRuntime::new_with_config(
        0,
        None,
        CudaRuntimeConfig {
            prefill_attention: CudaPrefillAttentionKernel::Auto,
            native_mxfp4_repack: false,
            native_mxfp4_inference: false,
            cutlass_nvfp4_repack: false,
        },
        PrefillTuning {
            auto_target: CudaAttentionBackend::FlashAttention4,
            varlen_min_context: 1024,
            dense_split_k_tokens: 512,
        },
    )
}

fn reals(len: usize) -> DeviceBuffer<F32> {
    DeviceBuffer::with_len(len)
}

fn halves(len: usize) -> DeviceBuffer<u16> {
    DeviceBuffer::with_len(len)
}

fn words(len: usize) -> DeviceBuffer<u32> {
    DeviceBuffer::with_len(len)
}

fn bytes(len: usize) -> DeviceBuffer<u8> {
    DeviceBuffer::with_len(len)
}

fn only_launch(plan: &Plan) -> &Launch {
    assert_eq!(plan.steps.len(), 1);
    launch(plan, 0)
}

fn launch(plan: &Plan, i: usize) -> &Launch {
    match &plan.steps[i] {
        Step::Launch(launch) => launch,
        other => panic!("not a launch: {other:?}"),
    }
}

fn message<T>(outcome: Result<T, AegisError>) -> String {
    match outcome {
        Ok(_) => panic!("not refused"),
        Err(error) => error.message(),
    }
}

fn caches(rest: &[Arg]) -> Vec<Arg> {
    let mut args = vec![
        Arg::Buffer(Operand::KeyCache),
        Arg::Buffer(Operand::ValueCache),
        Arg::Buffer(Operand::Key),
        Arg::Buffer(Operand::Value),
    ];
    args.extend_from_slice(rest);
    args
}

fn rope() -> [Arg; 6] {
    [
        Arg::Scalar(Scalar::RopeTheta),
        Arg::Scalar(Scalar::RopeFactor),
        Arg::Scalar(Scalar::RopeLowFreqFactor),
        Arg::Scalar(Scalar::RopeHighFreqFactor),
        Arg::Scalar(Scalar::RopeOriginalMaxPositions),
        Arg::Scalar(Scalar::RopePartialDim),
    ]
}

fn dense(batch: usize, context_len: usize) -> DensePrefillMetadataProof {
    DensePrefillMetadataProof { start_position: context_len - batch, batch, context_len }
}

#[test]
fn one_token_is_stored_where_the_device_says() {
    let run = |key: usize, cache: usize| {
        runtime().store_kv_ptr_device(
            &halves(cache),
            &halves(5 * 300),
            &reals(key),
            &reals(400),
            &words(1),
            300,
            5,
        )
    };
    let plan = run(400, 1500).unwrap();
    let launch = only_launch(&plan);
    assert_eq!(launch.kernel, Kernel::KvStorePtr);
    assert_eq!(launch.stage, "launch kv_store_ptr");
    assert_eq!(
        launch.config,
        LaunchConfig { grid_dim: (2, 1, 1), block_dim: (256, 1, 1), shared_mem_bytes: 0 }
    );
    assert_eq!(launch.args, caches(&[Arg::Buffer(Operand::Position), Arg::U32(300)]));
    assert_eq!(message(run(299, 1500)), "kv_store_ptr vector shape mismatch");
    assert_eq!(
        message(run(300, 1499)),
        "kv_store_ptr cache shape mismatch: key_cache=1499 value_cache=1500 context=5 width=300"
    );
}

#[test]
fn eight_bit_tokens_need_vectors_of_their_width() {
    let run = |key: usize, cache: usize| {
        runtime().store_kv_fp8_ptr_device(
            &bytes(cache),
            &bytes(5 * 300),
            &reals(key),
            &reals(300),
            &words(1),
            300,
            5,
        )
    };
    let plan = run(300, 1500).unwrap();
    let launch = only_launch(&plan);
    assert_eq!(launch.kernel, Kernel::KvStoreFp8Ptr);
    assert_eq!(launch.stage, "launch kv_store_fp8_ptr");
    assert_eq!(launch.config.grid_dim, (2, 1, 1));
    assert_eq!(launch.args, caches(&[Arg::Buffer(Operand::Position), Arg::U32(300)]));
    assert_eq!(message(run(301, 1500)), "kv_store_fp8_ptr vector shape mismatch");
    assert_eq!(
        message(run(300, 1)),
        "kv_store_fp8_ptr cache shape mismatch: key=1 value=1500 context=5 width=300"
    );
}

#[test]
fn eight_bit_tokens_are_stored_at_their_position() {
    let run = |position, key: usize| {
        runtime().store_kv_fp8_device(
            &bytes(5 * 256),
            &bytes(5 * 256),
            &reals(key),
            &reals(256),
            position,
            256,
            5,
        )
    };
    let plan = run(4, 256).unwrap();
    let launch = only_launch(&plan);
    assert_eq!(launch.kernel, Kernel::KvStoreFp8);
    assert_eq!(launch.stage, "launch kv_store_fp8");
    assert_eq!(launch.config.grid_dim, (1, 1, 1));
    assert_eq!(launch.args, caches(&[Arg::U32(4), Arg::U32(256)]));
    assert_eq!(message(run(4, 257)), "kv_store_fp8 vector shape mismatch");
    assert_eq!(
        message(run(5, 256)),
        "kv_store_fp8 cache shape mismatch: pos=5 context=5 width=256"
    );
}

#[test]
fn batches_are_stored_from_their_first_position() {
    let half = |start, batch, key: usize| {
        runtime().store_kv_batched_device(
            &halves(8 * 257),
            &halves(8 * 257),
            &reals(key),
            &reals(3 * 257),
            start,
            batch,
            257,
            8,
        )
    };
    let plan = half(5, 3, 3 * 257).unwrap();
    let launch = only_launch(&plan);
    assert_eq!(launch.kernel, Kernel::KvStoreBatched);
    assert_eq!(launch.stage, "launch batched kv store");
    assert_eq!(launch.config.grid_dim, (2, 3, 1));
    assert_eq!(launch.args, caches(&[Arg::U32(5), Arg::U32(3), Arg::U32(257)]));
    assert_eq!(message(half(5, 3, 770)), "batched kv store vector shape mismatch");
    assert_eq!(
        message(half(6, 3, 771)),
        "batched kv cache shape mismatch: key_cache=2056 value_cache=2056 start=6 batch=3 \
         context=8 width=257"
    );
    assert_eq!(
        message(half(usize::MAX, 3, 771)),
        format!("CUDA KV batched end length overflow: {} + 3", usize::MAX)
    );
    let eight = |start, key: usize| {
        runtime().store_kv_fp8_batched_device(
            &bytes(8 * 257),
            &bytes(8 * 257),
            &reals(key),
            &reals(3 * 257),
            start,
            3,
            257,
            8,
        )
    };
    let plan = eight(0, 771).unwrap();
    let launch = only_launch(&plan);
    assert_eq!(launch.kernel, Kernel::KvStoreFp8Batched);
    assert_eq!(launch.stage, "launch kv_store_fp8_batched");
    assert_eq!(launch.config.grid_dim, (2, 3, 1));
    assert_eq!(launch.args, caches(&[Arg::U32(0), Arg::U32(3), Arg::U32(257)]));
    assert_eq!(message(eight(0, 0)), "kv_store_fp8_batched vector shape mismatch");
    assert_eq!(
        message(eight(6, 771)),
        "kv_store_fp8_batched cache mismatch: start=6 batch=3 context=8 width=257"
    );
}

#[test]
fn eight_bit_slots_need_matching_metadata() {
    let run = |key: usize, slots: usize, metadata| {
        runtime().store_kv_fp8_slots_batched_device(
            &bytes(8 * 64),
            &bytes(8 * 64),
            &reals(key),
            &reals(128),
            &words(slots),
            2,
            64,
            8,
            metadata,
        )
    };
    let plan = run(128, 2, dense(2, 8)).unwrap();
    let launch = only_launch(&plan);
    assert_eq!(launch.kernel, Kernel::KvStoreFp8SlotsBatched);
    assert_eq!(launch.stage, "launch kv_store_fp8_slots_batched");
    assert_eq!(launch.config.grid_dim, (1, 2, 1));
    assert_eq!(
        launch.args,
        caches(&[
            Arg::Buffer(Operand::SlotMapping),
            Arg::U32(2),
            Arg::U32(64),
            Arg::U32(8),
        ])
    );
    assert_eq!(
        message(run(128, 2, dense(2, 9))),
        "kv_store_fp8_slots: proof mismatch batch=2 ctx=8 proof_batch=2 proof_ctx=9"
    );
    assert_eq!(
        message(run(127, 2, dense(2, 8))),
        "kv_store_fp8_slots vector shape mismatch"
    );
    assert_eq!(
        message(run(128, 1, dense(2, 8))),
        "kv_store_fp8_slots cache mismatch: batch=2 context=8 width=64"
    );
}

#[test]
fn keys_are_rotated_as_they_are_stored() {
    let half = |heads, dim, key: usize, positions: usize, metadata| {
        runtime().store_kv_slots_batched_rope_key_device(
            &halves(8 * 640),
            &halves(8 * 640),
            &reals(key),
            &reals(1280),
            &words(positions),
            &words(2),
            2,
            heads,
            dim,
            8,
            metadata,
        )
    };
    let plan = half(2, 320, 1280, 2, dense(2, 8)).unwrap();
    let launch = only_launch(&plan);
    assert_eq!(launch.kernel, Kernel::RopeKvStoreSlotsBatched);
    assert_eq!(launch.stage, "launch slot-mapped roped batched kv store");
    assert_eq!(launch.config.grid_dim, (3, 2, 1));
    let mut rest = vec![
        Arg::Buffer(Operand::Positions),
        Arg::Buffer(Operand::SlotMapping),
        Arg::U32(2),
        Arg::U32(2),
        Arg::U32(320),
        Arg::U32(8),
    ];
    rest.extend_from_slice(&rope());
    assert_eq!(launch.args, caches(&rest));
    assert_eq!(
        message(half(2, 321, 1280, 2, dense(2, 8))),
        "slot-mapped roped kv store requires non-zero heads and even head_dim: heads=2 \
         head_dim=321"
    );
    assert_eq!(
        message(half(2, 320, 1280, 2, dense(3, 8))),
        "slot-mapped roped kv store requires matching dense identity proof: batch=2 context=8 \
         proof_batch=3 proof_context=8"
    );
    assert_eq!(
        message(half(2, 320, 1279, 2, dense(2, 8))),
        "slot-mapped roped kv store vector shape mismatch"
    );
    assert_eq!(
        message(half(2, 320, 1280, 1, dense(2, 8))),
        "slot-mapped roped kv cache shape mismatch: key_cache=5120 value_cache=5120 key=1280 \
         value=1280 positions=1 slots=2 batch=2 context=8 width=640"
    );
}

#[test]
fn eight_bit_keys_have_at_most_256_dimensions() {
    let run = |heads, dim, key: usize, positions: usize, metadata| {
        runtime().store_kv_fp8_slots_batched_rope_key_device(
            &bytes(8 * 512),
            &bytes(8 * 512),
            &reals(key),
            &reals(1024),
            &words(positions),
            &words(2),
            2,
            heads,
            dim,
            8,
            metadata,
        )
    };
    let plan = run(2, 256, 1024, 2, dense(2, 8)).unwrap();
    let launch = only_launch(&plan);
    assert_eq!(launch.kernel, Kernel::RopeKvStoreFp8SlotsBatched);
    assert_eq!(launch.stage, "launch rope_kv_store_fp8_slots_batched");
    assert_eq!(launch.config.grid_dim, (2, 2, 1));
    assert_eq!(launch.args[10..], rope());
    assert_eq!(
        message(run(1, 512, 1024, 2, dense(2, 8))),
        "fp8 roped kv: invalid heads=1 head_dim=512"
    );
    assert_eq!(
        message(run(2, 256, 1024, 2, dense(1, 8))),
        "fp8 roped kv: proof mismatch batch=2 ctx=8"
    );
    assert_eq!(
        message(run(2, 256, 1, 2, dense(2, 8))),
        "fp8 roped kv: vector shape mismatch"
    );
    assert_eq!(
        message(run(2, 256, 1024, 0, dense(2, 8))),
        "fp8 roped kv: cache shape mismatch context=8 width=512"
    );
}

#[test]
fn half_precision_slots_are_stored_batch_by_batch() {
    let run = |key: usize, slots: usize, metadata| {
        runtime().store_kv_slots_batched_device(
            &halves(8 * 64),
            &halves(8 * 64),
            &reals(key),
            &reals(128),
            &words(slots),
            2,
            64,
            8,
            metadata,
        )
    };
    let plan = run(128, 2, dense(2, 8)).unwrap();
    let launch = only_launch(&plan);
    assert_eq!(launch.kernel, Kernel::KvStoreSlotsBatched);
    assert_eq!(launch.stage, "launch slot-mapped batched kv store");
    assert_eq!(
        message(run(128, 2, dense(2, 9))),
        "slot-mapped kv store requires matching dense identity proof: batch=2 context=8 \
         proof_batch=2 proof_context=9"
    );
    assert_eq!(
        message(run(127, 2, dense(2, 8))),
        "slot-mapped kv store vector shape mismatch"
    );
    assert_eq!(
        message(run(128, 1, dense(2, 8))),
        "slot-mapped kv cache shape mismatch: key_cache=512 value_cache=512 slots=1 batch=2 \
         context=8 width=64"
    );
}

#[test]
fn blocking_writebacks_download_before_they_look_at_the_host() {
    let plan = runtime().writeback_kv_slot_device(1000, &halves(900), 3, 100).unwrap();
    assert_eq!(plan.steps.len(), 3);
    match &plan.steps[0] {
        Step::Copy { engine, from, stage, .. } => {
            assert_eq!(*engine, Engine::Compute);
            assert_eq!(*from, Region { operand: Operand::Staging, start: 300, end: 400 });
            assert_eq!(*stage, "kv d2h writeback");
        }
        other => panic!("not a download: {other:?}"),
    }
    assert!(matches!(plan.steps[1], Step::MapHost { stage: "mmap kv host for writeback" }));
    match &plan.steps[2] {
        Step::Copy { engine, to, .. } => {
            assert_eq!(*engine, Engine::Processor);
            assert_eq!(*to, Region { operand: Operand::Host, start: 300, end: 400 });
        }
        other => panic!("not a copy: {other:?}"),
    }
    let plan = runtime().writeback_kv_slot_device(399, &halves(900), 3, 100).unwrap();
    assert_eq!(plan.steps.len(), 3);
    match &plan.steps[2] {
        Step::Refuse(error) => assert_eq!(
            error.message(),
            "kv writeback host overflow: end=400 host_len=399"
        ),
        other => panic!("not refused: {other:?}"),
    }
    assert_eq!(
        message(runtime().writeback_kv_slot_device(1000, &halves(399), 3, 100)),
        "kv writeback staging overflow: end=400 staging_len=399"
    );
    assert_eq!(
        message(runtime().writeback_kv_slot_device(1, &halves(1), 1, usize::MAX)),
        format!("kv writeback end overflow: start={0} width={0}", usize::MAX)
    );
}

#[test]
fn blocking_batch_writebacks_name_what_overflows() {
    let run = |host, slot, batch, width| {
        runtime().writeback_kv_batch_device(host, &halves(900), slot, batch, width)
    };
    assert!(run(0, 7, 0, 9).unwrap().steps.is_empty());
    let plan = run(900, 7, 2, 100).unwrap();
    match &plan.steps[0] {
        Step::Copy { from, stage, .. } => {
            assert_eq!(*from, Region { operand: Operand::Staging, start: 700, end: 900 });
            assert_eq!(*stage, "kv batch d2h writeback");
        }
        other => panic!("not a download: {other:?}"),
    }
    assert_eq!(
        message(run(900, 8, 2, 100)),
        "kv batch writeback staging overflow: end=1000 staging_len=900"
    );
    assert_eq!(
        message(run(900, usize::MAX, 2, 2)),
        format!("kv batch writeback start overflow: slot={} width=2", usize::MAX)
    );
    assert_eq!(
        message(run(900, 0, usize::MAX, 2)),
        format!("kv batch writeback count overflow: batch={} width=2", usize::MAX)
    );
    assert_eq!(
        message(run(900, usize::MAX, 1, 1)),
        format!("kv batch writeback end overflow: start={} count=1", usize::MAX)
    );
}

#[test]
fn whole_buffers_are_downloaded() {
    let source = |end| Region { operand: Operand::Source, start: 0, end };
    let downloaded = |end| Region { operand: Operand::Downloaded, start: 0, end };
    let plan = runtime().download_u32(&words(7)).unwrap();
    match &plan.steps[0] {
        Step::Copy { from, to, stage, .. } => {
            assert_eq!((*from, *to, *stage), (source(7), downloaded(7), "dtoh u32 buffer"));
        }
        other => panic!("not a copy: {other:?}"),
    }
    let plan = runtime().download_u8(&bytes(9)).unwrap();
    match &plan.steps[0] {
        Step::Copy { from, to, stage, .. } => {
            assert_eq!((*from, *to, *stage), (source(9), downloaded(9), "dtoh u8 buffer"));
        }
        other => panic!("not a copy: {other:?}"),
    }
    let plan = runtime().copy_u32_to_device(&[1, 2, 3], &words(5)).unwrap();
    match &plan.steps[0] {
        Step::Copy { from, to, stage, .. } => {
            assert_eq!(*from, Region { operand: Operand::Host, start: 0, end: 3 });
            assert_eq!(*to, Region { operand: Operand::Destination, start: 0, end: 3 });
            assert_eq!(*stage, "htod u32 buffer");
        }
        other => panic!("not a copy: {other:?}"),
    }
}

fn attended(seq_len: Arg, heads: u32, kv_heads: u32, dim: u32, window: u32) -> Vec<Arg> {
    vec![
        Arg::Buffer(Operand::KeyCache),
        Arg::Buffer(Operand::ValueCache),
        Arg::Buffer(Operand::Query),
        seq_len,
        Arg::U32(heads),
        Arg::U32(kv_heads),
        Arg::U32(dim),
        Arg::U32(window),
        Arg::Buffer(Operand::Output),
    ]
}

#[test]
fn long_sequences_are_streamed() {
    let run = |seq_len, cache: usize, query: usize, kv_heads| {
        runtime().attention_decode_device(
            &halves(cache),
            &halves(13000 * 128),
            &reals(query),
            seq_len,
            8,
            kv_heads,
            64,
            77,
            &reals(512),
        )
    };
    let plan = run(12160, 13000 * 128, 512, 2).unwrap();
    let launch = only_launch(&plan);
    assert_eq!(launch.kernel, Kernel::Attention);
    assert_eq!(launch.stage, "launch attention decode");
    assert_eq!(
        launch.config,
        LaunchConfig { grid_dim: (8, 1, 1), block_dim: (128, 1, 1), shared_mem_bytes: 49152 }
    );
    assert_eq!(launch.args, attended(Arg::U32(12160), 8, 2, 64, 77));
    let plan = run(12161, 13000 * 128, 512, 2).unwrap();
    let launch = only_launch(&plan);
    assert_eq!(launch.kernel, Kernel::AttentionDecodeStreaming);
    assert_eq!(launch.config.shared_mem_bytes, (128 + 64 + 3) * 4);
    assert_eq!(
        message(run(1, 13000 * 128, 512, 0)),
        "attention dimensions must be non-zero: q_heads=8 kv_heads=0 head_dim=64"
    );
    assert_eq!(
        message(run(1, 13000 * 128, 511, 2)),
        "attention query/output shape mismatch"
    );
    assert_eq!(
        message(run(0, 13000 * 128, 512, 2)),
        "attention kv shape mismatch: seq_len=0 kv_width=128 key_cache=1664000 \
         value_cache=1664000"
    );
    assert_eq!(
        message(run(2, 255, 512, 2)),
        "attention kv shape mismatch: seq_len=2 kv_width=128 key_cache=255 value_cache=1664000"
    );
    assert_eq!(
        message(run(1, 13000 * 128, 512, 3)),
        "attention heads must be divisible by kv heads"
    );
}

#[test]
fn long_eight_bit_sequences_are_streamed() {
    let run = |seq_len, query: usize, kv_heads| {
        runtime().attention_decode_fp8_device(
            &bytes(13000 * 128),
            &bytes(13000 * 128),
            &reals(query),
            seq_len,
            8,
            kv_heads,
            64,
            0,
            &reals(512),
        )
    };
    let plan = run(100, 512, 2).unwrap();
    let launch = only_launch(&plan);
    assert_eq!(launch.kernel, Kernel::AttentionDecodeFp8);
    assert_eq!(launch.stage, "launch attention_decode_fp8");
    assert_eq!(launch.config.shared_mem_bytes, (100 + 128) * 4);
    assert_eq!(launch.args, attended(Arg::U32(100), 8, 2, 64, 0));
    let plan = run(12161, 512, 2).unwrap();
    let launch = only_launch(&plan);
    assert_eq!(launch.kernel, Kernel::AttentionDecodeStreamingFp8);
    assert_eq!(launch.stage, "launch attention_decode_fp8");
    assert_eq!(
        message(run(1, 512, 0)),
        "attention_fp8 dimensions non-zero required q_heads=8 kv_heads=0 head_dim=64"
    );
    assert_eq!(message(run(1, 1, 2)), "attention_fp8 query/output shape mismatch");
    assert_eq!(
        message(run(0, 512, 2)),
        "attention_fp8 cache shape mismatch: seq=0 kv_width=128 key=1664000 value=1664000"
    );
    assert_eq!(message(run(1, 512, 3)), "attention_fp8 heads not divisible by kv heads");
}

#[test]
fn eight_bit_decode_reads_its_length_from_the_device() {
    let run = |query: usize, kv_heads| {
        runtime().attention_decode_ptr_fp8_device(
            &bytes(4096),
            &bytes(4096),
            &reals(query),
            &words(1),
            8,
            kv_heads,
            64,
            5,
            &reals(512),
        )
    };
    let plan = run(512, 2).unwrap();
    let launch = only_launch(&plan);
    assert_eq!(launch.kernel, Kernel::AttentionDecodePtrFp8);
    assert_eq!(launch.stage, "launch attention_decode_ptr_fp8");
    assert_eq!(launch.config.shared_mem_bytes, 33280);
    assert_eq!(launch.args, attended(Arg::Buffer(Operand::SeqLen), 8, 2, 64, 5));
    assert_eq!(
        message(run(512, 0)),
        "attention_ptr_fp8: non-zero dims required q_heads=8 kv_heads=0 head_dim=64"
    );
    assert_eq!(message(run(0, 2)), "attention_ptr_fp8 query/output shape mismatch");
    assert_eq!(message(run(512, 5)), "attention_ptr_fp8 heads not divisible by kv heads");
}

#[test]
fn eight_bit_split_decode_shares_the_combining_kernel() {
    let run = |query: usize, kv_heads, hint, m: usize| {
        runtime().attention_decode_split_ptr_fp8_device(
            &bytes(2 * 64 * 1000 + 127),
            &bytes(2 * 64 * 1000),
            &reals(query),
            &words(1),
            8,
            kv_heads,
            64,
            9,
            hint,
            &reals(8192),
            &reals(m),
            &reals(128),
            &reals(512),
        )
    };
    let plan = run(512, 2, 8208, 128).unwrap();
    assert_eq!(plan.steps.len(), 2);
    let split = launch(&plan, 0);
    assert_eq!(split.kernel, Kernel::AttentionDecodePtrSplitFp8);
    assert_eq!(split.stage, "launch attention_decode_ptr_split_fp8");
    assert_eq!(split.config.shared_mem_bytes, (513 + 4 + 256) * 4);
    assert_eq!(
        split.args,
        vec![
            Arg::Buffer(Operand::KeyCache),
            Arg::Buffer(Operand::ValueCache),
            Arg::Buffer(Operand::Query),
            Arg::Buffer(Operand::SeqLen),
            Arg::U32(8),
            Arg::U32(2),
            Arg::U32(64),
            Arg::U32(16),
            Arg::U32(513),
            Arg::U32(9),
            Arg::U32(1000),
            Arg::Buffer(Operand::SplitAcc),
            Arg::Buffer(Operand::SplitM),
            Arg::Buffer(Operand::SplitL),
        ]
    );
    let combine = launch(&plan, 1);
    assert_eq!(combine.kernel, Kernel::AttentionDecodePtrCombine);
    assert_eq!(combine.stage, "launch attention_decode_ptr_combine (fp8)");
    assert_eq!(combine.config.grid_dim, (8, 1, 1));
    assert_eq!(
        message(run(512, 0, 1, 128)),
        "attention_split_fp8: non-zero dims required q_heads=8 kv_heads=0 head_dim=64"
    );
    assert_eq!(
        message(run(511, 2, 1, 128)),
        "attention_split_fp8 query/output shape mismatch"
    );
    assert_eq!(
        message(run(512, 2, 1, 127)),
        "attention_split_fp8 partial buffers too small: acc=8192 m=127 l=128 req_acc=8192 \
         req_ml=128"
    );
    assert_eq!(
        message(run(512, 3, 1, 128)),
        "attention_split_fp8 heads not divisible by kv heads"
    );
    assert!(run(512, 2, 16 * 24316, 128).is_ok());
    assert!(run(512, 2, 16 * 24316 + 1, 128).is_err());
}

fn transfer(plan: &Plan) -> (Engine, Region, Region, &'static str) {
    match plan.steps.last() {
        Some(Step::Copy { engine, from, to, stage }) => (*engine, *from, *to, *stage),
        other => panic!("not a copy: {other:?}"),
    }
}

fn region(operand: Operand, start: usize, end: usize) -> Region {
    Region { operand, start, end }
}

#[test]
fn slices_are_uploaded_to_the_front() {
    let runtime = runtime();
    let host = region(Operand::Host, 0, 3);
    let front = region(Operand::Destination, 0, 3);
    assert_eq!(
        transfer(&runtime.upload_f32_slice_to_device(3, &reals(4)).unwrap()),
        (Engine::Compute, host, front, "htod f32 slice")
    );
    assert_eq!(
        transfer(&runtime.upload_u32_slice_to_device(&[1, 2, 3], &words(4)).unwrap()),
        (Engine::Compute, host, front, "htod u32 slice")
    );
    assert_eq!(
        transfer(&runtime.upload_u8_slice_to_device(&[1, 2, 3], &bytes(4)).unwrap()),
        (Engine::Compute, host, front, "htod u8 slice")
    );
    assert_eq!(
        transfer(&runtime.upload_u32_slice_to_device_async(&[1, 2, 3], &words(3)).unwrap()),
        (Engine::Transfer, host, front, "htod u32 transfer-stream")
    );
    assert_eq!(
        transfer(&runtime.upload_f32_slice_to_device_async(3, &reals(3)).unwrap()),
        (Engine::Transfer, host, front, "htod f32 transfer-stream")
    );
    assert!(runtime.upload_f32_slice_to_device(0, &reals(0)).unwrap().steps.is_empty());
    assert_eq!(
        message(runtime.upload_f32_slice_to_device(3, &reals(2))),
        "upload_f32_slice_to_device buffer too small: have 2, need 3"
    );
    assert_eq!(
        message(runtime.upload_u8_slice_to_device(&[1, 2], &bytes(1))),
        "upload_u8_slice_to_device buffer too small: have 1, need 2"
    );
    assert_eq!(
        message(runtime.upload_u32_slice_to_device_async(&[1, 2], &words(1))),
        "upload_u32_slice_to_device_async buffer too small: have 1 need 2"
    );
    assert_eq!(
        message(runtime.upload_f32_slice_to_device_async(2, &reals(1))),
        "upload_f32_slice_to_device_async buffer too small: have 1 need 2"
    );
}

#[test]
fn ranges_are_copied_within_bounds() {
    let runtime = runtime();
    assert_eq!(
        transfer(&runtime.copy_f32_d2d_range(&reals(10), 4, &reals(8), 2, 6).unwrap()),
        (
            Engine::Compute,
            region(Operand::Source, 4, 10),
            region(Operand::Destination, 2, 8),
            "d2d f32 range"
        )
    );
    assert_eq!(
        message(runtime.copy_f32_d2d_range(&reals(10), usize::MAX, &reals(8), 2, 6)),
        format!(
            "copy_f32_d2d_range out of bounds: src.len=10 src_off={} dst.len=8 dst_off=2 len=6",
            usize::MAX
        )
    );
    assert!(runtime.copy_f32_d2d_range(&reals(0), 9, &reals(0), 9, 0).unwrap().steps.is_empty());
    assert_eq!(
        transfer(
            &runtime.copy_host_u8_to_device_at_offset_async(&[1, 2], &bytes(9), 7).unwrap()
        ),
        (
            Engine::Transfer,
            region(Operand::Host, 0, 2),
            region(Operand::Destination, 7, 9),
            "h2d u8 transfer-stream"
        )
    );
    assert_eq!(
        message(runtime.copy_host_u8_to_device_at_offset_async(&[1, 2], &bytes(9), 8)),
        "copy_host_u8_to_device_at_offset_async out of bounds: dst.len=9 dst_off=8 src.len=2"
    );
}

#[test]
fn page_locked_memory_is_held_to_its_length() {
    let runtime = runtime();
    let plan = runtime.copy_pinned_u8_to_device(10, 8, &bytes(9)).unwrap();
    assert!(matches!(plan.steps[0], Step::MapHost { stage: "pinned u8 as_slice" }));
    assert_eq!(
        transfer(&plan),
        (
            Engine::Compute,
            region(Operand::Host, 0, 8),
            region(Operand::Destination, 0, 8),
            "h2d pinned u8"
        )
    );
    let plan = runtime.copy_pinned_u8_to_device(7, 8, &bytes(9)).unwrap();
    match plan.steps.last() {
        Some(Step::Refuse(error)) => assert_eq!(
            error.message(),
            "copy_pinned_u8_to_device src too small: have 7 need 8"
        ),
        other => panic!("not refused: {other:?}"),
    }
    assert_eq!(
        message(runtime.copy_pinned_u8_to_device(10, 8, &bytes(7))),
        "copy_pinned_u8_to_device dst too small: have 7 need 8"
    );
    assert_eq!(
        transfer(&runtime.download_u32_to_pinned_async(&words(9), 8, 8).unwrap()),
        (
            Engine::Transfer,
            region(Operand::Source, 0, 8),
            region(Operand::Host, 0, 8),
            "d2h u32 packed topk async"
        )
    );
    assert_eq!(
        message(runtime.download_u32_to_pinned_async(&words(9), 7, 8)),
        "download_u32_to_pinned_async out of bounds: src=9 dst=7 count=8"
    );
    assert_eq!(
        transfer(&runtime.download_f32(&reals(5)).unwrap()).3,
        "dtoh f32 buffer"
    );
}
