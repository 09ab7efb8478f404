# aegisllm-cuda

The decisions of a CUDA runtime for large language models, verified with Verus: which
kernel serves a request, with which geometry and arguments, which bytes are copied where,
how weights are read, placed and repacked, and with which message a request is refused.

The library never talks to a device. Each `..._device` method of `CudaRuntime` answers with
a `Plan`, the steps that have to be carried out in order, or with the error that refuses the
request; its contract gives the plan for every input. The program around the library binds
the operands of a plan to memory and carries the steps out.

## Layout

- `src/launch.rs`: plans, launches and their operands.
- `src/error.rs`, `src/text.rs`: refusals and the text they are reported with.
- `src/functions.rs`: the kernels, their symbols and their shared-memory limits.
- `src/compile.rs`, `src/config.rs`, `src/types.rs`: compilation settings, runtime settings
  and what layers, caches and requests consist of.
- `src/runtime/`: attention, caches, linear layers, expert layers, transfers, graphs, and the
  reference arithmetic that kernels are compared with.
- `src/loader/`: reading, placing and repacking weights.
- `src/host_arena.rs`, `src/owned_pinned.rs`, `src/registered_shards.rs`,
  `src/expert_cache.rs`: host and device memory that is handed out in parts.
- `src/laws.rs`: what holds of plans as a whole, such as that no copy leaves its buffers. Laws
  of one module stand in that module.
- `tests/`: the library run on concrete values.
- `app/`: the driver, the file system and floating-point arithmetic around the library.

Real numbers appear in the library as their bits, or as operands that only the caller knows.
