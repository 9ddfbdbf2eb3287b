# cuda_oxide

A verified library that builds and loads CUDA kernels which come as NVVM IR, and
that checks the warp-level matrix operations of the NVVM dialect.

A kernel that uses float math intrinsics is emitted as NVVM IR rather than as
PTX. libNVVM compiles it, with libdevice, to LTOIR; nvJitLink links the LTOIR to
a cubin, or to PTX for a newer GPU; the CUDA driver loads the result. The library
decides every step of this: which artifact of a kernel is taken, for which target
it was emitted, whether it can run on the GPU at hand, what the toolkit is asked
and with which options, and which error is reported.

- `src/` holds the decisions, as jobs that name the outside work they wait for
  and go on with the reply. Verus proves what each step does, and what whole runs
  come to.
- `app/` performs the outside work: files, the environment, the CUDA toolkit and
  driver, and the traits of the compiler framework that the dialect lives in.
  It needs two toolkit bindings that Cargo.toml does not name, because they are
  not on crates.io: `libnvvm_sys` and `nvjitlink_sys`.
- `tests/` runs the jobs against a world in memory.

Paths are texts in the library. `app/` shows it a path that is not UTF-8 under a
text that stands for it.
