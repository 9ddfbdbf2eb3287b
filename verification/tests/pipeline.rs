//! Builds, lookups and loads against a world in memory.

use cuda_oxide::arch::CudaArch;
use cuda_oxide::error::LtoirError;
use cuda_oxide::load::{load_kernel_module, Load, LoadStage};
use cuda_oxide::paths::{artifact_path, emitted_target_path, manifest_dir, sibling_path};
use cuda_oxide::pipeline::{
    build_cubin_from_ll, build_cubin_from_nvvm_ir, build_ptx_from_nvvm_ir, link_ltoir_to_cubin,
    link_ltoir_to_ptx, Build, Built,
};
use cuda_oxide::request::{Reply, Request};
use cuda_oxide::route::{execution_route, select_file_artifact, ExecutionRoute, FileArtifact};
use cuda_oxide::target::{
    artifact_target_sidecar, execution_target_text, recorded_target_text, resolve_source_target,
    target_arch, target_arch_for_artifact, validate_ir_target_sidecar, LookupStage, TargetLookup,
};
use std::collections::BTreeMap;

/// Parses `sm_<number>[suffix]` and `compute_<number>[suffix]`.
fn parse(text: &str) -> Result<CudaArch, String> {
    let rest = match text.strip_prefix("sm_") {
        Some(rest) => rest,
        None => match text.strip_prefix("compute_") {
            Some(rest) => rest,
            None => return Err(format!("not a target: {}", text)),
        },
    };
    let digits: String = rest.chars().take_while(|c| c.is_ascii_digit()).collect();
    let capability: u32 = match digits.parse() {
        Ok(number) => number,
        Err(_) => return Err(format!("not a target: {}", text)),
    };
    let tail: Vec<char> = rest.chars().skip(digits.len()).collect();
    let suffix = match tail.len() {
        0 => None,
        1 => Some(tail[0]),
        _ => return Err(format!("not a target: {}", text)),
    };
    Ok(CudaArch {
        sm: format!("sm_{}", rest),
        compute: format!("compute_{}", rest),
        capability,
        suffix,
        legacy_llvm: capability < 100,
    })
}

fn arch(text: &str) -> CudaArch {
    parse(text).unwrap()
}

/// A file system, an environment, a toolkit and a GPU.
struct World {
    files: BTreeMap<String, Vec<u8>>,
    variable: Option<String>,
    libdevice: Result<String, String>,
    ir_version: (i32, i32),
    llvm_version: Option<i32>,
    capability: Result<(i32, i32), String>,
    /// A request whose line begins so fails.
    failing: Option<String>,
    log: Vec<String>,
}

fn world() -> World {
    let mut files = BTreeMap::new();
    files.insert("cuda/libdevice.10.bc".to_string(), b"libdevice".to_vec());
    World {
        files,
        variable: None,
        libdevice: Ok("cuda/libdevice.10.bc".to_string()),
        ir_version: (2, 0),
        llvm_version: None,
        capability: Ok((8, 6)),
        failing: None,
        log: Vec::new(),
    }
}

fn world_with(files: &[(&str, &str)]) -> World {
    let mut world = world();
    for (path, contents) in files {
        world.files.insert(path.to_string(), contents.as_bytes().to_vec());
    }
    world
}

impl World {
    fn text(&self, path: &str) -> Option<String> {
        self.files.get(path).map(|bytes| String::from_utf8(bytes.clone()).unwrap())
    }

    fn asked(&self, start: &str) -> bool {
        self.log.iter().any(|line| line.starts_with(start))
    }

    fn refuses(&mut self, line: String) -> Option<String> {
        let refused = match &self.failing {
            Some(start) => line.starts_with(start.as_str()),
            None => false,
        };
        self.log.push(line);
        if refused {
            Some("refused".to_string())
        } else {
            None
        }
    }

    fn finish(&mut self, line: String) -> Reply {
        Reply::Finished(match self.refuses(line) {
            Some(why) => Err(why),
            None => Ok(()),
        })
    }

    fn produce(&mut self, line: String, bytes: &str) -> Reply {
        Reply::Bytes(match self.refuses(line) {
            Some(why) => Err(why),
            None => Ok(bytes.as_bytes().to_vec()),
        })
    }

    fn answer(&mut self, request: Request<'_>) -> Reply {
        match request {
            Request::ParseTarget { text } => {
                self.log.push(format!("parse {}", text));
                Reply::Target(parse(text))
            }
            Request::ReadVariable { name } => {
                self.log.push(format!("variable {}", name));
                Reply::Variable(self.variable.clone())
            }
            Request::TryExists { path } => {
                let refusal = self.refuses(format!("probe {}", path));
                Reply::Probed(match refusal {
                    Some(why) => Err(why),
                    None => Ok(self.files.contains_key(path)),
                })
            }
            Request::Exists { path } => {
                self.log.push(format!("exists {}", path));
                Reply::Exists(self.files.contains_key(path))
            }
            Request::ReadFile { path } => {
                self.log.push(format!("read {}", path));
                Reply::Bytes(match self.files.get(path) {
                    Some(bytes) => Ok(bytes.clone()),
                    None => Err("no such file".to_string()),
                })
            }
            Request::ReadText { path } => {
                let refusal = self.refuses(format!("text {}", path));
                Reply::Text(match refusal {
                    Some(why) => Err(why),
                    None => Ok(self.text(path)),
                })
            }
            Request::WriteText { path, text } => {
                let reply = self.finish(format!("write {}", path));
                if let Reply::Finished(Ok(())) = &reply {
                    self.files.insert(path.to_string(), text.as_bytes().to_vec());
                }
                reply
            }
            Request::WriteFile { path, contents } => {
                let reply = self.finish(format!("write {}", path));
                if let Reply::Finished(Ok(())) = &reply {
                    self.files.insert(path.to_string(), contents.clone());
                }
                reply
            }
            Request::FindLibdevice => {
                self.log.push("find libdevice".to_string());
                Reply::Libdevice(self.libdevice.clone())
            }
            Request::LoadNvvm => self.finish("load nvvm".to_string()),
            Request::IrVersion => {
                let refusal = self.refuses("ir version".to_string());
                Reply::IrVersion(match refusal {
                    Some(why) => Err(why),
                    None => Ok(self.ir_version),
                })
            }
            Request::LlvmVersion { arch } => {
                let refusal = self.refuses(format!("llvm version {}", arch.compute));
                Reply::LlvmVersion(match refusal {
                    Some(why) => Err(why),
                    None => Ok(self.llvm_version),
                })
            }
            Request::NewProgram => self.finish("new program".to_string()),
            Request::AddModule { contents, name } => {
                let text = String::from_utf8(contents.clone()).unwrap();
                self.finish(format!("add module {}: {}", name, text))
            }
            Request::VerifyProgram { options } => {
                self.finish(format!("verify {}", options.join(" ")))
            }
            Request::CompileProgram { options } => {
                self.produce(format!("compile {}", options.join(" ")), "the ltoir")
            }
            Request::LoadNvJitLink => self.finish("load nvjitlink".to_string()),
            Request::NewLinker { options } => {
                self.finish(format!("new linker {}", options.join(" ")))
            }
            Request::AddLtoir { contents, name } => {
                let text = String::from_utf8(contents.clone()).unwrap();
                self.finish(format!("add ltoir {}: {}", name, text))
            }
            Request::FinishCubin => self.produce("finish cubin".to_string(), "the cubin"),
            Request::FinishPtx => self.produce("finish ptx".to_string(), "the ptx"),
            Request::ComputeCapability => {
                self.log.push("capability".to_string());
                Reply::Capability(self.capability.clone())
            }
            Request::LoadModuleFile { path } => self.finish(format!("load file {}", path)),
            Request::LoadModuleImage { image } => {
                let text = String::from_utf8(image.clone()).unwrap();
                self.finish(format!("load image {}", text))
            }
        }
    }

    fn build(&mut self, mut build: Build) -> Result<Built, LtoirError> {
        loop {
            let reply = match build.request() {
                Some(request) => self.answer(request),
                None => break,
            };
            build = build.resume(reply);
        }
        match build {
            Build::Done(result) => result,
            _ => panic!("a build that waits for nothing has ended"),
        }
    }

    fn look_up(&mut self, mut lookup: TargetLookup) -> Result<CudaArch, LtoirError> {
        loop {
            let reply = match lookup.request() {
                Some(request) => self.answer(request),
                None => break,
            };
            lookup = lookup.resume(reply);
        }
        match lookup.stage {
            LookupStage::Done(result) => result,
            _ => panic!("a lookup that waits for nothing has ended"),
        }
    }

    fn load(&mut self, mut load: Load) -> Result<(), LtoirError> {
        loop {
            let reply = match load.request() {
                Some(request) => self.answer(request),
                None => break,
            };
            load = load.resume(reply);
        }
        match load.stage {
            LoadStage::Done(result) => result,
            _ => panic!("a load that waits for nothing has ended"),
        }
    }
}

#[test]
fn recorded_target_takes_precedence_over_environment() {
    let mut world = world_with(&[("dir/kernel.ll", "; test\n"), ("dir/kernel.target", "compute_86\n")]);

    let recorded = recorded_target_text(&world.text("dir/kernel.target").unwrap());
    let emitted = parse(&recorded).unwrap();
    assert_eq!(emitted.sm, "sm_86");
    world.variable = Some("sm_120".to_string());
    assert_eq!(
        world.look_up(target_arch_for_artifact("dir/kernel.ll")).unwrap().sm,
        "sm_86",
        "the recorded target must take precedence"
    );
    validate_ir_target_sidecar("dir/kernel.ll", Some(&emitted), &arch("sm_86")).unwrap();

    let mismatch = validate_ir_target_sidecar("dir/kernel.ll", Some(&emitted), &arch("sm_120"))
        .expect_err("cross-target reuse must fail");
    assert!(matches!(mismatch, LtoirError::TargetMismatch { .. }));
    assert_eq!(
        mismatch.message(),
        "NVVM IR target mismatch: dir/kernel.ll was emitted for sm_86, but the loader requested sm_120"
    );
}

#[test]
fn artifact_without_target_requires_explicit_target() {
    let mut world = world_with(&[("dir/kernel.ll", "; target-specific NVVM IR\n")]);

    let error = world
        .look_up(target_arch_for_artifact("dir/kernel.ll"))
        .expect_err("the original build target is required");
    assert!(matches!(error, LtoirError::TargetNotFound));

    world.variable = Some("compute_86".to_string());
    let asserted = world.look_up(target_arch_for_artifact("dir/kernel.ll")).unwrap();
    assert_eq!(asserted.sm, "sm_86");
}

#[test]
fn explicit_build_target_is_recorded_for_sibling_ltoir() {
    let mut world = world_with(&[("dir/kernel.ll", "; manually supplied NVVM IR\n")]);

    validate_ir_target_sidecar("dir/kernel.ll", None, &arch("compute_86")).unwrap();
    world.build(build_cubin_from_ll("dir/kernel.ll", "compute_86")).unwrap();

    assert_eq!(world.text("dir/kernel.target").unwrap(), "sm_86\n");
    world.files.insert("dir/kernel.ltoir".to_string(), b"placeholder".to_vec());
    world.files.remove("dir/kernel.ll");
    assert_eq!(
        world.look_up(target_arch_for_artifact("dir/kernel.ltoir")).unwrap().sm,
        "sm_86"
    );
}

#[test]
fn recorded_nvvm_output_takes_precedence_over_stale_ptx() {
    assert_eq!(
        select_file_artifact(true, true, false, true, true),
        Some(FileArtifact::NvvmIr)
    );
    assert_eq!(
        select_file_artifact(true, false, true, true, true),
        Some(FileArtifact::Ltoir)
    );
    assert_eq!(
        select_file_artifact(true, false, false, true, true),
        None,
        "a missing NVVM artifact must not fall back to older output"
    );

    // In an ordinary PTX build there is also an LLVM `.ll`, but no NVVM
    // target sidecar. PTX is therefore the current loadable artifact.
    assert_eq!(
        select_file_artifact(true, true, false, true, false),
        Some(FileArtifact::Ptx)
    );
}

#[test]
fn file_artifact_selection_accepts_older_unrecorded_nvvm_output() {
    assert_eq!(
        select_file_artifact(false, true, false, true, false),
        Some(FileArtifact::NvvmIr)
    );
    assert_eq!(
        select_file_artifact(false, false, true, true, false),
        Some(FileArtifact::Ltoir)
    );
    assert_eq!(
        select_file_artifact(false, false, false, true, false),
        Some(FileArtifact::Cubin)
    );
    assert_eq!(select_file_artifact(false, false, false, false, false), None);
}

#[test]
fn missing_ll_cannot_reuse_old_cubin_or_publish_target() {
    let mut world = world_with(&[("dir/kernel.cubin", "old cubin")]);

    let error = world
        .build(build_cubin_from_ll("dir/kernel.ll", "sm_86"))
        .expect_err("a derived cubin is invalid without its source NVVM IR");
    assert!(matches!(error, LtoirError::Io { path, .. } if path == "dir/kernel.ll"));
    assert!(
        !world.files.contains_key("dir/kernel.target"),
        "a missing source must not gain target metadata"
    );
    assert_eq!(world.text("dir/kernel.cubin").unwrap(), "old cubin");
    assert!(!world.asked("write"));
}

#[test]
fn invalid_link_target_fails_before_loading_nvidia_libraries() {
    let mut world = world();
    let error = world.build(link_ltoir_to_cubin(Vec::new(), "empty", "nvvm-ir")).unwrap_err();
    assert!(matches!(error, LtoirError::InvalidTarget(_)));

    let error = world.build(link_ltoir_to_ptx(Vec::new(), "empty", "nvvm-ir")).unwrap_err();
    assert!(matches!(error, LtoirError::InvalidTarget(_)));
    assert_eq!(error.message(), "not a target: nvvm-ir");
    assert_eq!(world.log, vec!["parse nvvm-ir", "parse nvvm-ir"]);
}

#[test]
fn same_target_keeps_native_cubin_route() {
    for (emitted, execution) in [
        ("sm_86", "sm_86"),
        ("compute_120", "sm_120"),
        // The suffix is preserved in the nvJitLink target. The CUDA driver
        // remains responsible for accepting it on this same numeric device
        // architecture.
        ("sm_90a", "sm_90"),
    ] {
        assert_eq!(
            execution_route(&arch(emitted), &arch(execution)).unwrap(),
            ExecutionRoute::Cubin,
            "{emitted} on {execution}"
        );
    }
}

#[test]
fn standard_legacy_target_bridges_forward_to_blackwell_as_ptx() {
    for (emitted, execution) in [
        ("sm_75", "sm_100"),
        ("compute_86", "sm_120"),
        ("sm_90", "sm_120"),
    ] {
        assert_eq!(
            execution_route(&arch(emitted), &arch(execution)).unwrap(),
            ExecutionRoute::PtxBridge,
            "{emitted} on {execution}"
        );
    }
}

#[test]
fn ptx_bridge_rejects_suffixed_and_unsupported_forward_targets() {
    for (emitted, execution) in [
        ("sm_90a", "sm_120"),
        ("sm_90f", "sm_120"),
        ("sm_86", "sm_90"),
        ("sm_100", "sm_120"),
    ] {
        let error = execution_route(&arch(emitted), &arch(execution))
            .expect_err("cross-target route must be explicitly supported");
        assert!(
            matches!(error, LtoirError::IncompatibleExecutionTarget { .. }),
            "{} on {}: {}",
            emitted,
            execution,
            error.message()
        );
    }
}

#[test]
fn execution_route_rejects_backward_targets() {
    let error = execution_route(&arch("sm_120"), &arch("sm_86"))
        .expect_err("a newer artifact cannot run on an older GPU");

    let LtoirError::IncompatibleExecutionTarget { emitted, execution, reason } = error else {
        panic!("unexpected error");
    };
    assert_eq!(emitted, "sm_120");
    assert_eq!(execution, "sm_86");
    assert!(reason.contains("newer GPU"));
}

#[test]
fn route_reasons_are_told_apart() {
    let reason = |emitted: &str, execution: &str| {
        execution_route(&arch(emitted), &arch(execution)).unwrap_err().message()
    };
    assert_eq!(
        reason("sm_90a", "sm_86"),
        "cannot execute CUDA artifact emitted for sm_90a on sm_86: targets with an architecture \
         suffix, such as sm_90a, cannot be forwarded to a different GPU"
    );
    assert_eq!(
        reason("sm_90", "sm_86"),
        "cannot execute CUDA artifact emitted for sm_90 on sm_86: an artifact built for a newer \
         GPU cannot run on an older GPU"
    );
    assert_eq!(
        reason("sm_86", "sm_90"),
        "cannot execute CUDA artifact emitted for sm_86 on sm_90: only standard pre-Blackwell \
         targets, such as sm_86, can be converted to PTX for Blackwell"
    );
}

#[test]
fn file_build_runs_the_whole_pipeline_in_order() {
    let mut world = world_with(&[("dir/k.ll", "the ir"), ("dir/k.cubin", "old"), ("dir/k.ltoir", "old")]);
    let built = world.build(build_cubin_from_ll("dir/k.ll", "compute_86")).unwrap();
    assert_eq!(built, Built::File("dir/k.cubin".to_string()));
    assert_eq!(world.text("dir/k.target").unwrap(), "sm_86\n");
    assert_eq!(world.text("dir/k.ltoir").unwrap(), "the ltoir");
    assert_eq!(world.text("dir/k.cubin").unwrap(), "the cubin");
    assert_eq!(
        world.log,
        vec![
            "parse compute_86",
            "read dir/k.ll",
            "text dir/k.target",
            "write dir/k.target",
            "find libdevice",
            "read cuda/libdevice.10.bc",
            "load nvvm",
            "ir version",
            "llvm version compute_86",
            "new program",
            "add module libdevice.10.bc: libdevice",
            "add module dir/k.ll: the ir",
            "verify -arch=compute_86",
            "compile -arch=compute_86 -gen-lto",
            "write dir/k.ltoir",
            "load nvjitlink",
            "new linker -arch=sm_86 -lto",
            "add ltoir dir/k.ltoir: the ltoir",
            "finish cubin",
            "write dir/k.cubin",
        ]
    );
}

#[test]
fn file_build_refuses_another_recorded_target() {
    let mut world = world_with(&[("k.ll", "the ir"), ("k.target", " sm_90a \n")]);
    let error = world.build(build_cubin_from_ll("k.ll", "sm_90")).unwrap_err();
    assert_eq!(
        error,
        LtoirError::TargetMismatch {
            ir_path: "k.ll".to_string(),
            emitted: "sm_90a".to_string(),
            requested: "sm_90".to_string(),
        }
    );
    assert!(!world.asked("write"));
    assert!(!world.asked("load"));

    // The same target by its other name is no other target.
    let built = world.build(build_cubin_from_ll("k.ll", "compute_90a")).unwrap();
    assert_eq!(built, Built::File("k.cubin".to_string()));
}

#[test]
fn file_build_reports_a_bad_record() {
    let mut world = world_with(&[("k.ll", "the ir"), ("k.target", "nvvm-ir\n")]);
    let error = world.build(build_cubin_from_ll("k.ll", "sm_90")).unwrap_err();
    assert_eq!(error, LtoirError::InvalidTarget("not a target: nvvm-ir".to_string()));

    world.failing = Some("text k.target".to_string());
    let error = world.build(build_cubin_from_ll("k.ll", "sm_90")).unwrap_err();
    assert_eq!(
        error,
        LtoirError::Io { path: "k.target".to_string(), source: "refused".to_string() }
    );
    assert!(!world.asked("write"));
}

#[test]
fn failed_writes_name_their_file() {
    for path in ["k.target", "k.ltoir", "k.cubin"] {
        let mut world = world_with(&[("k.ll", "the ir")]);
        world.failing = Some(format!("write {}", path));
        let error = world.build(build_cubin_from_ll("k.ll", "sm_90")).unwrap_err();
        assert_eq!(error.message(), format!("Failed reading {}: refused", path));
    }
}

#[test]
fn toolkit_failures_are_told_apart() {
    for step in ["load nvvm", "ir version", "llvm version", "new program", "add module libdevice",
        "add module k: the ir", "verify", "compile"]
    {
        let mut world = world();
        world.failing = Some(step.to_string());
        let build = build_cubin_from_nvvm_ir(b"the ir".to_vec(), "k", "sm_90");
        let error = world.build(build).unwrap_err();
        assert_eq!(error, LtoirError::Nvvm("refused".to_string()), "{}", step);
        assert_eq!(error.message(), "libnvvm: refused");
        assert!(world.log.last().unwrap().starts_with(step));
    }
    for step in ["load nvjitlink", "new linker", "add ltoir k.ltoir: the ltoir", "finish cubin"] {
        let mut world = world();
        world.failing = Some(step.to_string());
        let build = build_cubin_from_nvvm_ir(b"the ir".to_vec(), "k", "sm_90");
        let error = world.build(build).unwrap_err();
        assert_eq!(error, LtoirError::NvJitLink("refused".to_string()), "{}", step);
        assert_eq!(error.message(), "nvJitLink: refused");
        assert!(world.log.last().unwrap().starts_with(step));
    }
}

#[test]
fn libdevice_must_be_found_and_read() {
    let mut world = world();
    world.libdevice = Err("/a\n/b".to_string());
    let error = world.build(build_ptx_from_nvvm_ir(Vec::new(), "k", "sm_90")).unwrap_err();
    assert_eq!(
        error.message(),
        "Could not locate libdevice.10.bc. Set CUDA_OXIDE_LIBDEVICE, CUDA_TOOLKIT_PATH, or \
         CUDA_HOME, or install the CUDA Toolkit. Tried:\n  /a\n/b"
    );
    world.libdevice = Ok("gone.bc".to_string());
    let error = world.build(build_ptx_from_nvvm_ir(Vec::new(), "k", "sm_90")).unwrap_err();
    assert_eq!(
        error,
        LtoirError::Io { path: "gone.bc".to_string(), source: "no such file".to_string() }
    );
}

#[test]
fn ir_version_must_be_two_zero() {
    for (major, minor) in [(1, 0), (2, 1), (3, 0), (-2, 10)] {
        let mut world = world();
        world.ir_version = (major, minor);
        let error = world.build(build_ptx_from_nvvm_ir(Vec::new(), "k", "sm_90")).unwrap_err();
        assert_eq!(error, LtoirError::UnsupportedNvvmIrVersion { major, minor });
        assert_eq!(
            error.message(),
            format!(
                "installed libNVVM accepts NVVM IR {}.{}, but cuda-oxide emits NVVM IR 2.0",
                major, minor
            )
        );
    }
}

#[test]
fn dialect_must_agree_with_the_target() {
    for (target, llvm, expected) in [
        ("sm_86", Some(7), None),
        ("sm_86", Some(20), Some("legacy LLVM 7")),
        ("sm_120", Some(20), None),
        ("sm_120", Some(7), Some("modern opaque-pointer")),
        ("sm_86", None, None),
        ("sm_120", None, None),
    ] {
        let mut world = world();
        world.llvm_version = llvm;
        let result = world.build(build_ptx_from_nvvm_ir(Vec::new(), "k", target));
        match expected {
            None => assert_eq!(result.unwrap(), Built::Image(b"the ptx".to_vec())),
            Some(expected) => assert_eq!(
                result.unwrap_err().message(),
                format!(
                    "libNVVM reports LLVM {} for {}, which disagrees with cuda-oxide's expected {} dialect",
                    llvm.unwrap(),
                    target.replace("sm_", "compute_"),
                    expected
                )
            ),
        }
    }
}

#[test]
fn memory_builds_write_nothing() {
    let mut world = world();
    let built = world.build(build_cubin_from_nvvm_ir(b"the ir".to_vec(), "m", "sm_90a")).unwrap();
    assert_eq!(built, Built::Image(b"the cubin".to_vec()));
    assert!(world.asked("add module m: the ir"));
    assert!(world.asked("add ltoir m.ltoir: the ltoir"));
    let built = world.build(build_ptx_from_nvvm_ir(b"the ir".to_vec(), "m", "sm_90a")).unwrap();
    assert_eq!(built, Built::Image(b"the ptx".to_vec()));
    assert!(world.asked("new linker -arch=sm_90a -lto -ptx"));
    let built = world.build(link_ltoir_to_cubin(b"given".to_vec(), "m", "sm_90a")).unwrap();
    assert_eq!(built, Built::Image(b"the cubin".to_vec()));
    assert!(world.asked("add ltoir m: given"));
    let built = world.build(link_ltoir_to_ptx(b"given".to_vec(), "m", "sm_90a")).unwrap();
    assert_eq!(built, Built::Image(b"the ptx".to_vec()));
    assert!(!world.asked("write"));
}

#[test]
fn wrong_replies_change_nothing() {
    let build = link_ltoir_to_cubin(Vec::new(), "m", "sm_90");
    let build = build.resume(Reply::Exists(true));
    assert!(matches!(build.request(), Some(Request::ParseTarget { text: "sm_90" })));
    let build = build.resume(Reply::Target(parse("sm_90")));
    let build = build.resume(Reply::Bytes(Ok(Vec::new())));
    assert!(matches!(build.request(), Some(Request::LoadNvJitLink)));
}

#[test]
fn explicit_target_is_validated() {
    let mut world = world();
    assert_eq!(world.look_up(target_arch()).unwrap_err(), LtoirError::TargetNotFound);
    assert_eq!(
        LtoirError::TargetNotFound.message(),
        "NVVM IR/LTOIR does not record its CUDA target. Keep the generated .target file, rebuild \
         the artifact, or explicitly set CUDA_OXIDE_TARGET to its original target."
    );
    world.variable = Some("compute_90a".to_string());
    assert_eq!(world.look_up(target_arch()).unwrap().sm, "sm_90a");
    world.variable = Some("gpu".to_string());
    assert!(matches!(world.look_up(target_arch()), Err(LtoirError::InvalidTarget(_))));
    assert!(!world.asked("capability"));
}

#[test]
fn source_target_resolution() {
    assert_eq!(
        resolve_source_target(Some(arch("sm_86")), Some(Err("bad".to_string()))).unwrap().sm,
        "sm_86"
    );
    assert_eq!(resolve_source_target(None, Some(parse("sm_120"))).unwrap().sm, "sm_120");
    assert_eq!(
        resolve_source_target(None, Some(Err("bad".to_string()))).unwrap_err(),
        LtoirError::InvalidTarget("bad".to_string())
    );
}

#[test]
fn recorded_targets_are_read_back() {
    let text = artifact_target_sidecar(&arch("compute_90a"));
    assert_eq!(text, "sm_90a\n");
    assert_eq!(recorded_target_text(&text), "sm_90a");
    assert_eq!(recorded_target_text(" \t\u{3000}sm_86\r\n\n"), "sm_86");
    assert_eq!(recorded_target_text("\n \n"), "");
    assert_eq!(recorded_target_text("a b"), "a b");
}

#[test]
fn execution_targets_are_spelled_out() {
    assert_eq!(execution_target_text(8, 6), "sm_86");
    assert_eq!(execution_target_text(12, 0), "sm_120");
    assert_eq!(execution_target_text(10, 3), "sm_103");
    assert_eq!(execution_target_text(i32::MIN, 0), "sm_-21474836480");
}

#[test]
fn load_takes_ptx_when_nothing_is_recorded() {
    let mut world = world_with(&[("d/k.ptx", ""), ("d/k.ll", ""), ("d/k.ltoir", ""), ("d/k.cubin", "")]);
    world.load(load_kernel_module("d", "k")).unwrap();
    assert_eq!(
        world.log,
        vec![
            "probe d/k.target",
            "exists d/k.ptx",
            "exists d/k.ll",
            "exists d/k.ltoir",
            "exists d/k.cubin",
            "load file d/k.ptx",
        ]
    );
}

#[test]
fn load_builds_recorded_ir_natively() {
    let mut world = world_with(&[("d/k.ptx", "old"), ("d/k.ll", "the ir"), ("d/k.target", "compute_86\n")]);
    world.load(load_kernel_module("d", "k")).unwrap();
    assert!(world.asked("load file d/k.cubin"));
    assert!(!world.asked("load file d/k.ptx"));
    assert_eq!(world.text("d/k.cubin").unwrap(), "the cubin");
    assert_eq!(world.text("d/k.target").unwrap(), "sm_86\n");
}

#[test]
fn load_bridges_recorded_ir_to_blackwell() {
    let mut world = world_with(&[("d/k.ll", "the ir"), ("d/k.target", "sm_86\n")]);
    world.capability = Ok((12, 0));
    world.load(load_kernel_module("d", "k")).unwrap();
    assert!(world.asked("parse sm_120"));
    assert!(world.asked("add module d/k.ll: the ir"));
    assert!(world.asked("new linker -arch=sm_86 -lto -ptx"));
    assert_eq!(world.log.last().unwrap(), "load image the ptx");
    assert!(!world.asked("write"));
}

#[test]
fn load_links_recorded_ltoir() {
    let mut world = world_with(&[("d/k.ltoir", "given"), ("d/k.target", "sm_86\n"), ("d/k.cubin", "old")]);
    world.load(load_kernel_module("d", "k")).unwrap();
    assert!(world.asked("add ltoir d/k.ltoir: given"));
    assert_eq!(world.log.last().unwrap(), "load image the cubin");
    world.capability = Ok((10, 0));
    world.load(load_kernel_module("d", "k")).unwrap();
    assert_eq!(world.log.last().unwrap(), "load image the ptx");
    // LTOIR is read before its route is chosen.
    world.capability = Ok((7, 5));
    world.log.clear();
    let error = world.load(load_kernel_module("d", "k")).unwrap_err();
    assert!(matches!(error, LtoirError::IncompatibleExecutionTarget { .. }));
    assert_eq!(world.log.last().unwrap(), "read d/k.ltoir");
}

#[test]
fn load_does_not_fall_back_from_a_recorded_target() {
    let mut world = world_with(&[("d/k.ptx", "old"), ("d/k.cubin", "old"), ("d/k.target", "sm_86\n")]);
    let error = world.load(load_kernel_module("d", "k")).unwrap_err();
    assert_eq!(
        error.message(),
        "Could not find any kernel artifact for k in d. Looked for k.cubin, k.ptx, k.ll, k.ltoir. \
         Did `cargo oxide run` complete successfully?"
    );
    assert!(!world.asked("load"));
}

#[test]
fn load_takes_a_standalone_cubin_last() {
    let mut world = world_with(&[("d/k.cubin", "")]);
    world.load(load_kernel_module("d", "k")).unwrap();
    assert_eq!(world.log.last().unwrap(), "load file d/k.cubin");
    world.failing = Some("load file".to_string());
    let error = world.load(load_kernel_module("d", "k")).unwrap_err();
    assert_eq!(error.message(), "CUDA driver: refused");
}

#[test]
fn load_needs_an_explicit_target_for_unrecorded_ir() {
    let mut world = world_with(&[("d/k.ll", "the ir")]);
    let error = world.load(load_kernel_module("d", "k")).unwrap_err();
    assert_eq!(error, LtoirError::TargetNotFound);
    assert!(!world.asked("capability"));
    world.variable = Some("sm_86".to_string());
    world.load(load_kernel_module("d", "k")).unwrap();
    assert_eq!(world.log.last().unwrap(), "load file d/k.cubin");
}

#[test]
fn load_reports_what_it_cannot_find_out() {
    let mut world = world_with(&[("d/k.ll", "the ir"), ("d/k.target", "sm_86\n")]);
    world.capability = Err("no device".to_string());
    let error = world.load(load_kernel_module("d", "k")).unwrap_err();
    assert_eq!(error, LtoirError::Driver("no device".to_string()));
    world.failing = Some("probe".to_string());
    let error = world.load(load_kernel_module("d", "k")).unwrap_err();
    assert_eq!(
        error,
        LtoirError::Io { path: "d/k.target".to_string(), source: "refused".to_string() }
    );
}

#[test]
fn target_paths() {
    assert_eq!(emitted_target_path("a/b.c/kernel.ll"), "a/b.c/kernel.target");
    assert_eq!(emitted_target_path("kernel"), "kernel.target");
    assert_eq!(emitted_target_path("kernel.v1.ll"), "kernel.v1.target");
    assert_eq!(emitted_target_path("a/.kernel"), "a/.kernel.target");
    assert_eq!(emitted_target_path("kernel."), "kernel.target");
    assert_eq!(emitted_target_path(""), "");
    assert_eq!(emitted_target_path("a/.."), "a/..");
    // What follows the name is gone.
    assert_eq!(emitted_target_path("a/kernel.ll/"), "a/kernel.target");
    assert_eq!(emitted_target_path("a/kernel.ll/."), "a/kernel.target");
    assert_eq!(emitted_target_path("a/kernel.ll/.//./"), "a/kernel.target");
    assert_eq!(emitted_target_path("kernel/"), "kernel.target");
    assert_eq!(emitted_target_path("kernel.ltoir///"), "kernel.target");
    // What stands before it is not.
    assert_eq!(emitted_target_path("a//./b/kernel.ll"), "a//./b/kernel.target");
    assert_eq!(emitted_target_path("C:/a\\b/kernel.ll"), "C:/a\\b/kernel.target");
    assert_eq!(emitted_target_path("C:\\a\\kernel.v1.ll"), "C:\\a\\kernel.v1.target");
    assert_eq!(emitted_target_path("..."), "...target");
    assert_eq!(emitted_target_path("//a/b/kernel.ll"), "//a/b/kernel.target");
    assert_eq!(emitted_target_path("//a/b/c/kernel/."), "//a/b/c/kernel.target");
    assert_eq!(emitted_target_path("\\\\a\\b\\kernel.ll"), "\\\\a\\b\\kernel.target");
    assert_eq!(emitted_target_path("d/C:kernel.ll"), "d/C:kernel.target");
    assert_eq!(emitted_target_path("C:kernel.ll"), "C:kernel.target");
    // Paths that name no file.
    for path in ["/", "/.", "/././", ".", "./", "..", "../", "a/../.", "C:/.."] {
        assert_eq!(emitted_target_path(path), path);
    }
}

#[test]
fn records_of_siblings_and_of_records() {
    for dir in ["", "d/", "./", "/", "a//", "a/./", "C:/", "C:", "a:b\\c/", "../", "//a/b/", "\\\\a\\b\\"] {
        for stem in ["kernel", "k.v1", ".k", "..k.x", "k.", "a:", "kernel.target"] {
            let record = format!("{}{}.target", dir, stem);
            for extension in ["ll", "ltoir", "target"] {
                let path = format!("{}{}.{}", dir, stem, extension);
                assert_eq!(emitted_target_path(&path), record);
            }
            assert_eq!(emitted_target_path(&record), record);
        }
    }
}

#[test]
fn sibling_paths() {
    assert_eq!(sibling_path("a/b.c/kernel.ll", "cubin"), "a/b.c/kernel.cubin");
    assert_eq!(sibling_path("kernel.ll", "ltoir"), "kernel.ltoir");
    assert_eq!(sibling_path("/kernel.ll", "ltoir"), "/kernel.ltoir");
    assert_eq!(sibling_path("./kernel.ll", "ltoir"), "./kernel.ltoir");
    assert_eq!(sibling_path("../kernel", "ltoir"), "../kernel.ltoir");
    assert_eq!(sibling_path("", "ltoir"), "./kernel.ltoir");
    assert_eq!(sibling_path("a/..", "ltoir"), "a/kernel.ltoir");
    assert_eq!(sibling_path("a//b.ll", "ltoir"), "a/b.ltoir");
    assert_eq!(sibling_path("a/./b.ll", "ltoir"), "a/b.ltoir");
    assert_eq!(sibling_path("a/.//./b.ll/.", "ltoir"), "a/b.ltoir");
    assert_eq!(sibling_path("././b.ll", "ltoir"), "./b.ltoir");
    assert_eq!(sibling_path("/./b.ll", "ltoir"), "/b.ltoir");
    assert_eq!(sibling_path("a/b.ll/", "cubin"), "a/b.cubin");
    assert_eq!(sibling_path("/", "ltoir"), "./kernel.ltoir");
    assert_eq!(sibling_path("/..", "ltoir"), "/kernel.ltoir");
    assert_eq!(sibling_path(".", "ltoir"), "kernel.ltoir");
    assert_eq!(sibling_path("./..", "ltoir"), "./kernel.ltoir");
    assert_eq!(sibling_path("a\\b/x/k.ll", "ltoir"), "a\\b/x/k.ltoir");
    assert_eq!(sibling_path("a\\b/k.ll", "ltoir"), "a\\b/k.ltoir");
    assert_eq!(sibling_path("C:/k.ll", "ltoir"), "C:/k.ltoir");
    assert_eq!(sibling_path("//a/b/k.ll", "ltoir"), "//a/b/k.ltoir");
    assert_eq!(sibling_path("//a/b/.//k.ll", "ltoir"), "//a/b/k.ltoir");
    assert_eq!(sibling_path("//a/b/..", "ltoir"), "//a/b/kernel.ltoir");
}

#[test]
fn artifact_paths_and_directories() {
    assert_eq!(artifact_path("d", "k", "ptx"), "d/k.ptx");
    assert_eq!(artifact_path("d/", "k", "ptx"), "d/k.ptx");
    assert_eq!(artifact_path("", "k", "ptx"), "k.ptx");
    assert_eq!(artifact_path("d", "sub/k", "ptx"), "d/sub/k.ptx");
    assert_eq!(artifact_path("d", "/k", "ptx"), "/k.ptx");
    assert_eq!(artifact_path("a:b/c\\d", "k", "ptx"), "a:b/c\\d/k.ptx");
    assert_eq!(artifact_path("/", "k", "ptx"), "/k.ptx");
    assert_eq!(artifact_path("//a/b", "k", "ptx"), "//a/b/k.ptx");
    for dir in ["C:", "d\\"] {
        let path = artifact_path(dir, "k", "ptx");
        assert!(["", "/", "\\"].iter().any(|sep| path == format!("{}{}k.ptx", dir, sep)));
    }
    assert_eq!(manifest_dir(Some("m".to_string()), Some("c".to_string())), "m");
    assert_eq!(manifest_dir(None, Some("c".to_string())), "c");
    assert_eq!(manifest_dir(None, None), ".");
}

#[test]
fn selection_takes_the_first_that_exists() {
    for bits in 0..32u32 {
        let has = |bit: u32| bits & (1 << bit) != 0;
        let recorded = has(4);
        let order = if recorded {
            vec![(FileArtifact::NvvmIr, has(1)), (FileArtifact::Ltoir, has(2))]
        } else {
            vec![
                (FileArtifact::Ptx, has(0)),
                (FileArtifact::NvvmIr, has(1)),
                (FileArtifact::Ltoir, has(2)),
                (FileArtifact::Cubin, has(3)),
            ]
        };
        let expected = order.iter().find(|(_, exists)| *exists).map(|(artifact, _)| *artifact);
        assert_eq!(select_file_artifact(has(0), has(1), has(2), has(3), recorded), expected);
    }
}

#[test]
fn routes_go_by_number() {
    for execution in ["sm_100", "sm_100a", "sm_103", "sm_120", "sm_121a"] {
        assert_eq!(
            execution_route(&arch("sm_86"), &arch(execution)).unwrap(),
            ExecutionRoute::PtxBridge
        );
    }
    for execution in ["sm_90", "sm_90a"] {
        assert_eq!(
            execution_route(&arch("sm_90"), &arch(execution)).unwrap(),
            ExecutionRoute::Cubin
        );
    }
}

#[test]
fn trimming_twice_is_trimming_once() {
    for text in ["", " ", "\u{85} a b\u{2029}\u{a0}", "sm_86\n"] {
        let once = recorded_target_text(text);
        assert_eq!(recorded_target_text(&once), once);
    }
    assert_eq!(recorded_target_text("\u{85} a b\u{2029}\u{a0}"), "a b");
    // A zero-width space is no white space.
    assert_eq!(recorded_target_text("\u{200b}a"), "\u{200b}a");
}

#[test]
fn wrong_replies_keep_lookups_and_loads() {
    let lookup = target_arch_for_artifact("d/k.ll").resume(Reply::Exists(true));
    assert!(matches!(
        lookup.request(),
        Some(Request::ReadVariable { name: "CUDA_OXIDE_TARGET" })
    ));
    let lookup = lookup.resume(Reply::Variable(None)).resume(Reply::Variable(None));
    assert!(matches!(lookup.request(), Some(Request::ReadText { path: "d/k.target" })));

    let load = load_kernel_module("d", "k").resume(Reply::Exists(true));
    assert!(matches!(load.request(), Some(Request::TryExists { path: "d/k.target" })));
    let load = load.resume(Reply::Probed(Err("why".to_string()))).resume(Reply::Exists(true));
    assert!(load.request().is_none());
    assert!(matches!(load.stage, LoadStage::Done(Err(LtoirError::Io { .. }))));
}

#[test]
fn incompatible_output_is_not_loaded() {
    for artifact in ["d/k.ll", "d/k.ltoir"] {
        let mut world = world_with(&[(artifact, "contents"), ("d/k.target", "sm_90a\n")]);
        world.capability = Ok((12, 0));
        let error = world.load(load_kernel_module("d", "k")).unwrap_err();
        assert_eq!(
            error,
            LtoirError::IncompatibleExecutionTarget {
                emitted: "sm_90a".to_string(),
                execution: "sm_120".to_string(),
                reason: "targets with an architecture suffix, such as sm_90a, cannot be forwarded \
                         to a different GPU",
            }
        );
        assert!(!world.asked("load"));
        assert!(!world.asked("write"));
    }
}

#[test]
fn kernels_with_dots_share_one_record() {
    let mut world = world_with(&[("d/k.v1.ltoir", "given"), ("d/k.v1.target", "compute_86\n")]);
    world.load(load_kernel_module("d", "k.v1")).unwrap();
    assert!(world.asked("text d/k.v1.target"));
    assert_eq!(world.log.last().unwrap(), "load image the cubin");
}

#[test]
fn an_unreadable_artifact_is_reported() {
    // The file is there when asked for, and gone when read.
    let mut load = load_kernel_module("d", "k");
    let mut world = world_with(&[("d/k.ltoir", "given"), ("d/k.target", "sm_86\n")]);
    loop {
        let reply = match load.request() {
            Some(Request::ReadFile { .. }) => break,
            Some(request) => world.answer(request),
            None => panic!("the artifact was not read"),
        };
        load = load.resume(reply);
    }
    world.files.remove("d/k.ltoir");
    let error = world.load(load).unwrap_err();
    assert_eq!(error.message(), "Failed reading d/k.ltoir: no such file");
}

#[test]
fn a_written_record_is_read_back_for_every_sibling() {
    for target in ["sm_90a", "compute_90a", "sm_120f", "sm_86"] {
        let mut world = world_with(&[("d/k.v1.ll", "the ir")]);
        world.build(build_cubin_from_ll("d/k.v1.ll", target)).unwrap();
        for path in ["d/k.v1.ll", "d/k.v1.ltoir", "d/k.v1.cubin", "d/k.v1.target"] {
            let found = world.look_up(target_arch_for_artifact(path)).unwrap();
            assert_eq!(found, arch(target));
        }
    }
}

#[test]
fn a_build_writes_its_own_files_only() {
    let mut world = world_with(&[("d/k.ll", "the ir"), ("d/k.ptx", "old"), ("d/other.ltoir", "old")]);
    world.build(build_cubin_from_ll("d/k.ll", "sm_86")).unwrap();
    let writes: Vec<&String> = world.log.iter().filter(|line| line.starts_with("write")).collect();
    assert_eq!(writes, ["write d/k.target", "write d/k.ltoir", "write d/k.cubin"]);
    assert_eq!(world.text("d/k.ptx").unwrap(), "old");
    assert_eq!(world.text("d/other.ltoir").unwrap(), "old");
}

#[test]
fn a_build_ignores_what_was_derived_before() {
    let mut fresh = world_with(&[("d/k.ll", "the ir")]);
    let mut used = world_with(&[("d/k.ll", "the ir"), ("d/k.ltoir", "old"), ("d/k.cubin", "old")]);
    let built = fresh.build(build_cubin_from_ll("d/k.ll", "sm_86")).unwrap();
    assert_eq!(used.build(build_cubin_from_ll("d/k.ll", "sm_86")).unwrap(), built);
    assert_eq!(used.log, fresh.log);
    assert_eq!(used.files, fresh.files);
}

#[test]
fn only_native_ir_is_written() {
    for (artifact, capability, writes) in [
        ("d/k.ll", (8, 6), true),
        ("d/k.ll", (12, 0), false),
        ("d/k.ll", (9, 0), false),
        ("d/k.ltoir", (8, 6), false),
        ("d/k.ltoir", (12, 0), false),
    ] {
        let mut world = world_with(&[(artifact, "contents"), ("d/k.target", "sm_86\n")]);
        world.capability = Ok(capability);
        let _ = world.load(load_kernel_module("d", "k"));
        assert_eq!(world.asked("write"), writes);
    }
}

#[test]
fn a_kernel_has_one_record() {
    for (dir, name, base) in [
        ("d", "k", "d/k"),
        ("d/", "k.v1", "d/k.v1"),
        ("", "k", "k"),
        ("C:/d", "k", "C:/d/k"),
        ("a\\b", "k", "a\\b/k"),
        ("//a/b", "k", "//a/b/k"),
        ("d", "sub/k", "d/sub/k"),
        ("d", "/k", "/k"),
    ] {
        let artifacts = load_kernel_module(dir, name).artifacts;
        assert_eq!(artifacts.ir.ll, format!("{}.ll", base));
        assert_eq!(artifacts.ltoir, format!("{}.ltoir", base));
        assert_eq!(artifacts.ptx, format!("{}.ptx", base));
        assert_eq!(artifacts.cubin, format!("{}.cubin", base));
        assert_eq!(artifacts.ir.target, format!("{}.target", base));
        assert_eq!(artifacts.ltoir_target, artifacts.ir.target);
    }
    // With no name there is nothing but an extension, which is none.
    let artifacts = load_kernel_module("d", "").artifacts;
    assert_eq!(artifacts.ir.target, "d/.ll.target");
    assert_eq!(artifacts.ltoir_target, "d/.ltoir.target");
}

#[test]
fn a_failed_build_writes_what_it_came_to() {
    let writes = |failing: &str| {
        let mut world = world_with(&[("d/k.ll", "the ir")]);
        world.failing = Some(failing.to_string());
        assert!(world.build(build_cubin_from_ll("d/k.ll", "sm_86")).is_err());
        let lines = world.log.into_iter().filter(|line| line.starts_with("write"));
        lines.collect::<Vec<String>>()
    };
    for step in ["load nvvm", "verify", "compile", "write d/k.target"] {
        assert_eq!(writes(step), ["write d/k.target"]);
    }
    for step in ["load nvjitlink", "add ltoir", "finish cubin", "write d/k.ltoir"] {
        assert_eq!(writes(step), ["write d/k.target", "write d/k.ltoir"]);
    }
    assert_eq!(writes("write d/k.cubin"), [
        "write d/k.target",
        "write d/k.ltoir",
        "write d/k.cubin",
    ]);
}

#[test]
fn the_driver_loads_what_was_selected_or_built() {
    for (files, capability, loaded) in [
        (vec![("d/k.ptx", ""), ("d/k.ll", "")], (8, 6), "load file d/k.ptx"),
        (vec![("d/k.cubin", "")], (8, 6), "load file d/k.cubin"),
        (vec![("d/k.ll", ""), ("d/k.target", "sm_86")], (8, 6), "load file d/k.cubin"),
        (vec![("d/k.ll", ""), ("d/k.target", "sm_86")], (12, 0), "load image the ptx"),
        (vec![("d/k.ltoir", ""), ("d/k.target", "sm_86")], (8, 6), "load image the cubin"),
        (vec![("d/k.ltoir", ""), ("d/k.target", "sm_86")], (12, 0), "load image the ptx"),
    ] {
        let mut world = world_with(&files);
        world.capability = Ok(capability);
        world.load(load_kernel_module("d", "k")).unwrap();
        let is_load = |line: &&String| line.starts_with("load file") || line.starts_with("load image");
        assert_eq!(world.log.iter().filter(is_load).count(), 1);
        assert_eq!(world.log.last().unwrap(), loaded);
    }
    let mut world = world_with(&[("d/k.ll", "the ir"), ("d/k.target", "sm_86")]);
    world.load(load_kernel_module("d", "k")).unwrap();
    assert_eq!(world.text("d/k.cubin").unwrap(), "the cubin");
}
