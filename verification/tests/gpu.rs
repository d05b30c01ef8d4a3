use s2tui::whisper::gpu::{
    detect_active_backend, is_cuda_available, is_hipblas_available, get_compiled_backends, is_vulkan_available,
    is_vulkan_available_at_startup, next_probe, probes_to_run, quick_vulkan_check, BackendProbes,
    BuildFeatures, GpuBackend, GpuInfo, TargetOs, VulkanProbe,
};

fn plain_linux() -> BuildFeatures {
    BuildFeatures { target_os: TargetOs::Linux, gpu_cuda: false, gpu_hipblas: false, gpu_vulkan: false }
}

fn no_probes() -> BackendProbes {
    BackendProbes { cuda: false, hipblas: false, vulkan: false }
}

fn all_probes() -> BackendProbes {
    BackendProbes { cuda: true, hipblas: true, vulkan: true }
}

fn every_build() -> Vec<BuildFeatures> {
    let mut builds = Vec::new();
    for target_os in [TargetOs::Windows, TargetOs::Linux, TargetOs::MacOs, TargetOs::Other] {
        for bits in 0..8u8 {
            builds.push(BuildFeatures {
                target_os,
                gpu_cuda: bits & 1 != 0,
                gpu_hipblas: bits & 2 != 0,
                gpu_vulkan: bits & 4 != 0,
            });
        }
    }
    builds
}

fn every_probes() -> Vec<BackendProbes> {
    (0..8u8)
        .map(|bits| BackendProbes { cuda: bits & 1 != 0, hipblas: bits & 2 != 0, vulkan: bits & 4 != 0 })
        .collect()
}

#[test]
fn test_backend_names() {
    assert_eq!(GpuBackend::Cpu.name(), "CPU");
    assert_eq!(GpuBackend::Metal.name(), "Metal");
    assert_eq!(GpuBackend::Cuda.name(), "CUDA");
}

#[test]
fn test_detect_backend() {
    let backend = detect_active_backend(&plain_linux(), &no_probes());
    println!("Detected backend: {:?}", backend);

    // Should always have at least CPU
    assert!(get_compiled_backends(&plain_linux()).contains(&GpuBackend::Cpu));
}

#[test]
fn test_gpu_info() {
    let info = GpuInfo::detect(&plain_linux(), &no_probes());
    println!("GPU Info: {:?}", info);

    assert!(!info.compiled_backends.is_empty());
    assert!(info.compiled_backends.contains(&info.active_backend));
}

#[test]
fn backend_names_and_descriptions_are_exact() {
    assert_eq!(GpuBackend::HipBlas.name(), "HIPBlas (ROCm)");
    assert_eq!(GpuBackend::Vulkan.name(), "Vulkan");
    assert_eq!(GpuBackend::Cpu.description(), "CPU-only processing (no GPU acceleration)");
    assert_eq!(GpuBackend::Metal.description(), "Apple Metal GPU acceleration (macOS)");
    assert_eq!(GpuBackend::Cuda.description(), "NVIDIA CUDA GPU acceleration");
    assert_eq!(GpuBackend::HipBlas.description(), "AMD ROCm/HIPBlas GPU acceleration (Linux)");
    assert_eq!(GpuBackend::Vulkan.description(), "Vulkan cross-platform GPU acceleration");
}

#[test]
fn metal_wins_on_macos_whatever_else_is_there() {
    let build = BuildFeatures { target_os: TargetOs::MacOs, gpu_cuda: true, gpu_hipblas: true, gpu_vulkan: true };
    assert_eq!(detect_active_backend(&build, &all_probes()), GpuBackend::Metal);
    assert_eq!(detect_active_backend(&build, &no_probes()), GpuBackend::Metal);
    // Vulkan does not count on macOS even when asked for.
    assert_eq!(get_compiled_backends(&build), vec![
        GpuBackend::Cpu,
        GpuBackend::Metal,
        GpuBackend::Cuda,
        GpuBackend::HipBlas
    ]);
    assert!(probes_to_run(&build).is_empty());
}

#[test]
fn preference_order_is_cuda_hipblas_vulkan() {
    let build = BuildFeatures { target_os: TargetOs::Linux, gpu_cuda: true, gpu_hipblas: true, gpu_vulkan: true };
    assert_eq!(detect_active_backend(&build, &all_probes()), GpuBackend::Cuda);
    let no_cuda = BackendProbes { cuda: false, hipblas: true, vulkan: true };
    assert_eq!(detect_active_backend(&build, &no_cuda), GpuBackend::HipBlas);
    let only_vulkan = BackendProbes { cuda: false, hipblas: false, vulkan: true };
    assert_eq!(detect_active_backend(&build, &only_vulkan), GpuBackend::Vulkan);
    assert_eq!(detect_active_backend(&build, &no_probes()), GpuBackend::Cpu);
    assert_eq!(probes_to_run(&build), vec![GpuBackend::Cuda, GpuBackend::HipBlas, GpuBackend::Vulkan]);
    assert_eq!(get_compiled_backends(&build), vec![
        GpuBackend::Cpu,
        GpuBackend::Cuda,
        GpuBackend::HipBlas,
        GpuBackend::Vulkan
    ]);
}

#[test]
fn a_probe_for_a_backend_not_compiled_is_ignored() {
    assert_eq!(detect_active_backend(&plain_linux(), &all_probes()), GpuBackend::Cpu);
    assert_eq!(get_compiled_backends(&plain_linux()), vec![GpuBackend::Cpu]);
    let other = BuildFeatures { target_os: TargetOs::Other, gpu_cuda: false, gpu_hipblas: false, gpu_vulkan: true };
    assert_eq!(detect_active_backend(&other, &all_probes()), GpuBackend::Cpu);
}

#[test]
fn active_backend_is_always_compiled_and_cpu_always_listed() {
    for build in every_build() {
        let compiled = get_compiled_backends(&build);
        assert_eq!(compiled[0], GpuBackend::Cpu);
        for probes in every_probes() {
            let info = GpuInfo::detect(&build, &probes);
            assert!(compiled.contains(&info.active_backend));
            assert_eq!(info.hardware_accelerated, info.active_backend != GpuBackend::Cpu);
            assert_eq!(info.compiled_backends, compiled);
        }
    }
}

#[test]
fn vulkan_needs_a_physical_device() {
    assert!(!is_vulkan_available(VulkanProbe::LibraryMissing));
    assert!(!is_vulkan_available(VulkanProbe::LoaderFailed));
    assert!(!is_vulkan_available(VulkanProbe::InstanceFailed));
    assert!(!is_vulkan_available(VulkanProbe::EnumerationFailed));
    assert!(!is_vulkan_available(VulkanProbe::Devices(0)));
    assert!(is_vulkan_available(VulkanProbe::Devices(1)));
    assert!(is_vulkan_available(VulkanProbe::Devices(3)));
}

#[test]
fn quick_check_takes_the_tool_or_the_library() {
    assert!(quick_vulkan_check(true, false));
    assert!(quick_vulkan_check(false, true));
    assert!(quick_vulkan_check(true, true));
    assert!(!quick_vulkan_check(false, false));
}

#[test]
fn startup_check_by_platform() {
    let mac = BuildFeatures { target_os: TargetOs::MacOs, gpu_cuda: false, gpu_hipblas: false, gpu_vulkan: false };
    assert!(is_vulkan_available_at_startup(&mac, false));
    let linux_vulkan = BuildFeatures { target_os: TargetOs::Linux, gpu_cuda: false, gpu_hipblas: false, gpu_vulkan: true };
    assert!(is_vulkan_available_at_startup(&linux_vulkan, true));
    assert!(!is_vulkan_available_at_startup(&linux_vulkan, false));
    let windows_vulkan = BuildFeatures { target_os: TargetOs::Windows, gpu_cuda: false, gpu_hipblas: false, gpu_vulkan: true };
    assert!(is_vulkan_available_at_startup(&windows_vulkan, true));
    assert!(!is_vulkan_available_at_startup(&plain_linux(), true));
}

#[test]
fn probes_run_in_order_up_to_the_first_yes() {
    let build = BuildFeatures { target_os: TargetOs::Linux, gpu_cuda: true, gpu_hipblas: true, gpu_vulkan: true };
    assert_eq!(next_probe(&build, None), Some(GpuBackend::Cuda));
    assert_eq!(next_probe(&build, Some((GpuBackend::Cuda, true))), None);
    assert_eq!(next_probe(&build, Some((GpuBackend::Cuda, false))), Some(GpuBackend::HipBlas));
    assert_eq!(next_probe(&build, Some((GpuBackend::HipBlas, true))), None);
    assert_eq!(next_probe(&build, Some((GpuBackend::HipBlas, false))), Some(GpuBackend::Vulkan));
    assert_eq!(next_probe(&build, Some((GpuBackend::Vulkan, false))), None);
    assert_eq!(next_probe(&build, Some((GpuBackend::Vulkan, true))), None);
    let sparse = BuildFeatures { target_os: TargetOs::Windows, gpu_cuda: true, gpu_hipblas: false, gpu_vulkan: true };
    assert_eq!(next_probe(&sparse, Some((GpuBackend::Cuda, false))), Some(GpuBackend::Vulkan));
    assert_eq!(next_probe(&plain_linux(), None), None);
    let mac = BuildFeatures { target_os: TargetOs::MacOs, gpu_cuda: true, gpu_hipblas: true, gpu_vulkan: true };
    assert_eq!(next_probe(&mac, None), None);
    assert_eq!(next_probe(&mac, Some((GpuBackend::Cuda, false))), None);
}

#[test]
fn stepping_through_the_probes_finds_the_active_backend() {
    for build in every_build() {
        for answers in every_probes() {
            let mut asked = Vec::new();
            let mut found = BackendProbes { cuda: false, hipblas: false, vulkan: false };
            let mut last = None;
            while let Some(backend) = next_probe(&build, last) {
                let available = match backend {
                    GpuBackend::Cuda => answers.cuda,
                    GpuBackend::HipBlas => answers.hipblas,
                    GpuBackend::Vulkan => answers.vulkan,
                    _ => true,
                };
                match backend {
                    GpuBackend::Cuda => found.cuda = available,
                    GpuBackend::HipBlas => found.hipblas = available,
                    GpuBackend::Vulkan => found.vulkan = available,
                    _ => {}
                }
                asked.push(backend);
                last = Some((backend, available));
            }
            // Asking lazily changes nothing of the result.
            assert_eq!(detect_active_backend(&build, &found), detect_active_backend(&build, &answers));
            let order = probes_to_run(&build);
            assert_eq!(asked[..], order[..asked.len()]);
        }
    }
}

#[test]
fn cuda_needs_the_tool_to_succeed() {
    assert!(is_cuda_available(Some(true)));
    assert!(!is_cuda_available(Some(false)));
    assert!(!is_cuda_available(None));
}

#[test]
fn hipblas_needs_the_directory_and_no_failing_tool() {
    assert!(is_hipblas_available(true, Some(true)));
    assert!(!is_hipblas_available(true, Some(false)));
    // Without the tool the directory alone counts.
    assert!(is_hipblas_available(true, None));
    assert!(!is_hipblas_available(false, Some(true)));
    assert!(!is_hipblas_available(false, Some(false)));
    assert!(!is_hipblas_available(false, None));
}
