//! Which hardware acceleration a build can use on the machine it runs on.
//!
//! What the build was compiled with and what the machine's probes answered
//! come in as plain values; the order of preference is decided here.

use vstd::prelude::*;

verus! {

/// Acceleration backends for inference.
#[derive(Debug, Clone, Copy, PartialEq, Eq, Structural)]
pub enum GpuBackend {
    /// No acceleration.
    Cpu,
    /// Apple Metal.
    Metal,
    /// NVIDIA CUDA.
    Cuda,
    /// AMD ROCm / HIPBlas.
    HipBlas,
    /// Vulkan, on any vendor's hardware.
    Vulkan,
}

impl GpuBackend {
    /// The text of `name`.
    pub open spec fn name_spec(self) -> Seq<char> {
        match self {
            GpuBackend::Cpu => "CPU"@,
            GpuBackend::Metal => "Metal"@,
            GpuBackend::Cuda => "CUDA"@,
            GpuBackend::HipBlas => "HIPBlas (ROCm)"@,
            GpuBackend::Vulkan => "Vulkan"@,
        }
    }

    /// The text of `description`.
    pub open spec fn description_spec(self) -> Seq<char> {
        match self {
            GpuBackend::Cpu => "CPU-only processing (no GPU acceleration)"@,
            GpuBackend::Metal => "Apple Metal GPU acceleration (macOS)"@,
            GpuBackend::Cuda => "NVIDIA CUDA GPU acceleration"@,
            GpuBackend::HipBlas => "AMD ROCm/HIPBlas GPU acceleration (Linux)"@,
            GpuBackend::Vulkan => "Vulkan cross-platform GPU acceleration"@,
        }
    }

    /// Short human-readable name.
    pub fn name(&self) -> (name: &'static str)
        ensures
            name@ == self.name_spec(),
    {
        match self {
            GpuBackend::Cpu => "CPU",
            GpuBackend::Metal => "Metal",
            GpuBackend::Cuda => "CUDA",
            GpuBackend::HipBlas => "HIPBlas (ROCm)",
            GpuBackend::Vulkan => "Vulkan",
        }
    }

    /// One-line description.
    pub fn description(&self) -> (description: &'static str)
        ensures
            description@ == self.description_spec(),
    {
        match self {
            GpuBackend::Cpu => "CPU-only processing (no GPU acceleration)",
            GpuBackend::Metal => "Apple Metal GPU acceleration (macOS)",
            GpuBackend::Cuda => "NVIDIA CUDA GPU acceleration",
            GpuBackend::HipBlas => "AMD ROCm/HIPBlas GPU acceleration (Linux)",
            GpuBackend::Vulkan => "Vulkan cross-platform GPU acceleration",
        }
    }
}

/// The operating system a build targets.
#[derive(Debug, Clone, Copy, PartialEq, Eq, Structural)]
pub enum TargetOs {
    Windows,
    Linux,
    MacOs,
    Other,
}

/// What a build was compiled for and with. Fixed for the life of a process.
#[derive(Debug, Clone, Copy)]
pub struct BuildFeatures {
    pub target_os: TargetOs,
    /// CUDA support was compiled in.
    pub gpu_cuda: bool,
    /// HIPBlas support was compiled in.
    pub gpu_hipblas: bool,
    /// Vulkan support was asked for; it counts on Windows and Linux only.
    pub gpu_vulkan: bool,
}

impl BuildFeatures {
    /// Metal comes with every macOS build.
    pub open spec fn has_metal(self) -> bool {
        self.target_os is MacOs
    }

    /// Vulkan is compiled in: asked for, on a system that has it.
    pub open spec fn has_vulkan(self) -> bool {
        self.gpu_vulkan && (self.target_os is Windows || self.target_os is Linux)
    }

    /// Whether `backend` is compiled into the build.
    pub open spec fn has(self, backend: GpuBackend) -> bool {
        match backend {
            GpuBackend::Cpu => true,
            GpuBackend::Metal => self.has_metal(),
            GpuBackend::Cuda => self.gpu_cuda,
            GpuBackend::HipBlas => self.gpu_hipblas,
            GpuBackend::Vulkan => self.has_vulkan(),
        }
    }

    /// Exec form of `has_vulkan`.
    pub fn vulkan_compiled(&self) -> (compiled: bool)
        ensures
            compiled == self.has_vulkan(),
    {
        self.gpu_vulkan && match self.target_os {
            TargetOs::Windows => true,
            TargetOs::Linux => true,
            _ => false,
        }
    }

    /// Exec form of `has_metal`.
    pub fn metal_compiled(&self) -> (compiled: bool)
        ensures
            compiled == self.has_metal(),
    {
        match self.target_os {
            TargetOs::MacOs => true,
            _ => false,
        }
    }
}

/// What the run-time availability probes answered. A probe for a backend
/// that is not compiled in is never read.
#[derive(Debug, Clone, Copy)]
pub struct BackendProbes {
    pub cuda: bool,
    pub hipblas: bool,
    pub vulkan: bool,
}

impl BackendProbes {
    /// What the probe for `backend` answered. CPU and Metal need no probe.
    pub open spec fn available(self, backend: GpuBackend) -> bool {
        match backend {
            GpuBackend::Cpu => true,
            GpuBackend::Metal => true,
            GpuBackend::Cuda => self.cuda,
            GpuBackend::HipBlas => self.hipblas,
            GpuBackend::Vulkan => self.vulkan,
        }
    }
}

/// Rank of a backend in the order of preference; lower is preferred.
pub open spec fn preference(backend: GpuBackend) -> int {
    match backend {
        GpuBackend::Metal => 0,
        GpuBackend::Cuda => 1,
        GpuBackend::HipBlas => 2,
        GpuBackend::Vulkan => 3,
        GpuBackend::Cpu => 4,
    }
}

/// `backend` is compiled in and its probe found it on the machine.
pub open spec fn usable(build: BuildFeatures, probes: BackendProbes, backend: GpuBackend) -> bool {
    build.has(backend) && probes.available(backend)
}

/// The active backend: the first in the order Metal, CUDA, HIPBlas, Vulkan
/// that is compiled in and available, else the CPU.
pub open spec fn active_backend(build: BuildFeatures, probes: BackendProbes) -> GpuBackend {
    if build.has_metal() {
        GpuBackend::Metal
    } else if build.gpu_cuda && probes.cuda {
        GpuBackend::Cuda
    } else if build.gpu_hipblas && probes.hipblas {
        GpuBackend::HipBlas
    } else if build.has_vulkan() && probes.vulkan {
        GpuBackend::Vulkan
    } else {
        GpuBackend::Cpu
    }
}

/// The backends compiled into a build, the CPU first.
pub open spec fn compiled_backends(build: BuildFeatures) -> Seq<GpuBackend> {
    seq![GpuBackend::Cpu] + (if build.has_metal() {
        seq![GpuBackend::Metal]
    } else {
        seq![]
    }) + (if build.gpu_cuda {
        seq![GpuBackend::Cuda]
    } else {
        seq![]
    }) + (if build.gpu_hipblas {
        seq![GpuBackend::HipBlas]
    } else {
        seq![]
    }) + (if build.has_vulkan() {
        seq![GpuBackend::Vulkan]
    } else {
        seq![]
    })
}

/// The backend to run on.
pub fn detect_active_backend(build: &BuildFeatures, probes: &BackendProbes) -> (backend: GpuBackend)
    ensures
        backend == active_backend(*build, *probes),
{
    if build.metal_compiled() {
        GpuBackend::Metal
    } else if build.gpu_cuda && probes.cuda {
        GpuBackend::Cuda
    } else if build.gpu_hipblas && probes.hipblas {
        GpuBackend::HipBlas
    } else if build.vulkan_compiled() && probes.vulkan {
        GpuBackend::Vulkan
    } else {
        GpuBackend::Cpu
    }
}

/// Every backend compiled into the build, whatever the machine offers.
pub fn get_compiled_backends(build: &BuildFeatures) -> (backends: Vec<GpuBackend>)
    ensures
        backends@ == compiled_backends(*build),
{
    let mut backends: Vec<GpuBackend> = Vec::new();
    backends.push(GpuBackend::Cpu);
    if build.metal_compiled() {
        backends.push(GpuBackend::Metal);
    }
    if build.gpu_cuda {
        backends.push(GpuBackend::Cuda);
    }
    if build.gpu_hipblas {
        backends.push(GpuBackend::HipBlas);
    }
    if build.vulkan_compiled() {
        backends.push(GpuBackend::Vulkan);
    }
    proof {
        assert(backends@ =~= compiled_backends(*build));
    }
    backends
}

/// The probes that decide the active backend, in the order in which they are
/// consulted. A caller that asks them one by one may stop at the first that
/// answers yes.
pub open spec fn probe_order(build: BuildFeatures) -> Seq<GpuBackend> {
    if build.has_metal() {
        seq![]
    } else {
        (if build.gpu_cuda {
            seq![GpuBackend::Cuda]
        } else {
            seq![]
        }) + (if build.gpu_hipblas {
            seq![GpuBackend::HipBlas]
        } else {
            seq![]
        }) + (if build.has_vulkan() {
            seq![GpuBackend::Vulkan]
        } else {
            seq![]
        })
    }
}

/// The probes worth running for a build, in the order of preference.
pub fn probes_to_run(build: &BuildFeatures) -> (order: Vec<GpuBackend>)
    ensures
        order@ == probe_order(*build),
{
    let mut order: Vec<GpuBackend> = Vec::new();
    if !build.metal_compiled() {
        if build.gpu_cuda {
            order.push(GpuBackend::Cuda);
        }
        if build.gpu_hipblas {
            order.push(GpuBackend::HipBlas);
        }
        if build.vulkan_compiled() {
            order.push(GpuBackend::Vulkan);
        }
    }
    proof {
        assert(order@ =~= probe_order(*build));
    }
    order
}

/// The probe to run first, if any is worth running.
pub open spec fn first_probe(build: BuildFeatures) -> Option<GpuBackend> {
    if probe_order(build).len() > 0 {
        Some(probe_order(build)[0])
    } else {
        None
    }
}

/// The probe that follows the probe for `backend` in the order.
pub open spec fn probe_after(build: BuildFeatures, backend: GpuBackend) -> Option<GpuBackend> {
    if build.has_metal() {
        None
    } else {
        match backend {
            GpuBackend::Cuda => if build.gpu_hipblas {
                Some(GpuBackend::HipBlas)
            } else if build.has_vulkan() {
                Some(GpuBackend::Vulkan)
            } else {
                None
            },
            GpuBackend::HipBlas => if build.has_vulkan() {
                Some(GpuBackend::Vulkan)
            } else {
                None
            },
            _ => None,
        }
    }
}

/// The probe to run next: the first when none was run, none after a probe
/// that answered yes, else the one that follows the probe just run.
pub open spec fn next_probe_spec(build: BuildFeatures, last: Option<(GpuBackend, bool)>) -> Option<
    GpuBackend,
> {
    match last {
        None => first_probe(build),
        Some((backend, available)) => if available {
            None
        } else {
            probe_after(build, backend)
        },
    }
}

/// The probe to run next, given the probe just run and its answer.
pub fn next_probe(build: &BuildFeatures, last: Option<(GpuBackend, bool)>) -> (next: Option<
    GpuBackend,
>)
    ensures
        next == next_probe_spec(*build, last),
{
    let vulkan = build.vulkan_compiled();
    if build.metal_compiled() {
        return None;
    }
    match last {
        None => {
            if build.gpu_cuda {
                Some(GpuBackend::Cuda)
            } else if build.gpu_hipblas {
                Some(GpuBackend::HipBlas)
            } else if vulkan {
                Some(GpuBackend::Vulkan)
            } else {
                None
            }
        },
        Some((backend, available)) => {
            if available {
                None
            } else {
                match backend {
                    GpuBackend::Cuda => if build.gpu_hipblas {
                        Some(GpuBackend::HipBlas)
                    } else if vulkan {
                        Some(GpuBackend::Vulkan)
                    } else {
                        None
                    },
                    GpuBackend::HipBlas => if vulkan {
                        Some(GpuBackend::Vulkan)
                    } else {
                        None
                    },
                    _ => None,
                }
            }
        },
    }
}

/// How far the Vulkan capability handshake got.
#[derive(Debug, Clone, Copy)]
pub enum VulkanProbe {
    /// Neither the diagnostic tool nor a loader library was found.
    LibraryMissing,
    /// The loader library would not load.
    LoaderFailed,
    /// No minimal instance could be created.
    InstanceFailed,
    /// The physical devices could not be listed.
    EnumerationFailed,
    /// The handshake went through and found this many physical devices.
    Devices(usize),
}

/// Whether CUDA is there: the vendor's tool ran and reported success.
/// `tool` is `None` where the tool could not be run.
pub fn is_cuda_available(tool: Option<bool>) -> (available: bool)
    ensures
        available == (tool == Some(true)),
{
    match tool {
        Some(succeeded) => succeeded,
        None => false,
    }
}

/// Whether HIPBlas is there: the ROCm directory exists, and the ROCm tool,
/// where it could be run at all, reported success. `rocminfo` is `None`
/// where the tool could not be run; the directory alone then counts.
pub fn is_hipblas_available(rocm_dir_found: bool, rocminfo: Option<bool>) -> (available: bool)
    ensures
        available == (rocm_dir_found && (rocminfo matches Some(ok) ==> ok)),
{
    if !rocm_dir_found {
        return false;
    }
    match rocminfo {
        Some(ok) => ok,
        None => true,
    }
}

/// The quick check for Vulkan: the diagnostic tool ran, or a loader library
/// lies at one of the known paths.
pub fn quick_vulkan_check(tool_succeeded: bool, library_found: bool) -> (present: bool)
    ensures
        present == (tool_succeeded || library_found),
{
    tool_succeeded || library_found
}

/// Vulkan works on this machine: the handshake went through and found at
/// least one physical device.
pub open spec fn vulkan_works(probe: VulkanProbe) -> bool {
    probe matches VulkanProbe::Devices(count) && count > 0
}

/// Whether Vulkan is available, from how far the handshake got.
pub fn is_vulkan_available(probe: VulkanProbe) -> (available: bool)
    ensures
        available == vulkan_works(probe),
{
    match probe {
        VulkanProbe::Devices(count) => count > 0,
        _ => false,
    }
}

/// The answer to "may the full application start?": always on macOS, where
/// Metal is built in; what the Vulkan probe said where Vulkan is compiled
/// in; no elsewhere.
pub open spec fn startup_check(build: BuildFeatures, vulkan_available: bool) -> bool {
    if build.has_metal() {
        true
    } else if build.has_vulkan() {
        vulkan_available
    } else {
        false
    }
}

/// Whether acceleration is there at startup.
pub fn is_vulkan_available_at_startup(build: &BuildFeatures, vulkan_available: bool) -> (ready:
    bool)
    ensures
        ready == startup_check(*build, vulkan_available),
{
    if build.metal_compiled() {
        true
    } else if build.vulkan_compiled() {
        vulkan_available
    } else {
        false
    }
}

/// Acceleration support of a build on a machine.
#[derive(Debug, Clone)]
pub struct GpuInfo {
    /// The backend in use.
    pub active_backend: GpuBackend,
    /// Every backend compiled in.
    pub compiled_backends: Vec<GpuBackend>,
    /// Whether the active backend is anything but the CPU.
    pub hardware_accelerated: bool,
}

impl GpuInfo {
    /// The report for a build and what its probes answered.
    pub fn detect(build: &BuildFeatures, probes: &BackendProbes) -> (info: Self)
        ensures
            info.active_backend == active_backend(*build, *probes),
            info.compiled_backends@ == compiled_backends(*build),
            info.hardware_accelerated == !(active_backend(*build, *probes) is Cpu),
    {
        let active_backend = detect_active_backend(build, probes);
        let compiled_backends = get_compiled_backends(build);
        let hardware_accelerated = active_backend != GpuBackend::Cpu;
        GpuInfo { active_backend, compiled_backends, hardware_accelerated }
    }
}

// ---------------------------------------------------------------------------
// Laws
// ---------------------------------------------------------------------------

/// The CPU is compiled into every build, and listed first.
pub proof fn law_cpu_always_compiled(build: BuildFeatures)
    ensures
        compiled_backends(build).len() >= 1,
        compiled_backends(build)[0] == GpuBackend::Cpu,
        compiled_backends(build).contains(GpuBackend::Cpu),
{
    assert(compiled_backends(build)[0] == GpuBackend::Cpu);
}

/// The list of compiled backends holds exactly the backends compiled in.
pub proof fn law_compiled_backends_exact(build: BuildFeatures, backend: GpuBackend)
    ensures
        compiled_backends(build).contains(backend) <==> build.has(backend),
{
    let list = compiled_backends(build);
    let metal: int = if build.has_metal() { 1 } else { 0 };
    let cuda: int = if build.gpu_cuda { 1 } else { 0 };
    let hip: int = if build.gpu_hipblas { 1 } else { 0 };
    assert(list[0] == GpuBackend::Cpu);
    if build.has_metal() {
        assert(list[1] == GpuBackend::Metal);
    }
    if build.gpu_cuda {
        assert(list[1 + metal] == GpuBackend::Cuda);
    }
    if build.gpu_hipblas {
        assert(list[1 + metal + cuda] == GpuBackend::HipBlas);
    }
    if build.has_vulkan() {
        assert(list[1 + metal + cuda + hip] == GpuBackend::Vulkan);
    }
}

/// The active backend is compiled in and available, and no backend that is
/// preferred to it is both.
pub proof fn law_active_backend_is_first_usable(
    build: BuildFeatures,
    probes: BackendProbes,
    other: GpuBackend,
)
    ensures
        usable(build, probes, active_backend(build, probes)),
        compiled_backends(build).contains(active_backend(build, probes)),
        usable(build, probes, other) ==> preference(active_backend(build, probes)) <= preference(
            other,
        ),
{
    law_compiled_backends_exact(build, active_backend(build, probes));
}

/// With nothing compiled in but the CPU, the CPU is the active backend
/// whatever the probes say.
pub proof fn law_cpu_only_build(build: BuildFeatures, probes: BackendProbes)
    requires
        !build.has_metal(),
        !build.gpu_cuda,
        !build.gpu_hipblas,
        !build.has_vulkan(),
    ensures
        active_backend(build, probes) == GpuBackend::Cpu,
        compiled_backends(build) == seq![GpuBackend::Cpu],
{
    assert(compiled_backends(build) =~= seq![GpuBackend::Cpu]);
}

/// Probes are asked in the order of preference, each of them once: what
/// follows a probe comes later in the order, and the first probe opens it.
pub proof fn law_probes_follow_the_order(build: BuildFeatures, backend: GpuBackend)
    ensures
        first_probe(build) matches Some(first) ==> probe_order(build).contains(first),
        probe_after(build, backend) matches Some(next) ==> probe_order(build).contains(next)
            && preference(backend) < preference(next),
{
    let order = probe_order(build);
    let cuda: int = if build.gpu_cuda { 1 } else { 0 };
    let hip: int = if build.gpu_hipblas { 1 } else { 0 };
    if !build.has_metal() {
        if build.gpu_cuda {
            assert(order[0] == GpuBackend::Cuda);
        }
        if build.gpu_hipblas {
            assert(order[cuda] == GpuBackend::HipBlas);
        }
        if build.has_vulkan() {
            assert(order[cuda + hip] == GpuBackend::Vulkan);
        }
    }
}

/// A probe that answers yes ends the run, and its backend is the active one
/// when every probe that is preferred to it was not asked or answered no.
pub proof fn law_first_yes_is_active(build: BuildFeatures, probes: BackendProbes, backend: GpuBackend)
    requires
        probe_order(build).contains(backend),
        probes.available(backend),
        forall|other: GpuBackend|
            probe_order(build).contains(other) && preference(other) < preference(backend)
                ==> !probes.available(other),
    ensures
        next_probe_spec(build, Some((backend, true))) is None,
        active_backend(build, probes) == backend,
{
    let order = probe_order(build);
    let cuda: int = if build.gpu_cuda { 1 } else { 0 };
    let hip: int = if build.gpu_hipblas { 1 } else { 0 };
    let at = choose|i: int| 0 <= i < order.len() && order[i] == backend;
    assert(!build.has_metal());
    if build.gpu_cuda {
        assert(order[0] == GpuBackend::Cuda);
        assert(order.contains(GpuBackend::Cuda));
    }
    if build.gpu_hipblas {
        assert(order[cuda] == GpuBackend::HipBlas);
        assert(order.contains(GpuBackend::HipBlas));
    }
    if build.has_vulkan() {
        assert(order[cuda + hip] == GpuBackend::Vulkan);
        assert(order.contains(GpuBackend::Vulkan));
    }
    assert(order[at] == backend);
    assert(backend == GpuBackend::Cuda || backend == GpuBackend::HipBlas || backend
        == GpuBackend::Vulkan);
    assert(build.has(backend));
    if build.gpu_cuda && backend != GpuBackend::Cuda {
        assert(preference(GpuBackend::Cuda) < preference(backend));
        assert(!probes.available(GpuBackend::Cuda));
    }
    if build.gpu_hipblas && backend == GpuBackend::Vulkan {
        assert(preference(GpuBackend::HipBlas) < preference(backend));
        assert(!probes.available(GpuBackend::HipBlas));
    }
}

} // verus!
