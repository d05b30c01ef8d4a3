//! The system health report: what the machine is, whether acceleration is
//! there, and how to install it where it is not.

use crate::text::same_text;
use crate::whisper::gpu::{
    active_backend, detect_active_backend, BackendProbes, BuildFeatures, GpuBackend, TargetOs,
};
use vstd::prelude::*;
use vstd::string::*;

verus! {

/// The characters of each string of a list.
pub open spec fn texts(list: Seq<String>) -> Seq<Seq<char>> {
    list.map_values(|s: String| s@)
}

/// The characters of an optional string.
pub open spec fn optional_text(text: Option<String>) -> Option<Seq<char>> {
    match text {
        Some(s) => Some(s@),
        None => None,
    }
}

/// What is known of the operating system.
#[derive(Debug, Clone)]
pub struct OsInfo {
    /// `"windows"`, `"linux"`, `"macos"` or `"unknown"`.
    pub platform: String,
    /// Version of the system, where it could be found.
    pub version: Option<String>,
    /// Linux distribution, in lower case.
    pub distribution: Option<String>,
}

/// Where to download a driver.
#[derive(Debug, Clone)]
pub struct DownloadLink {
    pub name: String,
    pub url: String,
    pub description: String,
}

/// A download link as plain text.
pub struct LinkText {
    pub name: Seq<char>,
    pub url: Seq<char>,
    pub description: Seq<char>,
}

impl View for DownloadLink {
    type V = LinkText;

    open spec fn view(&self) -> LinkText {
        LinkText { name: self.name@, url: self.url@, description: self.description@ }
    }
}

/// How to get Vulkan onto a machine.
#[derive(Debug, Clone)]
pub struct VulkanInstallGuide {
    pub title: String,
    pub description: String,
    /// What to do, step by step.
    pub steps: Vec<String>,
    /// Where to download drivers; used on Windows.
    pub download_urls: Vec<DownloadLink>,
    /// Commands to run in a terminal; used on Linux.
    pub terminal_commands: Option<Vec<String>>,
}

/// An install guide as plain text.
pub struct GuideText {
    pub title: Seq<char>,
    pub description: Seq<char>,
    pub steps: Seq<Seq<char>>,
    pub download_urls: Seq<LinkText>,
    pub terminal_commands: Option<Seq<Seq<char>>>,
}

impl View for VulkanInstallGuide {
    type V = GuideText;

    open spec fn view(&self) -> GuideText {
        GuideText {
            title: self.title@,
            description: self.description@,
            steps: texts(self.steps@),
            download_urls: self.download_urls@.map_values(|link: DownloadLink| link@),
            terminal_commands: match self.terminal_commands {
                Some(commands) => Some(texts(commands@)),
                None => None,
            },
        }
    }
}

/// The families of Linux distributions that share a package manager.
#[derive(Debug, Clone, Copy, PartialEq, Eq, Structural)]
pub enum DistroFamily {
    Debian,
    Fedora,
    Arch,
    Suse,
    /// Any other distribution, or none that is known.
    Generic,
}

/// The family of a distribution, by its identifier.
pub open spec fn family_of(distribution: Option<Seq<char>>) -> DistroFamily {
    match distribution {
        None => DistroFamily::Generic,
        Some(id) => if id == "ubuntu"@ || id == "debian"@ || id == "linuxmint"@ || id == "pop"@ {
            DistroFamily::Debian
        } else if id == "fedora"@ || id == "rhel"@ || id == "centos"@ || id == "rocky"@ || id
            == "almalinux"@ {
            DistroFamily::Fedora
        } else if id == "arch"@ || id == "manjaro"@ || id == "endeavouros"@ {
            DistroFamily::Arch
        } else if id == "opensuse"@ || id == "suse"@ {
            DistroFamily::Suse
        } else {
            DistroFamily::Generic
        },
    }
}

/// The family of a distribution, by its identifier.
pub fn distro_family(distribution: Option<&str>) -> (family: DistroFamily)
    ensures
        family == family_of(
            match distribution {
                Some(id) => Some(id@),
                None => None,
            },
        ),
{
    match distribution {
        None => DistroFamily::Generic,
        Some(id) => {
            if same_text(id, "ubuntu") || same_text(id, "debian") || same_text(id, "linuxmint")
                || same_text(id, "pop") {
                DistroFamily::Debian
            } else if same_text(id, "fedora") || same_text(id, "rhel") || same_text(id, "centos")
                || same_text(id, "rocky") || same_text(id, "almalinux") {
                DistroFamily::Fedora
            } else if same_text(id, "arch") || same_text(id, "manjaro") || same_text(
                id,
                "endeavouros",
            ) {
                DistroFamily::Arch
            } else if same_text(id, "opensuse") || same_text(id, "suse") {
                DistroFamily::Suse
            } else {
                DistroFamily::Generic
            }
        },
    }
}

/// The guide for Windows.
pub open spec fn windows_guide() -> GuideText {
    GuideText {
        title: "Install Vulkan on Windows"@,
        description: "Modern GPU drivers include Vulkan automatically. Update your graphics drivers to enable GPU acceleration."@,
        steps: seq![
            "Download the latest drivers for your graphics card"@,
            "Install the drivers and restart your computer"@,
            "Relaunch S2Tui to enable GPU acceleration"@,
        ],
        download_urls: seq![
            LinkText {
                name: "NVIDIA GeForce Drivers"@,
                url: "https://www.nvidia.com/Download/index.aspx"@,
                description: "For NVIDIA GeForce and Quadro cards"@,
            },
            LinkText {
                name: "AMD Radeon Drivers"@,
                url: "https://www.amd.com/en/support"@,
                description: "For AMD Radeon graphics cards"@,
            },
            LinkText {
                name: "Intel Graphics Drivers"@,
                url: "https://www.intel.com/content/www/us/en/download-center/home.html"@,
                description: "For Intel integrated GPUs (UHD, Iris)"@,
            },
        ],
        terminal_commands: None,
    }
}

/// The title of the Linux guide for a family of distributions.
pub open spec fn linux_title(family: DistroFamily) -> Seq<char> {
    match family {
        DistroFamily::Debian => "Install Vulkan on Ubuntu/Debian"@,
        DistroFamily::Fedora => "Install Vulkan on Fedora/RHEL"@,
        DistroFamily::Arch => "Install Vulkan on Arch Linux"@,
        DistroFamily::Suse => "Install Vulkan on openSUSE"@,
        DistroFamily::Generic => "Install Vulkan on Linux"@,
    }
}

/// The commands of the Linux guide for a family of distributions.
pub open spec fn linux_commands(family: DistroFamily) -> Seq<Seq<char>> {
    match family {
        DistroFamily::Debian => seq![
            "sudo apt update"@,
            "sudo apt install -y libvulkan1 vulkan-tools mesa-vulkan-drivers"@,
        ],
        DistroFamily::Fedora => seq![
            "sudo dnf install -y vulkan-loader vulkan-tools mesa-vulkan-drivers"@,
        ],
        DistroFamily::Arch => seq!["sudo pacman -S vulkan-icd-loader vulkan-tools mesa"@],
        DistroFamily::Suse => seq![
            "sudo zypper install libvulkan1 vulkan-tools Mesa-vulkan-drivers"@,
        ],
        DistroFamily::Generic => seq![
            "# For Debian/Ubuntu:"@,
            "sudo apt install -y libvulkan1 vulkan-tools mesa-vulkan-drivers"@,
            "# For Fedora:"@,
            "sudo dnf install -y vulkan-loader vulkan-tools mesa-vulkan-drivers"@,
        ],
    }
}

/// The guide for a Linux distribution.
pub open spec fn linux_guide(distribution: Option<Seq<char>>) -> GuideText {
    GuideText {
        title: linux_title(family_of(distribution)),
        description: "Install Vulkan packages using your package manager."@,
        steps: seq!["Open a terminal"@, "Run the commands below"@, "Relaunch S2Tui"@],
        download_urls: seq![],
        terminal_commands: Some(linux_commands(family_of(distribution))),
    }
}

/// The guide for a platform without Vulkan.
pub open spec fn generic_guide() -> GuideText {
    GuideText {
        title: "GPU Acceleration"@,
        description: "GPU acceleration is not available on this platform. The application will use CPU mode."@,
        steps: seq!["No action required - CPU mode will be used automatically"@],
        download_urls: seq![],
        terminal_commands: None,
    }
}

/// The guide for a system.
pub open spec fn install_guide(platform: Seq<char>, distribution: Option<Seq<char>>) -> GuideText {
    if platform == "windows"@ {
        windows_guide()
    } else if platform == "linux"@ {
        linux_guide(distribution)
    } else {
        generic_guide()
    }
}

/// A list of one string.
fn one_text(a: &str) -> (list: Vec<String>)
    ensures
        texts(list@) == seq![a@],
{
    let mut list: Vec<String> = Vec::new();
    list.push(String::from_str(a));
    proof {
        assert(texts(list@) =~= seq![a@]);
    }
    list
}

/// A list of two strings.
fn two_texts(a: &str, b: &str) -> (list: Vec<String>)
    ensures
        texts(list@) == seq![a@, b@],
{
    let mut list: Vec<String> = Vec::new();
    list.push(String::from_str(a));
    list.push(String::from_str(b));
    proof {
        assert(texts(list@) =~= seq![a@, b@]);
    }
    list
}

/// A list of three strings.
fn three_texts(a: &str, b: &str, c: &str) -> (list: Vec<String>)
    ensures
        texts(list@) == seq![a@, b@, c@],
{
    let mut list: Vec<String> = Vec::new();
    list.push(String::from_str(a));
    list.push(String::from_str(b));
    list.push(String::from_str(c));
    proof {
        assert(texts(list@) =~= seq![a@, b@, c@]);
    }
    list
}

/// A list of four strings.
fn four_texts(a: &str, b: &str, c: &str, d: &str) -> (list: Vec<String>)
    ensures
        texts(list@) == seq![a@, b@, c@, d@],
{
    let mut list: Vec<String> = Vec::new();
    list.push(String::from_str(a));
    list.push(String::from_str(b));
    list.push(String::from_str(c));
    list.push(String::from_str(d));
    proof {
        assert(texts(list@) =~= seq![a@, b@, c@, d@]);
    }
    list
}

/// A download link.
fn link(name: &str, url: &str, description: &str) -> (link: DownloadLink)
    ensures
        link@ == (LinkText { name: name@, url: url@, description: description@ }),
{
    DownloadLink {
        name: String::from_str(name),
        url: String::from_str(url),
        description: String::from_str(description),
    }
}

/// The guide for Windows: update the graphics drivers.
pub fn generate_windows_guide() -> (guide: VulkanInstallGuide)
    ensures
        guide@ == windows_guide(),
{
    let mut download_urls: Vec<DownloadLink> = Vec::new();
    download_urls.push(
        link(
            "NVIDIA GeForce Drivers",
            "https://www.nvidia.com/Download/index.aspx",
            "For NVIDIA GeForce and Quadro cards",
        ),
    );
    download_urls.push(
        link("AMD Radeon Drivers", "https://www.amd.com/en/support", "For AMD Radeon graphics cards"),
    );
    download_urls.push(
        link(
            "Intel Graphics Drivers",
            "https://www.intel.com/content/www/us/en/download-center/home.html",
            "For Intel integrated GPUs (UHD, Iris)",
        ),
    );
    let guide = VulkanInstallGuide {
        title: String::from_str("Install Vulkan on Windows"),
        description: String::from_str(
            "Modern GPU drivers include Vulkan automatically. Update your graphics drivers to enable GPU acceleration.",
        ),
        steps: three_texts(
            "Download the latest drivers for your graphics card",
            "Install the drivers and restart your computer",
            "Relaunch S2Tui to enable GPU acceleration",
        ),
        download_urls,
        terminal_commands: None,
    };
    proof {
        assert(guide@.download_urls =~= windows_guide().download_urls);
    }
    guide
}

/// The guide for Linux: the packages to install with the distribution's
/// package manager.
pub fn generate_linux_guide(distribution: Option<&str>) -> (guide: VulkanInstallGuide)
    ensures
        guide@ == linux_guide(
            match distribution {
                Some(id) => Some(id@),
                None => None,
            },
        ),
{
    let family = distro_family(distribution);
    let title: &str = match family {
        DistroFamily::Debian => "Install Vulkan on Ubuntu/Debian",
        DistroFamily::Fedora => "Install Vulkan on Fedora/RHEL",
        DistroFamily::Arch => "Install Vulkan on Arch Linux",
        DistroFamily::Suse => "Install Vulkan on openSUSE",
        DistroFamily::Generic => "Install Vulkan on Linux",
    };
    let commands: Vec<String> = match family {
        DistroFamily::Debian => two_texts(
            "sudo apt update",
            "sudo apt install -y libvulkan1 vulkan-tools mesa-vulkan-drivers",
        ),
        DistroFamily::Fedora => one_text(
            "sudo dnf install -y vulkan-loader vulkan-tools mesa-vulkan-drivers",
        ),
        DistroFamily::Arch => one_text("sudo pacman -S vulkan-icd-loader vulkan-tools mesa"),
        DistroFamily::Suse => one_text(
            "sudo zypper install libvulkan1 vulkan-tools Mesa-vulkan-drivers",
        ),
        DistroFamily::Generic => four_texts(
            "# For Debian/Ubuntu:",
            "sudo apt install -y libvulkan1 vulkan-tools mesa-vulkan-drivers",
            "# For Fedora:",
            "sudo dnf install -y vulkan-loader vulkan-tools mesa-vulkan-drivers",
        ),
    };
    let guide = VulkanInstallGuide {
        title: String::from_str(title),
        description: String::from_str("Install Vulkan packages using your package manager."),
        steps: three_texts("Open a terminal", "Run the commands below", "Relaunch S2Tui"),
        download_urls: Vec::new(),
        terminal_commands: Some(commands),
    };
    proof {
        assert(guide@.download_urls =~= Seq::<LinkText>::empty());
    }
    guide
}

/// The guide for a platform without Vulkan: nothing to do.
pub fn generate_generic_guide() -> (guide: VulkanInstallGuide)
    ensures
        guide@ == generic_guide(),
{
    let guide = VulkanInstallGuide {
        title: String::from_str("GPU Acceleration"),
        description: String::from_str(
            "GPU acceleration is not available on this platform. The application will use CPU mode.",
        ),
        steps: one_text("No action required - CPU mode will be used automatically"),
        download_urls: Vec::new(),
        terminal_commands: None,
    };
    proof {
        assert(guide@.download_urls =~= Seq::<LinkText>::empty());
    }
    guide
}

/// The guide for a system, by its platform.
pub fn generate_install_guide(os: &OsInfo) -> (guide: VulkanInstallGuide)
    ensures
        guide@ == install_guide(os.platform@, optional_text(os.distribution)),
{
    if same_text(os.platform.as_str(), "windows") {
        generate_windows_guide()
    } else if same_text(os.platform.as_str(), "linux") {
        match &os.distribution {
            Some(id) => generate_linux_guide(Some(id.as_str())),
            None => generate_linux_guide(None),
        }
    } else {
        generate_generic_guide()
    }
}

/// The name of a platform.
pub open spec fn platform_name(target_os: TargetOs) -> Seq<char> {
    match target_os {
        TargetOs::Windows => "windows"@,
        TargetOs::Linux => "linux"@,
        TargetOs::MacOs => "macos"@,
        TargetOs::Other => "unknown"@,
    }
}

/// What is known of the system: the platform by its name, the version as it
/// was found, the distribution only on Linux.
pub fn detect_os_info(target_os: TargetOs, version: Option<String>, distribution: Option<String>) -> (os:
    OsInfo)
    ensures
        os.platform@ == platform_name(target_os),
        os.version == version,
        os.distribution == (if target_os is Linux {
            distribution
        } else {
            None
        }),
{
    let platform: &str = match target_os {
        TargetOs::Windows => "windows",
        TargetOs::Linux => "linux",
        TargetOs::MacOs => "macos",
        TargetOs::Other => "unknown",
    };
    let distribution = match target_os {
        TargetOs::Linux => distribution,
        _ => None,
    };
    OsInfo { platform: String::from_str(platform), version, distribution }
}

/// The full report on acceleration.
#[derive(Debug, Clone)]
pub struct SystemHealthCheck {
    /// Vulkan is compiled in and works on this machine.
    pub vulkan_available: bool,
    /// The Vulkan version found, if Vulkan is available.
    pub vulkan_version: Option<String>,
    /// The active backend.
    pub gpu_backend: GpuBackend,
    pub os_info: OsInfo,
    /// How to install Vulkan, where it is missing.
    pub install_guide: Option<VulkanInstallGuide>,
    /// The application also runs on the CPU alone. Always true.
    pub can_run_without_vulkan: bool,
}

/// Puts the report together. A version is reported only with Vulkan
/// available; a guide is offered only without it, and never on macOS.
pub fn check_system_health(
    os_info: OsInfo,
    build: &BuildFeatures,
    probes: &BackendProbes,
    vulkan_version: Option<String>,
) -> (health: SystemHealthCheck)
    ensures
        health.vulkan_available == (build.has_vulkan() && probes.vulkan),
        health.vulkan_version == (if health.vulkan_available {
            vulkan_version
        } else {
            None
        }),
        health.gpu_backend == active_backend(*build, *probes),
        health.os_info == os_info,
        health.can_run_without_vulkan,
        health.vulkan_available || os_info.platform@ == "macos"@ ==> health.install_guide is None,
        !health.vulkan_available && os_info.platform@ != "macos"@ ==> (
        health.install_guide matches Some(guide) && guide@ == install_guide(
            os_info.platform@,
            optional_text(os_info.distribution),
        )),
{
    let gpu_backend = detect_active_backend(build, probes);
    let vulkan_available = build.vulkan_compiled() && probes.vulkan;
    let vulkan_version = if vulkan_available {
        vulkan_version
    } else {
        None
    };
    let install_guide = if !vulkan_available && !same_text(os_info.platform.as_str(), "macos") {
        Some(generate_install_guide(&os_info))
    } else {
        None
    };
    SystemHealthCheck {
        vulkan_available,
        vulkan_version,
        gpu_backend,
        os_info,
        install_guide,
        can_run_without_vulkan: true,
    }
}

} // verus!
