//! Toolchain availability decisions: which platform and package manager the
//! host offers, which install command suits a missing runtime there, and the
//! install hint shown to the user. The probes themselves (does a command
//! exist on PATH, what does the OS release file say) are performed by the
//! surrounding application and handed in as plain values.

use vstd::prelude::*;
use vstd::string::StringExecFns;
use crate::text::{contains_seq, contains_sub, lower_of, str_eq, to_lowercase_str};

verus! {

/// Information about one runtime a pipeline depends on.
#[derive(Clone, Debug)]
pub struct RuntimeInfo {
    pub name: String,
    pub command: String,
    pub download_url: String,
}

/// Platform and package manager information.
#[derive(Clone, Copy, Debug, PartialEq, Eq, Structural)]
pub enum Platform {
    MacOS { has_homebrew: bool },
    Linux { distro: LinuxDistro },
    Windows { has_winget: bool },
    Unknown,
}

/// The package-manager family of a Linux host.
#[derive(Clone, Copy, Debug, PartialEq, Eq, Structural)]
pub enum LinuxDistro {
    Debian,
    Fedora,
    Arch,
    Unknown,
}

/// The operating-system family the application was built for.
#[derive(Clone, Copy, Debug, PartialEq, Eq, Structural)]
pub enum OsFamily {
    MacOs,
    Linux,
    Windows,
    Other,
}

/// What the surrounding application observed about the host: the OS family
/// and the presence of each package manager probed for, plus the OS release
/// file's contents where one was readable.
pub struct PlatformProbe {
    pub os: OsFamily,
    pub has_homebrew: bool,
    pub has_winget: bool,
    pub has_apt: bool,
    pub has_dnf: bool,
    pub has_pacman: bool,
    pub os_release: Option<String>,
}

/// Runtime detection result: whether the runtime is available, and a
/// user-facing install hint when it is not.
#[derive(Clone, Debug)]
pub struct RuntimeCheckResult {
    pub available: bool,
    pub install_hint: Option<String>,
}

impl RuntimeInfo {
    /// The Node.js runtime.
    pub fn node() -> (r: RuntimeInfo)
        ensures
            r.name@ == "Node.js"@,
            r.command@ == "node"@,
            r.download_url@ == "https://nodejs.org/"@,
    {
        RuntimeInfo {
            name: String::from_str("Node.js"),
            command: String::from_str("node"),
            download_url: String::from_str("https://nodejs.org/"),
        }
    }

    /// The Python interpreter.
    pub fn python() -> (r: RuntimeInfo)
        ensures
            r.name@ == "Python"@,
            r.command@ == "python3"@,
            r.download_url@ == "https://www.python.org/downloads/"@,
    {
        RuntimeInfo {
            name: String::from_str("Python"),
            command: String::from_str("python3"),
            download_url: String::from_str("https://www.python.org/downloads/"),
        }
    }

    /// The Rust compiler.
    pub fn rust() -> (r: RuntimeInfo)
        ensures
            r.name@ == "Rust"@,
            r.command@ == "rustc"@,
            r.download_url@ == "https://rustup.rs/"@,
    {
        RuntimeInfo {
            name: String::from_str("Rust"),
            command: String::from_str("rustc"),
            download_url: String::from_str("https://rustup.rs/"),
        }
    }

    /// The Java launcher.
    pub fn java() -> (r: RuntimeInfo)
        ensures
            r.name@ == "Java"@,
            r.command@ == "java"@,
            r.download_url@ == "https://adoptium.net/"@,
    {
        RuntimeInfo {
            name: String::from_str("Java"),
            command: String::from_str("java"),
            download_url: String::from_str("https://adoptium.net/"),
        }
    }

    /// The Java compiler.
    pub fn javac() -> (r: RuntimeInfo)
        ensures
            r.name@ == "Java Compiler"@,
            r.command@ == "javac"@,
            r.download_url@ == "https://adoptium.net/"@,
    {
        RuntimeInfo {
            name: String::from_str("Java Compiler"),
            command: String::from_str("javac"),
            download_url: String::from_str("https://adoptium.net/"),
        }
    }

    /// The Node.js package runner used by the Typescript pipeline.
    pub fn npx() -> (r: RuntimeInfo)
        ensures
            r.name@ == "npx (Node.js)"@,
            r.command@ == "npx"@,
            r.download_url@ == "https://nodejs.org/"@,
    {
        RuntimeInfo {
            name: String::from_str("npx (Node.js)"),
            command: String::from_str("npx"),
            download_url: String::from_str("https://nodejs.org/"),
        }
    }
}

/// The distro family the probes imply: the package managers decide first;
/// otherwise the lowercased OS release contents are scanned for well-known
/// distribution names.
pub open spec fn spec_linux_distro(
    has_apt: bool,
    has_dnf: bool,
    has_pacman: bool,
    os_release: Option<Seq<char>>,
) -> LinuxDistro {
    if has_apt {
        LinuxDistro::Debian
    } else if has_dnf {
        LinuxDistro::Fedora
    } else if has_pacman {
        LinuxDistro::Arch
    } else {
        match os_release {
            Some(content) => {
                let l = lower_of(content);
                if contains_seq(l, "ubuntu"@) || contains_seq(l, "debian"@) || contains_seq(
                    l,
                    "pop"@,
                ) || contains_seq(l, "mint"@) {
                    LinuxDistro::Debian
                } else if contains_seq(l, "fedora"@) || contains_seq(l, "rhel"@) || contains_seq(
                    l,
                    "centos"@,
                ) {
                    LinuxDistro::Fedora
                } else if contains_seq(l, "arch"@) || contains_seq(l, "manjaro"@) || contains_seq(
                    l,
                    "endeavour"@,
                ) || contains_seq(l, "cachyos"@) {
                    LinuxDistro::Arch
                } else {
                    LinuxDistro::Unknown
                }
            },
            None => LinuxDistro::Unknown,
        }
    }
}

/// Decides the distro family from the probes: present package managers are
/// decisive, the OS release contents are the fallback.
pub fn detect_linux_distro(
    has_apt: bool,
    has_dnf: bool,
    has_pacman: bool,
    os_release: &Option<String>,
) -> (r: LinuxDistro)
    ensures
        r == spec_linux_distro(
            has_apt,
            has_dnf,
            has_pacman,
            match os_release {
                Some(c) => Some(c@),
                None => None,
            },
        ),
{
    if has_apt {
        return LinuxDistro::Debian;
    }
    if has_dnf {
        return LinuxDistro::Fedora;
    }
    if has_pacman {
        return LinuxDistro::Arch;
    }
    match os_release {
        Some(content) => {
            let l = to_lowercase_str(content.as_str());
            let ls = l.as_str();
            if contains_sub(ls, "ubuntu") || contains_sub(ls, "debian") || contains_sub(ls, "pop")
                || contains_sub(ls, "mint") {
                LinuxDistro::Debian
            } else if contains_sub(ls, "fedora") || contains_sub(ls, "rhel") || contains_sub(
                ls,
                "centos",
            ) {
                LinuxDistro::Fedora
            } else if contains_sub(ls, "arch") || contains_sub(ls, "manjaro") || contains_sub(
                ls,
                "endeavour",
            ) || contains_sub(ls, "cachyos") {
                LinuxDistro::Arch
            } else {
                LinuxDistro::Unknown
            }
        },
        None => LinuxDistro::Unknown,
    }
}

/// The platform the probes imply.
pub open spec fn spec_platform(probe: PlatformProbe) -> Platform {
    match probe.os {
        OsFamily::MacOs => Platform::MacOS { has_homebrew: probe.has_homebrew },
        OsFamily::Linux => Platform::Linux {
            distro: spec_linux_distro(
                probe.has_apt,
                probe.has_dnf,
                probe.has_pacman,
                match probe.os_release {
                    Some(c) => Some(c@),
                    None => None,
                },
            ),
        },
        OsFamily::Windows => Platform::Windows { has_winget: probe.has_winget },
        OsFamily::Other => Platform::Unknown,
    }
}

/// Decides the current platform and available package manager from what the
/// surrounding application observed about the host.
pub fn detect_platform(probe: &PlatformProbe) -> (r: Platform)
    ensures
        r == spec_platform(*probe),
{
    match probe.os {
        OsFamily::MacOs => Platform::MacOS { has_homebrew: probe.has_homebrew },
        OsFamily::Linux => {
            let distro = detect_linux_distro(
                probe.has_apt,
                probe.has_dnf,
                probe.has_pacman,
                &probe.os_release,
            );
            Platform::Linux { distro }
        },
        OsFamily::Windows => Platform::Windows { has_winget: probe.has_winget },
        OsFamily::Other => Platform::Unknown,
    }
}

/// The install command suiting a runtime on a platform, where one is known.
pub open spec fn spec_install_command(cmd: Seq<char>, platform: Platform) -> Option<Seq<char>> {
    if cmd == "node"@ || cmd == "npx"@ {
        match platform {
            Platform::MacOS { has_homebrew: true } => Some("brew install node"@),
            Platform::Linux { distro: LinuxDistro::Debian } => Some("sudo apt install nodejs npm"@),
            Platform::Linux { distro: LinuxDistro::Fedora } => Some("sudo dnf install nodejs npm"@),
            Platform::Linux { distro: LinuxDistro::Arch } => Some("sudo pacman -S nodejs npm"@),
            Platform::Windows { has_winget: true } => Some("winget install OpenJS.NodeJS"@),
            _ => None,
        }
    } else if cmd == "python3"@ {
        match platform {
            Platform::MacOS { has_homebrew: true } => Some("brew install python"@),
            Platform::Linux { distro: LinuxDistro::Debian } => Some("sudo apt install python3"@),
            Platform::Linux { distro: LinuxDistro::Fedora } => Some("sudo dnf install python3"@),
            Platform::Linux { distro: LinuxDistro::Arch } => Some("sudo pacman -S python"@),
            Platform::Windows { has_winget: true } => Some("winget install Python.Python.3.12"@),
            _ => None,
        }
    } else if cmd == "rustc"@ {
        match platform {
            Platform::MacOS { has_homebrew: true } => Some("brew install rust"@),
            Platform::Linux { distro: LinuxDistro::Arch } => Some("sudo pacman -S rust"@),
            Platform::Linux { distro: _ } => Some(
                "curl --proto '=https' --tlsv1.2 -sSf https://sh.rustup.rs | sh"@,
            ),
            Platform::Windows { has_winget: true } => Some("winget install Rustlang.Rustup"@),
            _ => None,
        }
    } else if cmd == "java"@ || cmd == "javac"@ {
        match platform {
            Platform::MacOS { has_homebrew: true } => Some("brew install openjdk"@),
            Platform::Linux { distro: LinuxDistro::Debian } => Some(
                "sudo apt install default-jdk"@,
            ),
            Platform::Linux { distro: LinuxDistro::Fedora } => Some(
                "sudo dnf install java-latest-openjdk-devel"@,
            ),
            Platform::Linux { distro: LinuxDistro::Arch } => Some("sudo pacman -S jdk-openjdk"@),
            Platform::Windows { has_winget: true } => Some(
                "winget install EclipseAdoptium.Temurin.21.JDK"@,
            ),
            _ => None,
        }
    } else {
        None
    }
}

/// Picks the install command for a runtime on a platform, where one is
/// known.
pub fn get_install_command(runtime: &RuntimeInfo, platform: &Platform) -> (r: Option<String>)
    ensures
        match r {
            Some(s) => spec_install_command(runtime.command@, *platform) == Some(s@),
            None => spec_install_command(runtime.command@, *platform) is None,
        },
{
    let cmd = runtime.command.as_str();
    if str_eq(cmd, "node") || str_eq(cmd, "npx") {
        match platform {
            Platform::MacOS { has_homebrew: true } => Some(String::from_str("brew install node")),
            Platform::Linux { distro: LinuxDistro::Debian } => Some(
                String::from_str("sudo apt install nodejs npm"),
            ),
            Platform::Linux { distro: LinuxDistro::Fedora } => Some(
                String::from_str("sudo dnf install nodejs npm"),
            ),
            Platform::Linux { distro: LinuxDistro::Arch } => Some(
                String::from_str("sudo pacman -S nodejs npm"),
            ),
            Platform::Windows { has_winget: true } => Some(
                String::from_str("winget install OpenJS.NodeJS"),
            ),
            _ => None,
        }
    } else if str_eq(cmd, "python3") {
        match platform {
            Platform::MacOS { has_homebrew: true } => Some(String::from_str("brew install python")),
            Platform::Linux { distro: LinuxDistro::Debian } => Some(
                String::from_str("sudo apt install python3"),
            ),
            Platform::Linux { distro: LinuxDistro::Fedora } => Some(
                String::from_str("sudo dnf install python3"),
            ),
            Platform::Linux { distro: LinuxDistro::Arch } => Some(
                String::from_str("sudo pacman -S python"),
            ),
            Platform::Windows { has_winget: true } => Some(
                String::from_str("winget install Python.Python.3.12"),
            ),
            _ => None,
        }
    } else if str_eq(cmd, "rustc") {
        match platform {
            Platform::MacOS { has_homebrew: true } => Some(String::from_str("brew install rust")),
            Platform::Linux { distro: LinuxDistro::Arch } => Some(
                String::from_str("sudo pacman -S rust"),
            ),
            Platform::Linux { distro: _ } => Some(
                String::from_str("curl --proto '=https' --tlsv1.2 -sSf https://sh.rustup.rs | sh"),
            ),
            Platform::Windows { has_winget: true } => Some(
                String::from_str("winget install Rustlang.Rustup"),
            ),
            _ => None,
        }
    } else if str_eq(cmd, "java") || str_eq(cmd, "javac") {
        match platform {
            Platform::MacOS { has_homebrew: true } => Some(String::from_str("brew install openjdk")),
            Platform::Linux { distro: LinuxDistro::Debian } => Some(
                String::from_str("sudo apt install default-jdk"),
            ),
            Platform::Linux { distro: LinuxDistro::Fedora } => Some(
                String::from_str("sudo dnf install java-latest-openjdk-devel"),
            ),
            Platform::Linux { distro: LinuxDistro::Arch } => Some(
                String::from_str("sudo pacman -S jdk-openjdk"),
            ),
            Platform::Windows { has_winget: true } => Some(
                String::from_str("winget install EclipseAdoptium.Temurin.21.JDK"),
            ),
            _ => None,
        }
    } else {
        None
    }
}

/// The user-facing install hint: the error line naming the runtime, the
/// install command where one is known, and the download address.
pub open spec fn spec_install_hint(
    name: Seq<char>,
    url: Seq<char>,
    cmd: Option<Seq<char>>,
) -> Seq<char> {
    "Error: "@ + name + " is not installed\n\n"@ + (match cmd {
        Some(c) => "To install "@ + name + " on your system:\n"@ + "  "@ + c + "\n\n"@,
        None => Seq::<char>::empty(),
    }) + "Or download from: "@ + url + "\n"@
}

/// Formats the user-friendly install hint message for a missing runtime.
pub fn format_install_hint(runtime: &RuntimeInfo, install_cmd: Option<String>) -> (r: String)
    ensures
        r@ == spec_install_hint(
            runtime.name@,
            runtime.download_url@,
            match install_cmd {
                Some(c) => Some(c@),
                None => None,
            },
        ),
{
    let mut hint = String::from_str("Error: ");
    hint.append(runtime.name.as_str());
    hint.append(" is not installed\n\n");
    match &install_cmd {
        Some(cmd) => {
            hint.append("To install ");
            hint.append(runtime.name.as_str());
            hint.append(" on your system:\n");
            hint.append("  ");
            hint.append(cmd.as_str());
            hint.append("\n\n");
        },
        None => {},
    }
    hint.append("Or download from: ");
    hint.append(runtime.download_url.as_str());
    hint.append("\n");
    proof {
        assert(hint@ =~= spec_install_hint(
            runtime.name@,
            runtime.download_url@,
            match install_cmd {
                Some(c) => Some(c@),
                None => None,
            },
        ));
    }
    hint
}

/// Checks a runtime: available runtimes need no hint; for a missing one the
/// hint is formatted from the platform's install command, if any, and the
/// runtime's download address.
pub fn check_runtime(runtime: &RuntimeInfo, available: bool, probe: &PlatformProbe) -> (r:
    RuntimeCheckResult)
    ensures
        r.available == available,
        available ==> r.install_hint is None,
        !available ==> (r.install_hint matches Some(h) && h@ == spec_install_hint(
            runtime.name@,
            runtime.download_url@,
            spec_install_command(runtime.command@, spec_platform(*probe)),
        )),
{
    if available {
        return RuntimeCheckResult { available: true, install_hint: None };
    }
    let platform = detect_platform(probe);
    let install_cmd = get_install_command(runtime, &platform);
    let ghost cmd_view = match &install_cmd {
        Some(c) => Some(c@),
        None => None::<Seq<char>>,
    };
    let hint = format_install_hint(runtime, install_cmd);
    proof {
        assert(cmd_view == spec_install_command(runtime.command@, spec_platform(*probe)));
    }
    RuntimeCheckResult { available: false, install_hint: Some(hint) }
}

} // verus!
