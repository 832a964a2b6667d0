use codecell::runtime::{
    check_runtime, detect_linux_distro, detect_platform, format_install_hint,
    get_install_command, LinuxDistro, OsFamily, Platform, PlatformProbe, RuntimeInfo,
};

fn probe(os: OsFamily) -> PlatformProbe {
    PlatformProbe {
        os,
        has_homebrew: false,
        has_winget: false,
        has_apt: false,
        has_dnf: false,
        has_pacman: false,
        os_release: None,
    }
}

#[test]
fn test_format_install_hint() {
    let hint = format_install_hint(&RuntimeInfo::node(), Some("brew install node".to_string()));
    assert!(hint.contains("Node.js is not installed"));
    assert!(hint.contains("brew install node"));
    assert!(hint.contains("https://nodejs.org/"));
}

#[test]
fn format_install_hint_exact_text() {
    let hint = format_install_hint(&RuntimeInfo::node(), Some("brew install node".to_string()));
    assert_eq!(
        hint,
        "Error: Node.js is not installed\n\n\
         To install Node.js on your system:\n  brew install node\n\n\
         Or download from: https://nodejs.org/\n"
    );
    let bare = format_install_hint(&RuntimeInfo::python(), None);
    assert_eq!(
        bare,
        "Error: Python is not installed\n\nOr download from: https://www.python.org/downloads/\n"
    );
}

#[test]
fn detect_platform_families() {
    let mut p = probe(OsFamily::MacOs);
    p.has_homebrew = true;
    assert_eq!(detect_platform(&p), Platform::MacOS { has_homebrew: true });

    let mut p = probe(OsFamily::Windows);
    p.has_winget = true;
    assert_eq!(detect_platform(&p), Platform::Windows { has_winget: true });

    assert_eq!(detect_platform(&probe(OsFamily::Other)), Platform::Unknown);

    let mut p = probe(OsFamily::Linux);
    p.has_apt = true;
    assert_eq!(
        detect_platform(&p),
        Platform::Linux { distro: LinuxDistro::Debian }
    );
}

#[test]
fn detect_linux_distro_package_managers_win() {
    assert_eq!(
        detect_linux_distro(true, false, false, &None),
        LinuxDistro::Debian
    );
    assert_eq!(
        detect_linux_distro(false, true, false, &None),
        LinuxDistro::Fedora
    );
    assert_eq!(
        detect_linux_distro(false, false, true, &None),
        LinuxDistro::Arch
    );
}

#[test]
fn detect_linux_distro_from_os_release() {
    let ubuntu = Some("NAME=\"Ubuntu\"\nVERSION=\"22.04\"".to_string());
    assert_eq!(
        detect_linux_distro(false, false, false, &ubuntu),
        LinuxDistro::Debian
    );
    let fedora = Some("NAME=Fedora Linux".to_string());
    assert_eq!(
        detect_linux_distro(false, false, false, &fedora),
        LinuxDistro::Fedora
    );
    let manjaro = Some("NAME=\"Manjaro Linux\"".to_string());
    assert_eq!(
        detect_linux_distro(false, false, false, &manjaro),
        LinuxDistro::Arch
    );
    let other = Some("NAME=\"Gentoo\"".to_string());
    assert_eq!(
        detect_linux_distro(false, false, false, &other),
        LinuxDistro::Unknown
    );
    assert_eq!(
        detect_linux_distro(false, false, false, &None),
        LinuxDistro::Unknown
    );
}

#[test]
fn install_commands_match_platform() {
    let mac = Platform::MacOS { has_homebrew: true };
    let mac_bare = Platform::MacOS { has_homebrew: false };
    let debian = Platform::Linux { distro: LinuxDistro::Debian };
    let fedora = Platform::Linux { distro: LinuxDistro::Fedora };
    let arch = Platform::Linux { distro: LinuxDistro::Arch };
    let unknown_linux = Platform::Linux { distro: LinuxDistro::Unknown };
    let win = Platform::Windows { has_winget: true };

    assert_eq!(
        get_install_command(&RuntimeInfo::node(), &mac),
        Some("brew install node".to_string())
    );
    assert_eq!(
        get_install_command(&RuntimeInfo::npx(), &debian),
        Some("sudo apt install nodejs npm".to_string())
    );
    assert_eq!(
        get_install_command(&RuntimeInfo::python(), &fedora),
        Some("sudo dnf install python3".to_string())
    );
    assert_eq!(
        get_install_command(&RuntimeInfo::python(), &win),
        Some("winget install Python.Python.3.12".to_string())
    );
    assert_eq!(
        get_install_command(&RuntimeInfo::rust(), &arch),
        Some("sudo pacman -S rust".to_string())
    );
    assert_eq!(
        get_install_command(&RuntimeInfo::rust(), &unknown_linux),
        Some("curl --proto '=https' --tlsv1.2 -sSf https://sh.rustup.rs | sh".to_string())
    );
    assert_eq!(
        get_install_command(&RuntimeInfo::java(), &debian),
        Some("sudo apt install default-jdk".to_string())
    );
    assert_eq!(
        get_install_command(&RuntimeInfo::javac(), &mac),
        Some("brew install openjdk".to_string())
    );
    assert_eq!(get_install_command(&RuntimeInfo::node(), &mac_bare), None);
    assert_eq!(
        get_install_command(&RuntimeInfo::node(), &Platform::Unknown),
        None
    );
}

#[test]
fn check_runtime_available_and_missing() {
    let p = probe(OsFamily::MacOs);
    let ok = check_runtime(&RuntimeInfo::node(), true, &p);
    assert!(ok.available);
    assert!(ok.install_hint.is_none());

    let mut p = probe(OsFamily::MacOs);
    p.has_homebrew = true;
    let missing = check_runtime(&RuntimeInfo::node(), false, &p);
    assert!(!missing.available);
    let hint = missing.install_hint.expect("missing runtime must carry a hint");
    assert!(hint.contains("Node.js is not installed"));
    assert!(hint.contains("brew install node"));
    assert!(hint.contains("https://nodejs.org/"));
}
