use codeydog::registry::{lookup, Package};

#[test]
fn lookup_finds_the_known_packages() {
    assert_eq!(lookup("task-rust"), Some(Package::TaskRust));
    assert_eq!(lookup("dwn"), Some(Package::Dwn));
}

#[test]
fn lookup_finds_nothing_else() {
    for name in ["", "task", "Task-rust", "TASK-RUST", "dwn ", " dwn", "task-rust-", "dwm"] {
        assert_eq!(lookup(name), None);
    }
}

#[test]
fn lookup_inverts_name() {
    for package in [Package::TaskRust, Package::Dwn] {
        assert_eq!(lookup(package.name()), Some(package));
    }
}

#[test]
fn package_names_repositories_and_binaries() {
    assert_eq!(Package::TaskRust.name(), "task-rust");
    assert_eq!(Package::TaskRust.repository(), "https://github.com/ArnabRollin/Task-rust");
    assert_eq!(Package::TaskRust.binary(), "task");
    assert_eq!(Package::Dwn.name(), "dwn");
    assert_eq!(Package::Dwn.repository(), "https://github.com/ArnabRollin/dwn");
    assert_eq!(Package::Dwn.binary(), "dwn");
}
