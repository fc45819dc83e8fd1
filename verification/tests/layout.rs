use codeydog::layout::{
    activated_path, built_binary, deployed_binary, install_dir, installed_path, manifest_path,
    packages_root, staging_dir, tool_dir,
};
use codeydog::registry::Package;

#[test]
fn layout_of_the_binaries() {
    assert_eq!(tool_dir("/home/rex"), "/home/rex/.codeydog/");
    assert_eq!(staging_dir("/home/rex"), "/home/rex/.codeydog/activate");
    assert_eq!(installed_path("/home/rex", "task"), "/home/rex/.codeydog/task");
    assert_eq!(activated_path("/home/rex", "task"), "/home/rex/.codeydog/activate/task");
}

#[test]
fn layout_of_the_packages() {
    assert_eq!(packages_root("/home/rex"), "/home/rex/.codeydog_tools/");
    assert_eq!(install_dir("/home/rex", Package::TaskRust), "/home/rex/.codeydog_tools/task-rust/");
    assert_eq!(
        manifest_path("/home/rex", Package::TaskRust),
        "/home/rex/.codeydog_tools/task-rust/Cargo.toml"
    );
    assert_eq!(
        built_binary("/home/rex", Package::TaskRust),
        "/home/rex/.codeydog_tools/task-rust/target/release/task"
    );
    assert_eq!(deployed_binary("/home/rex", Package::TaskRust), "/home/rex/.codeydog/task");
    assert_eq!(install_dir("/home/rex", Package::Dwn), "/home/rex/.codeydog_tools/dwn/");
    assert_eq!(built_binary("/home/rex", Package::Dwn), "/home/rex/.codeydog_tools/dwn/target/release/dwn");
    assert_eq!(deployed_binary("/home/rex", Package::Dwn), "/home/rex/.codeydog/dwn");
}

#[test]
fn layout_takes_the_home_as_it_is() {
    assert_eq!(tool_dir(""), "/.codeydog/");
    assert_eq!(packages_root("/home/rex/"), "/home/rex//.codeydog_tools/");
    assert_eq!(tool_dir("/home/ärger"), "/home/ärger/.codeydog/");
}
