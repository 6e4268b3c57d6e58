use rasast::registry::{get_plugin_file_ext, is_plugin_file, InvokeError, PluginCore};
use rasast::schema::{ArgsInfo, Function, PluginManager};

fn plugin(id: &str, commands: &[&str]) -> PluginManager {
    let mut p = PluginManager::new(id).unwrap();
    for c in commands {
        p.add_command(Function::new(c, "does things", vec![ArgsInfo::new("string", "x", "input", true).unwrap()]));
    }
    p
}

#[test]
fn schema_count_is_sum_of_commands() {
    let mut core = PluginCore::new();
    assert!(core.get_plugin_info().is_empty());
    core.add_plugin(&plugin("first", &["a", "b"]));
    core.add_plugin(&plugin("second", &["c", "d", "e"]));
    let info = core.get_plugin_info();
    assert_eq!(info.len(), 5);
    assert!(info[0].contains("\"name\":\"a\""));
    assert!(info[4].contains("\"name\":\"e\""));
    assert_eq!(core.resolve("a"), Ok("first".to_string()));
    assert_eq!(core.resolve("e"), Ok("second".to_string()));
}

#[test]
fn shared_command_routes_to_last_registered() {
    let mut core = PluginCore::new();
    core.add_plugin(&plugin("one", &["shared", "x1"]));
    core.add_plugin(&plugin("two", &["shared"]));
    assert_eq!(core.resolve("shared"), Ok("two".to_string()));
    assert_eq!(core.resolve("x1"), Ok("one".to_string()));
    assert_eq!(core.get_plugin_info().len(), 3);
}

#[test]
fn unknown_command_not_found_and_registry_unchanged() {
    let mut core = PluginCore::new();
    core.add_plugin(&plugin("one", &["known"]));
    let before = core.get_plugin_info();
    assert_eq!(core.resolve("unknown"), Err(InvokeError::CommandNotFound));
    assert_eq!(core.resolve("unknown"), Err(InvokeError::CommandNotFound));
    assert_eq!(core.get_plugin_info(), before);
    assert_eq!(core.resolve("known"), Ok("one".to_string()));
    assert_eq!(core.resolve("Known"), Err(InvokeError::CommandNotFound));
}

#[test]
fn empty_registry_resolves_nothing() {
    let core = PluginCore::new();
    assert_eq!(core.resolve(""), Err(InvokeError::CommandNotFound));
}

#[test]
fn plugin_suffix_per_os() {
    assert_eq!(get_plugin_file_ext("windows"), ".dll");
    assert_eq!(get_plugin_file_ext("macos"), ".dylib");
    assert_eq!(get_plugin_file_ext("linux"), ".so");
    assert_eq!(get_plugin_file_ext("freebsd"), "");
}

#[test]
fn plugin_file_filter() {
    assert!(is_plugin_file("libweather.so", ".so"));
    assert!(is_plugin_file(".so", ".so"));
    assert!(!is_plugin_file("libweather.so.1", ".so"));
    assert!(!is_plugin_file("so", ".so"));
    assert!(!is_plugin_file("weather.dll", ".so"));
    assert!(!is_plugin_file("anything", ""));
}

#[test]
fn plugin_without_commands_adds_no_schema() {
    let mut core = PluginCore::new();
    core.add_plugin(&PluginManager::new("empty").unwrap());
    assert!(core.get_plugin_info().is_empty());
    assert_eq!(core.resolve("empty"), Err(InvokeError::CommandNotFound));
}
