use rasast::schema::{ArgsInfo, Function, PluginHelper, PluginManager, ResultValue, SchemaError};

#[test]
fn lib_it_works() {
    let a = PluginHelper::new("Google", "googe_12321");
    println!("{:?}", a);
    assert!(a.is_ok());
}

#[test]
fn it_works() {
    let mut manager = PluginManager::new("test").unwrap();
    let mut parameters = Vec::new();
    parameters.push(ArgsInfo::new("string", "test", "test", false).unwrap());
    let command = Function::new("test", "test", parameters);
    manager.add_command(command);
    let mut parameters2 = Vec::new();
    parameters2.push(ArgsInfo::new("string", "test2", "test", false).unwrap());
    let commamd2 = Function::new("test2", "test2", parameters2);
    manager.add_command(commamd2);
    let (commands, callbacks) = manager.get_commands();
    println!("{:?}", commands);
    println!("{:?}", callbacks);
    assert_eq!(callbacks, vec!["test".to_string(), "test2".to_string()]);
    assert_eq!(commands.len(), 2);
}

#[test]
fn helper_id_follows_plugin_id_pattern() {
    assert!(PluginHelper::new("Google", "Google_1").is_ok());
    assert_eq!(PluginHelper::new("Google", "").err(), Some("Invalid ID"));
    assert_eq!(PluginHelper::new("Google", "bad id!").err(), Some("Invalid ID"));
    let h = PluginHelper::new("Google", "g_1").unwrap();
    assert_eq!(h.get_name(), "Google");
    assert_eq!(h.get_id(), "g_1");
}

#[test]
fn plugin_id_bad_rejected() {
    assert_eq!(PluginManager::new("bad id!").err(), Some(SchemaError::InvalidPluginId));
    assert!(PluginManager::new("").is_err());
    assert!(PluginManager::new("id\n").is_err());
}

#[test]
fn plugin_id_good_accepted() {
    let p = PluginManager::new("good_id_1").unwrap();
    assert_eq!(p.get_id(), "good_id_1");
    assert!(PluginManager::new("Mixed_Case_09").is_ok());
}

#[test]
fn args_info_accepts_the_six_types() {
    for t in ["array", "boolean", "integer", "number", "object", "string"] {
        assert!(ArgsInfo::new(t, "n", "d", true).is_ok());
    }
}

#[test]
fn args_info_rejects_other_types() {
    assert_eq!(ArgsInfo::new("float", "n", "d", true).err(), Some(SchemaError::InvalidType));
    assert_eq!(ArgsInfo::new("String", "n", "d", true).err(), Some(SchemaError::InvalidType));
    assert_eq!(ArgsInfo::new("", "n", "d", true).err(), Some(SchemaError::InvalidType));
}

#[test]
fn args_info_to_value_exact() {
    let a = ArgsInfo::new("integer", "count", "how \"many\"", true).unwrap();
    assert_eq!(a.to_value(), "\"count\":{\"description\":\"how \\\"many\\\"\",\"type\":\"integer\"}");
    assert_eq!(a.get_name(), "count");
    assert!(a.is_required());
}

#[test]
fn function_to_value_exact() {
    let f = Function::new("test", "test", vec![ArgsInfo::new("string", "test", "test", false).unwrap()]);
    assert_eq!(
        f.to_value(),
        "{\"function\":{\"description\":\"test\",\"name\":\"test\",\"parameters\":{\"properties\":{\"test\":{\"description\":\"test\",\"type\":\"string\"}},\"required\":[],\"type\":\"object\"}},\"type\":\"function\"}"
    );
}

#[test]
fn function_required_list() {
    let f = Function::new(
        "add",
        "adds",
        vec![
            ArgsInfo::new("number", "a", "first", true).unwrap(),
            ArgsInfo::new("number", "b", "second", false).unwrap(),
            ArgsInfo::new("number", "c", "third", true).unwrap(),
        ],
    );
    let v = f.to_value();
    assert!(v.contains("\"required\":[\"a\",\"c\"]"));
    assert!(v.contains("\"properties\":{\"a\":{\"description\":\"first\",\"type\":\"number\"},\"b\":{\"description\":\"second\",\"type\":\"number\"},\"c\":{\"description\":\"third\",\"type\":\"number\"}}"));
}

#[test]
fn function_without_parameters() {
    let f = Function::new("now", "time", Vec::new());
    assert_eq!(f.get_name(), "now");
    assert_eq!(
        f.to_value(),
        "{\"function\":{\"description\":\"time\",\"name\":\"now\",\"parameters\":{\"properties\":{},\"required\":[],\"type\":\"object\"}},\"type\":\"function\"}"
    );
}

#[test]
fn result_value_quotes_json() {
    let r = ResultValue::from_json("{\"a\":1}".to_string());
    assert_eq!(r.json(), "{\"a\":1}");
    assert_eq!(r.to_value(), "\"{\\\"a\\\":1}\"");
}

#[test]
fn properties_sorted_by_name_last_duplicate_wins() {
    let f = Function::new(
        "f",
        "d",
        vec![
            ArgsInfo::new("string", "b", "first b", true).unwrap(),
            ArgsInfo::new("number", "a", "only a", false).unwrap(),
            ArgsInfo::new("boolean", "b", "second b", false).unwrap(),
            ArgsInfo::new("string", "ab", "ab", false).unwrap(),
            ArgsInfo::new("string", "B", "upper", false).unwrap(),
        ],
    );
    let v = f.to_value();
    assert!(v.contains("\"properties\":{\"B\":{\"description\":\"upper\",\"type\":\"string\"},\"a\":{\"description\":\"only a\",\"type\":\"number\"},\"ab\":{\"description\":\"ab\",\"type\":\"string\"},\"b\":{\"description\":\"second b\",\"type\":\"boolean\"}}"));
    assert!(v.contains("\"required\":[\"b\"]"));
}

#[test]
fn control_characters_escaped() {
    let a = ArgsInfo::new("string", "t\u{1}", "line\nnext\ttab\\", false).unwrap();
    assert_eq!(a.to_value(), "\"t\\u0001\":{\"description\":\"line\\nnext\\ttab\\\\\",\"type\":\"string\"}");
}
