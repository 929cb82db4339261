use lychee_lib::config_field::{
    _f, clap_arg_to_field, toml_name_to_field, ConfigField, ConfigMerger,
};

#[test]
fn test_toml_name() {
    for x in ConfigField::field_names() {
        assert!(toml_name_to_field(x).is_some());
    }
    for x in ConfigField::field_names() {
        assert!(clap_arg_to_field(x).is_some());
    }
    assert!(clap_arg_to_field("quiet").is_some());
}

#[test]
fn names_and_fields_correspond() {
    let fields = ConfigField::all();
    let names = ConfigField::field_names();
    assert_eq!(fields.len(), 61);
    assert_eq!(names.len(), 61);
    for (field, name) in fields.iter().zip(names.iter()) {
        assert_eq!(field.field_name(), *name);
        assert_eq!(ConfigField::from_field_name(name), Ok(*field));
        assert_eq!(toml_name_to_field(name), Some(*field));
    }
    assert_eq!(ConfigField::MaxConcurrency.field_name(), "max_concurrency");
    assert_eq!(ConfigField::from_field_name("root_dir"), Ok(ConfigField::RootDir));
    assert_eq!(ConfigField::from_field_name("rootdir"), Err("rootdir"));
    assert_eq!(ConfigField::from_field_name(""), Err(""));
    assert_eq!(toml_name_to_field("Accept"), None);
    assert_eq!(toml_name_to_field("quiet"), None);
}

#[test]
fn quiet_sets_verbose() {
    assert_eq!(clap_arg_to_field("quiet"), Some(ConfigField::Verbose));
    assert_eq!(clap_arg_to_field("verbose"), Some(ConfigField::Verbose));
    assert_eq!(clap_arg_to_field("base_url"), Some(ConfigField::BaseUrl));
    assert_eq!(clap_arg_to_field("help"), None);
}

#[test]
fn defined_fields_are_overridden() {
    _f();
    let merger = ConfigMerger {};
    let defined = vec![ConfigField::Base, ConfigField::Timeout];
    assert!(merger.field_is_defined(ConfigField::Base, &defined));
    assert!(merger.field_is_defined(ConfigField::Timeout, &defined));
    assert!(!merger.field_is_defined(ConfigField::Accept, &defined));
    assert!(!merger.field_is_defined(ConfigField::Base, &Vec::new()));
    assert_eq!(merger.merge_field(ConfigField::Timeout, 20, 5, &defined), 5);
    assert_eq!(merger.merge_field(ConfigField::Accept, "a", "b", &defined), "a");
    assert_eq!(merger.merge_field(ConfigField::Base, Some(1), None, &defined), None);
}
