use simple_api_rs::args::{build_config, Args};
use simple_api_rs::config::{
    get_file_inject_config, load_entries, Config, ConfigEntry, ConfigError, ConfigField,
    ConfigNumber, ConfigValue, FaultInjectConfig, FieldValue, RATE_SCALE,
};

fn whole(n: u64) -> ConfigNumber {
    ConfigNumber { unsigned: Some(n), millionths: (n as i64).saturating_mul(1_000_000) }
}

fn text_entry(key: &str, value: &str) -> ConfigEntry {
    ConfigEntry { key: Some(key.to_string()), value: ConfigValue::Text(value.to_string()) }
}

fn number_entry(key: &str, n: ConfigNumber) -> ConfigEntry {
    ConfigEntry { key: Some(key.to_string()), value: ConfigValue::Number(n) }
}

fn field(key: &str, n: ConfigNumber) -> ConfigField {
    ConfigField { key: Some(key.to_string()), value: FieldValue::Number(n) }
}

#[test]
fn rate_scale_is_a_million() {
    assert_eq!(RATE_SCALE, 1_000_000);
}

#[test]
fn fault_inject_defaults() {
    let d = FaultInjectConfig::default();
    assert_eq!(d.error_rate, 100_000);
    assert_eq!(d.min_delay, 50);
    assert_eq!(d.max_delay, 100);
    assert_eq!(d.timeout, Some(2));
    assert_eq!(d.status_on_error, 500);
}

#[test]
fn fault_inject_builders_set_one_field_each() {
    let d = FaultInjectConfig::default();
    assert_eq!(d.with_error_rate(7), FaultInjectConfig { error_rate: 7, ..d });
    assert_eq!(d.with_min_delay(8), FaultInjectConfig { min_delay: 8, ..d });
    assert_eq!(d.with_max_delay(9), FaultInjectConfig { max_delay: 9, ..d });
    assert_eq!(d.with_timeout(10), FaultInjectConfig { timeout: Some(10), ..d });
    assert_eq!(d.with_status_on_error(404), FaultInjectConfig { status_on_error: 404, ..d });
}

#[test]
fn config_defaults() {
    let c = Config::default();
    assert_eq!(c.port, 8080);
    assert_eq!(c.prefix, "/api/v1");
    assert_eq!(c.addr, "0.0.0.0");
    assert_eq!(c.log_output, "console");
    assert_eq!(c.fault_inject, FaultInjectConfig::default());
    let n = Config::new();
    assert_eq!(n.port, 8080);
    assert_eq!(n.prefix, "/api/v1");
    assert_eq!(n.addr, "0.0.0.0");
    assert_eq!(n.log_output, "console");
}

#[test]
fn config_builders_set_one_field_each() {
    let fi = FaultInjectConfig::default().with_error_rate(0);
    let c = Config::new()
        .with_port(9000)
        .with_addr("127.0.0.1")
        .with_log_output("file")
        .with_prefix("/v2")
        .with_fault_inject(fi);
    assert_eq!(c.port, 9000);
    assert_eq!(c.addr, "127.0.0.1");
    assert_eq!(c.log_output, "file");
    assert_eq!(c.prefix, "/v2");
    assert_eq!(c.fault_inject, fi);
    let only_port = Config::new().with_port(1);
    assert_eq!(only_port.port, 1);
    assert_eq!(only_port.addr, "0.0.0.0");
}

#[test]
fn empty_document_gives_the_defaults() {
    let c = load_entries(&vec![]).expect("nothing to refuse");
    assert_eq!(c.port, 8080);
    assert_eq!(c.prefix, "/api/v1");
    assert_eq!(c.addr, "0.0.0.0");
    assert_eq!(c.log_output, "console");
    assert_eq!(c.fault_inject, FaultInjectConfig::default());
}

#[test]
fn document_sets_what_it_names() {
    let entries = vec![
        text_entry("addr", "10.0.0.1"),
        text_entry("prefix", "/x"),
        text_entry("log", "file"),
        number_entry("port", whole(9090)),
        ConfigEntry {
            key: Some("fault_inject".to_string()),
            value: ConfigValue::Section(vec![
                field("error_rate", ConfigNumber { unsigned: None, millionths: 250_000 }),
                field("min_delay", whole(10)),
                field("max_delay", whole(20)),
                field("timeout", whole(5)),
                field("status_on_error", whole(503)),
            ]),
        },
    ];
    let c = load_entries(&entries).expect("every line can be read");
    assert_eq!(c.addr, "10.0.0.1");
    assert_eq!(c.prefix, "/x");
    assert_eq!(c.log_output, "file");
    assert_eq!(c.port, 9090);
    assert_eq!(
        c.fault_inject,
        FaultInjectConfig {
            error_rate: 250_000,
            min_delay: 10,
            max_delay: 20,
            timeout: Some(5),
            status_on_error: 503,
        }
    );
}

#[test]
fn later_lines_win() {
    let entries = vec![
        number_entry("port", whole(1)),
        text_entry("addr", "a"),
        number_entry("port", whole(2)),
        text_entry("addr", "b"),
    ];
    let c = load_entries(&entries).expect("every line can be read");
    assert_eq!(c.port, 2);
    assert_eq!(c.addr, "b");
}

#[test]
fn lines_that_name_nothing_are_passed_over() {
    let entries = vec![
        text_entry("port", "9090"),
        number_entry("addr", whole(1)),
        text_entry("unknown", "x"),
        number_entry("unknown", ConfigNumber { unsigned: None, millionths: -5 }),
        ConfigEntry { key: None, value: ConfigValue::Text("x".to_string()) },
        ConfigEntry { key: None, value: ConfigValue::Number(whole(1)) },
        ConfigEntry { key: Some("addr".to_string()), value: ConfigValue::Other },
        ConfigEntry {
            key: Some("other_section".to_string()),
            value: ConfigValue::Section(vec![field("min_delay", whole(1))]),
        },
        ConfigEntry {
            key: Some("fault_inject".to_string()),
            value: ConfigValue::Text("x".to_string()),
        },
    ];
    let c = load_entries(&entries).expect("nothing to refuse");
    assert_eq!(c.port, 8080);
    assert_eq!(c.addr, "0.0.0.0");
    assert_eq!(c.prefix, "/api/v1");
    assert_eq!(c.log_output, "console");
    assert_eq!(c.fault_inject, FaultInjectConfig::default());
}

#[test]
fn port_keeps_its_low_sixteen_bits() {
    let c = load_entries(&vec![number_entry("port", whole(65536 + 80))]).expect("a whole number");
    assert_eq!(c.port, 80);
    let c = load_entries(&vec![number_entry("port", whole(65535))]).expect("a whole number");
    assert_eq!(c.port, 65535);
    let c = load_entries(&vec![number_entry("port", whole(u64::MAX))]).expect("a whole number");
    assert_eq!(c.port, 65535);
}

#[test]
fn port_that_is_no_whole_number_is_refused() {
    let bad = ConfigNumber { unsigned: None, millionths: -1_000_000 };
    let r = load_entries(&vec![text_entry("addr", "a"), number_entry("port", bad)]);
    assert!(matches!(r, Err(ConfigError::NotUnsigned)));
    let r = load_entries(&vec![number_entry("port", bad), number_entry("port", whole(1))]);
    assert!(matches!(r, Err(ConfigError::NotUnsigned)));
}

#[test]
fn section_starts_from_the_defaults() {
    let v = ConfigValue::Section(vec![field("max_delay", whole(500))]);
    assert_eq!(
        get_file_inject_config(&v),
        Ok(FaultInjectConfig::default().with_max_delay(500))
    );
    assert_eq!(get_file_inject_config(&ConfigValue::Section(vec![])), Ok(FaultInjectConfig::default()));
}

#[test]
fn value_that_is_no_section_gives_the_defaults() {
    assert_eq!(get_file_inject_config(&ConfigValue::Other), Ok(FaultInjectConfig::default()));
    assert_eq!(
        get_file_inject_config(&ConfigValue::Text("x".to_string())),
        Ok(FaultInjectConfig::default())
    );
    assert_eq!(
        get_file_inject_config(&ConfigValue::Number(whole(3))),
        Ok(FaultInjectConfig::default())
    );
}

#[test]
fn section_reads_numbers_only() {
    let v = ConfigValue::Section(vec![
        ConfigField { key: Some("min_delay".to_string()), value: FieldValue::Other },
        ConfigField { key: None, value: FieldValue::Number(whole(1)) },
        field("unknown", whole(1)),
        field("timeout", whole(0)),
    ]);
    assert_eq!(get_file_inject_config(&v), Ok(FaultInjectConfig::default().with_timeout(0)));
}

#[test]
fn section_rate_takes_millionths_of_any_number() {
    let v = ConfigValue::Section(vec![field(
        "error_rate",
        ConfigNumber { unsigned: None, millionths: 1_500_000 },
    )]);
    assert_eq!(
        get_file_inject_config(&v),
        Ok(FaultInjectConfig::default().with_error_rate(1_500_000))
    );
    let v = ConfigValue::Section(vec![field("error_rate", whole(1))]);
    assert_eq!(
        get_file_inject_config(&v),
        Ok(FaultInjectConfig::default().with_error_rate(1_000_000))
    );
    let v = ConfigValue::Section(vec![field(
        "error_rate",
        ConfigNumber { unsigned: None, millionths: -250_000 },
    )]);
    assert_eq!(
        get_file_inject_config(&v),
        Ok(FaultInjectConfig::default().with_error_rate(-250_000))
    );
}

#[test]
fn section_status_keeps_its_low_sixteen_bits() {
    let v = ConfigValue::Section(vec![field("status_on_error", whole(65536 + 404))]);
    assert_eq!(
        get_file_inject_config(&v),
        Ok(FaultInjectConfig::default().with_status_on_error(404))
    );
}

#[test]
fn section_count_that_is_no_whole_number_is_refused() {
    let bad = ConfigNumber { unsigned: None, millionths: 1_500_000 };
    for key in ["min_delay", "max_delay", "timeout", "status_on_error"] {
        let v = ConfigValue::Section(vec![field(key, bad)]);
        assert_eq!(get_file_inject_config(&v), Err(ConfigError::NotUnsigned));
    }
    let document = vec![ConfigEntry {
        key: Some("fault_inject".to_string()),
        value: ConfigValue::Section(vec![field("min_delay", whole(1)), field("timeout", bad)]),
    }];
    assert!(matches!(load_entries(&document), Err(ConfigError::NotUnsigned)));
}

#[test]
fn args_hold_the_path() {
    let with = Args::new(Some("conf.yaml".to_string()));
    assert_eq!(with.get_config_path(), Some("conf.yaml"));
    assert_eq!(with.config, Some("conf.yaml".to_string()));
    let without = Args::new(None);
    assert_eq!(without.get_config_path(), None);
}

#[test]
fn build_config_reads_the_document_only_where_one_is_named() {
    let document = vec![number_entry("port", whole(7000))];
    let named = Args::new(Some("conf.yaml".to_string()));
    assert_eq!(build_config(&named, &document).expect("readable").port, 7000);
    let unnamed = Args::new(None);
    assert_eq!(build_config(&unnamed, &document).expect("defaults").port, 8080);
    let bad = vec![number_entry("port", ConfigNumber { unsigned: None, millionths: 0 })];
    assert!(build_config(&named, &bad).is_err());
    assert!(build_config(&unnamed, &bad).is_ok());
}
