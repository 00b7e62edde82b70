use coiner::coiner::Coiner;
use coiner::config::{AppConf, ConfigDeserializeError, Node};
use coiner::duration::DurationDef;
use coiner::log::Logger;

fn node() -> Node {
    Node {
        protocol: "http".to_string(),
        host: "localhost".to_string(),
        user: "root".to_string(),
        password: "SECRET-REDACTED".to_string(),
    }
}

fn from_document(doc: &str) -> Result<AppConf, ConfigDeserializeError> {
    let table: toml::Table = toml::from_str(doc).unwrap();
    let text = |k: &str| table[k].as_str().unwrap().to_string();
    let node_table = table["node"].as_table().unwrap();
    let node_text = |k: &str| node_table[k].as_str().unwrap().to_string();
    let node = Node {
        protocol: node_text("protocol"),
        host: node_text("host"),
        user: node_text("user"),
        password: node_text("password"),
    };
    AppConf::from_fields(
        text("name"),
        &text("request_timeout"),
        &text("slow_threshold"),
        table["max_threads"].as_integer().unwrap() as u16,
        node,
    )
}

#[test]
fn load_well_formed_document() {
    let doc = r#"
name = "coiner"
request_timeout = "30s"
slow_threshold = "200ms"
max_threads = 8

[node]
protocol = "http"
host = "localhost"
user = "root"
password = "SECRET-REDACTED"
"#;
    let conf = from_document(doc).unwrap();
    assert_eq!(conf.name, "coiner");
    assert_eq!(conf.request_timeout, DurationDef::from_secs(30));
    assert_eq!(conf.slow_threshold, DurationDef::from_millis(200));
    assert_eq!(conf.max_threads, 8);
    assert_eq!(conf.node, node());
}

#[test]
fn load_document_with_bad_unit_fails() {
    let doc = r#"
name = "coiner"
request_timeout = "30x"
slow_threshold = "200ms"
max_threads = 8

[node]
protocol = "http"
host = "localhost"
user = "root"
password = "SECRET-REDACTED"
"#;
    let err = from_document(doc).unwrap_err();
    assert_eq!(err.field, "request_timeout");
    assert_eq!(
        err.message,
        "Invalid duration string: Invalid duration string: Invalid character in duration string: x"
    );
}

#[test]
fn second_duration_field_is_reported() {
    let err = AppConf::from_fields("a".to_string(), "1s", "5", 4, node()).unwrap_err();
    assert_eq!(err.field, "slow_threshold");
    assert_eq!(
        err.message,
        "Invalid duration string: Invalid duration string: Invalid character in duration string: 5"
    );
}

#[test]
fn fields_are_kept() {
    let conf = AppConf::from_fields("svc".to_string(), "1ms", "2s", 65535, node()).unwrap();
    assert_eq!(conf.name, "svc");
    assert_eq!(conf.request_timeout.as_millis(), 1);
    assert_eq!(conf.slow_threshold.as_millis(), 2000);
    assert_eq!(conf.max_threads, 65535);
}

#[test]
fn coiner_defaults() {
    let c = Coiner::new("btc".to_string());
    assert_eq!(c.run_coin(), "btc");
    assert_eq!(c.log_file(), "");
    assert_eq!(c.max_threads(), 8);
}

#[test]
fn log_file_gets_suffix() {
    assert_eq!(Logger::log_file_name("app".to_string()), "app.log");
}
