use glimmer::config::{Settings, SettingsError, SettingsField};

fn yaml_config(text: &str) -> config::Config {
    config::Config::builder()
        .add_source(config::File::from_str(text, config::FileFormat::Yaml))
        .build()
        .expect("building a configuration from YAML text")
}

fn field_of(err: SettingsError) -> SettingsField {
    match err {
        SettingsError::Field { field, .. } => field,
        SettingsError::Source(e) => panic!("unexpected source error: {:?}", e),
    }
}

#[test]
fn settings_read_every_field() {
    let cfg = yaml_config(
        "application_host: 127.0.0.1\napplication_port: 8080\nredis_url: redis://127.0.0.1:6379\napi_url: http://ip-api.com/json/{}\n",
    );
    let s = Settings::from_config(&cfg).expect("complete settings");
    assert_eq!(s.application_host, "127.0.0.1");
    assert_eq!(s.application_port, 8080);
    assert_eq!(s.redis_url, "redis://127.0.0.1:6379");
    assert_eq!(s.api_url, "http://ip-api.com/json/{}");
}

#[test]
fn settings_port_may_be_written_as_text() {
    let cfg = yaml_config(
        "application_host: localhost\napplication_port: \"9000\"\nredis_url: r\napi_url: a\n",
    );
    let s = Settings::from_config(&cfg).expect("complete settings");
    assert_eq!(s.application_port, 9000);
}

#[test]
fn settings_port_wraps_past_sixteen_bits() {
    let cfg = yaml_config(
        "application_host: localhost\napplication_port: 70000\nredis_url: r\napi_url: a\n",
    );
    let s = Settings::from_config(&cfg).expect("complete settings");
    assert_eq!(s.application_port, 4464);
}

#[test]
fn settings_negative_port_is_refused() {
    let cfg = yaml_config(
        "application_host: localhost\napplication_port: -1\nredis_url: r\napi_url: a\n",
    );
    let err = Settings::from_config(&cfg).err().expect("a negative port is refused");
    assert_eq!(field_of(err), SettingsField::ApplicationPort);
}

#[test]
fn settings_missing_api_url_is_reported() {
    let cfg = yaml_config("application_host: localhost\napplication_port: 80\nredis_url: r\n");
    let err = Settings::from_config(&cfg).err().expect("api_url is missing");
    assert_eq!(field_of(err), SettingsField::ApiUrl);
}

#[test]
fn settings_first_missing_field_is_reported() {
    let cfg = yaml_config("redis_url: r\n");
    let err = Settings::from_config(&cfg).err().expect("fields are missing");
    assert_eq!(field_of(err), SettingsField::ApplicationHost);
}

#[test]
fn settings_missing_redis_url_is_reported() {
    let cfg = yaml_config("application_host: h\napplication_port: 80\napi_url: a\n");
    let err = Settings::from_config(&cfg).err().expect("redis_url is missing");
    assert_eq!(field_of(err), SettingsField::RedisUrl);
}

#[test]
fn settings_from_missing_file_fail_at_the_source() {
    let res = Settings::new("no/such/settings/file");
    assert!(matches!(res, Err(SettingsError::Source(_))));
}
