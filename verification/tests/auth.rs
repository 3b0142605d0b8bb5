//! Connection profiles become the URI of the driver.

use sqlserver_adapter::adapter_config::{AdapterConfig, AuthError, ConfigValue};
use sqlserver_adapter::auth::{
    apply_connection_args, get_flag, is_implemented, parse_auth, server_uri_text, SQLServerAuth,
    SQLServerAuthIR,
};
use sqlserver_adapter::database::{Backend, Builder};
use sqlserver_adapter::sorted_map::SortedMap;

fn make_typed_config(pairs: Vec<(&str, ConfigValue)>) -> AdapterConfig {
    let mut fields = SortedMap::new();
    for (name, value) in pairs {
        fields.insert(name.to_string(), value);
    }
    AdapterConfig::new(fields)
}

fn text(value: &str) -> ConfigValue {
    ConfigValue::Text(value.to_string())
}

fn make_config(pairs: &[(&str, &str)]) -> AdapterConfig {
    make_typed_config(pairs.iter().map(|(name, value)| (*name, text(value))).collect())
}

fn uri_value(builder: &Builder) -> String {
    builder.uri.as_ref().expect("uri").as_str().to_string()
}

fn assert_contains(text: &str, part: &str) {
    assert!(text.contains(part), "{text} does not contain {part}");
}

/// The parameters in a URI, as a reader of the URI gets them.
fn parameters(builder: &Builder) -> Vec<(String, String)> {
    builder.uri.as_ref().expect("uri").query_pairs().into_owned().collect()
}

fn owned(pairs: &[(&str, &str)]) -> Vec<(String, String)> {
    pairs.iter().map(|(name, value)| (name.to_string(), value.to_string())).collect()
}

#[test]
fn test_sql_login() {
    let config = make_config(&[
        ("authentication", "sql"),
        ("host", "localhost"),
        ("database", "mydb"),
        ("UID", "sa"),
        ("PWD", "hunter2"),
    ]);

    let outcome = SQLServerAuth.configure(&config).expect("configure");
    let uri = uri_value(&outcome.builder);

    assert_contains(&uri, "sqlserver://localhost:1433");
    assert_contains(&uri, "user+id=sa");
    assert_contains(&uri, "password=hunter2");
    assert!(!uri.contains("fedauth"), "SQL logins carry no Entra token");
}

#[test]
fn test_sql_login_is_case_insensitive() {
    let config = make_config(&[
        ("authentication", "SQL"),
        ("host", "localhost"),
        ("database", "mydb"),
        ("UID", "sa"),
        ("PWD", "hunter2"),
    ]);

    let outcome = SQLServerAuth.configure(&config).expect("configure");
    assert_contains(&uri_value(&outcome.builder), "user+id=sa");
}

#[test]
fn test_sql_login_requires_credentials() {
    let config = make_config(&[
        ("authentication", "sql"),
        ("host", "localhost"),
        ("database", "mydb"),
        ("UID", "sa"),
    ]);

    let error = SQLServerAuth
        .configure(&config)
        .expect_err("a missing PWD is an error, not an empty password");
    assert!(matches!(error, AuthError::MissingField(field) if field == "PWD"));
}

#[test]
fn test_sql_login_password_is_encoded() {
    let config = make_config(&[
        ("authentication", "sql"),
        ("host", "localhost"),
        ("database", "mydb"),
        ("UID", "sa"),
        ("PWD", "p@ss:w/rd?&=#"),
    ]);

    let outcome = SQLServerAuth.configure(&config).expect("configure");
    let uri = uri_value(&outcome.builder);

    assert_contains(&uri, "password=p%40ss%3Aw%2Frd%3F%26%3D%23");
}

#[test]
fn test_tls_defaults_to_encrypted_and_verified() {
    let config = make_config(&[
        ("authentication", "environment"),
        ("host", "myserver.database.windows.net"),
        ("database", "mydb"),
    ]);

    let outcome = SQLServerAuth.configure(&config).expect("configure");
    let uri = uri_value(&outcome.builder);

    assert_contains(&uri, "encrypt=true");
    assert_contains(&uri, "TrustServerCertificate=false");
}

#[test]
fn test_tls_settings_from_yaml_booleans() {
    let config = make_typed_config(vec![
        ("authentication", text("environment")),
        ("host", text("localhost")),
        ("database", text("mydb")),
        ("encrypt", ConfigValue::Bool(false)),
        ("trust_cert", ConfigValue::Bool(true)),
    ]);

    let outcome = SQLServerAuth.configure(&config).expect("configure");
    let uri = uri_value(&outcome.builder);

    assert_contains(&uri, "encrypt=false");
    assert_contains(&uri, "TrustServerCertificate=true");
}

#[test]
fn test_tls_settings_from_string_booleans() {
    let config = make_config(&[
        ("authentication", "environment"),
        ("host", "localhost"),
        ("database", "mydb"),
        ("encrypt", "false"),
        ("trust_cert", "true"),
    ]);

    let outcome = SQLServerAuth.configure(&config).expect("configure");
    let uri = uri_value(&outcome.builder);

    assert_contains(&uri, "encrypt=false");
    assert_contains(&uri, "TrustServerCertificate=true");
}

#[test]
fn test_login_timeout_is_applied() {
    let config = make_typed_config(vec![
        ("authentication", text("environment")),
        ("host", text("localhost")),
        ("database", text("mydb")),
        ("login_timeout", ConfigValue::integer(30)),
    ]);

    let outcome = SQLServerAuth.configure(&config).expect("configure");
    assert_contains(&uri_value(&outcome.builder), "connection+timeout=30");
}

#[test]
fn test_login_timeout_zero_is_omitted() {
    let config = make_typed_config(vec![
        ("authentication", text("environment")),
        ("host", text("localhost")),
        ("database", text("mydb")),
        ("login_timeout", ConfigValue::integer(0)),
    ]);

    let outcome = SQLServerAuth.configure(&config).expect("configure");
    let uri = uri_value(&outcome.builder);

    assert!(!uri.contains("timeout"), "{uri}");
}

#[test]
fn test_service_principal_with_tenant_id() {
    let config = make_config(&[
        ("authentication", "serviceprincipal"),
        ("host", "myserver.database.windows.net"),
        ("database", "mydb"),
        ("tenant_id", "my-tenant"),
        ("client_id", "my-client"),
        ("client_secret", "my-secret"),
    ]);

    let outcome = SQLServerAuth.configure(&config).expect("configure");
    let uri = uri_value(&outcome.builder);

    assert_contains(&uri, "sqlserver://myserver.database.windows.net:1433");
    assert_contains(&uri, "database=mydb");
    assert_contains(&uri, "fedauth=ActiveDirectoryServicePrincipal");
    assert_contains(&uri, "user+id=my-client%40my-tenant");
    assert_contains(&uri, "password=my-secret");
}

#[test]
fn test_service_principal_without_tenant_id() {
    let config = make_config(&[
        ("authentication", "ActiveDirectoryServicePrincipal"),
        ("host", "myserver.database.windows.net"),
        ("database", "mydb"),
        ("client_id", "my-client"),
        ("client_secret", "my-secret"),
    ]);

    let outcome = SQLServerAuth.configure(&config).expect("configure");
    let uri = uri_value(&outcome.builder);

    assert_contains(&uri, "fedauth=ActiveDirectoryServicePrincipal");
    assert_contains(&uri, "user+id=my-client");
    assert_contains(&uri, "password=my-secret");
}

#[test]
fn test_active_directory_password() {
    let config = make_config(&[
        ("authentication", "ActiveDirectoryPassword"),
        ("host", "myserver.database.windows.net"),
        ("database", "mydb"),
        ("client_id", "my-client"),
        ("UID", "alice@example.com"),
        ("PWD", "hunter2"),
    ]);

    let outcome = SQLServerAuth.configure(&config).expect("configure");
    let uri = uri_value(&outcome.builder);

    assert_contains(&uri, "sqlserver://myserver.database.windows.net:1433");
    assert_contains(&uri, "fedauth=ActiveDirectoryPassword");
    assert_contains(&uri, "user+id=alice%40example.com");
    assert_contains(&uri, "password=hunter2");
    assert_contains(&uri, "applicationclientid=my-client");
}

#[test]
fn test_environment_auth() {
    let config = make_config(&[
        ("authentication", "environment"),
        ("host", "myserver.database.windows.net"),
        ("database", "mydb"),
    ]);

    let outcome = SQLServerAuth.configure(&config).expect("configure");
    let uri = uri_value(&outcome.builder);

    assert_contains(&uri, "sqlserver://myserver.database.windows.net:1433");
    assert_contains(&uri, "database=mydb");
    assert_contains(&uri, "fedauth=ActiveDirectoryEnvironment");
}

#[test]
fn test_default_port_is_1433() {
    let config = make_config(&[
        ("authentication", "environment"),
        ("host", "myserver.database.windows.net"),
        ("database", "mydb"),
    ]);

    let outcome = SQLServerAuth.configure(&config).expect("configure");
    let uri = uri_value(&outcome.builder);

    assert_contains(&uri, ":1433");
}

#[test]
fn test_custom_port() {
    let config = make_config(&[
        ("authentication", "environment"),
        ("host", "myserver.database.windows.net"),
        ("port", "1434"),
        ("database", "mydb"),
    ]);

    let outcome = SQLServerAuth.configure(&config).expect("configure");
    let uri = uri_value(&outcome.builder);

    assert_contains(&uri, ":1434");
}

#[test]
fn test_service_principal_alias() {
    // "ServicePrincipal" is an alias for "ActiveDirectoryServicePrincipal"
    let config = make_config(&[
        ("authentication", "ServicePrincipal"),
        ("host", "myserver.database.windows.net"),
        ("database", "mydb"),
        ("client_id", "my-client"),
        ("client_secret", "my-secret"),
    ]);

    let outcome = SQLServerAuth.configure(&config).expect("configure");
    let uri = uri_value(&outcome.builder);

    assert_contains(&uri, "fedauth=ActiveDirectoryServicePrincipal");
}

#[test]
fn the_whole_uri_of_an_environment_login() {
    let config = make_typed_config(vec![
        ("authentication", text("environment")),
        ("host", text("localhost")),
        ("port", ConfigValue::integer(1500)),
        ("database", text("my db")),
        ("login_timeout", text("+30")),
    ]);

    let outcome = SQLServerAuth.configure(&config).expect("configure");

    assert_eq!(
        uri_value(&outcome.builder),
        "sqlserver://localhost:1500?database=my+db&encrypt=true&TrustServerCertificate=false\
         &connection+timeout=30&fedauth=ActiveDirectoryEnvironment"
    );
    assert_eq!(outcome.builder.backend, Backend::SQLServer);
    assert!(outcome.warnings.is_empty());
    assert_eq!(SQLServerAuth.backend(), Backend::SQLServer);
}

#[test]
fn every_parameter_reaches_the_driver_unchanged() {
    let user = "d\u{f6}mer\\s a+b";
    let password = "p@ss &=#?%41+~*-._\u{1f511}\u{43f}";
    let config = make_config(&[
        ("authentication", "ActiveDirectoryPassword"),
        ("host", "localhost"),
        ("database", "a&b=c"),
        ("UID", user),
        ("PWD", password),
        ("client_id", ""),
        ("login_timeout", "7"),
    ]);

    let outcome = SQLServerAuth.configure(&config).expect("configure");

    assert_eq!(
        parameters(&outcome.builder),
        owned(&[
            ("database", "a&b=c"),
            ("encrypt", "true"),
            ("TrustServerCertificate", "false"),
            ("connection timeout", "7"),
            ("fedauth", "ActiveDirectoryPassword"),
            ("user id", user),
            ("password", password),
            ("applicationclientid", ""),
        ])
    );
}

#[test]
fn parameters_go_behind_a_query_and_before_a_fragment() {
    let config = make_config(&[
        ("authentication", "environment"),
        ("host", "h?x=1#f"),
        ("port", "2"),
        ("database", "d"),
    ]);

    let outcome = SQLServerAuth.configure(&config).expect("configure");

    assert_eq!(
        uri_value(&outcome.builder),
        "sqlserver://h?x=1&database=d&encrypt=true&TrustServerCertificate=false\
         &fedauth=ActiveDirectoryEnvironment#f:2"
    );
}

#[test]
fn the_default_method_is_the_service_principal() {
    let config = make_config(&[("client_id", "c"), ("client_secret", "s"), ("tenant_id", "t")]);

    let settings = parse_auth(&config).expect("settings");

    assert!(matches!(
        settings,
        SQLServerAuthIR::ActiveDirectoryServicePrincipal {
            tenant_id: Some("t"),
            client_id: "c",
            client_secret: "s",
        }
    ));
    assert_eq!(
        settings.query_pairs(),
        owned(&[
            ("fedauth", "ActiveDirectoryServicePrincipal"),
            ("user id", "c@t"),
            ("password", "s"),
        ])
    );
}

#[test]
fn aliases_are_taken_in_any_case_and_other_names_are_not() {
    for name in ["sql", "SQL", "sQl"] {
        let config = make_config(&[("authentication", name), ("UID", "u"), ("PWD", "p")]);
        let settings = parse_auth(&config).expect("settings");
        assert!(matches!(settings, SQLServerAuthIR::SqlLogin { user: "u", password: "p" }));
    }
    let config = make_config(&[("authentication", "ENVIRONMENT")]);
    match parse_auth(&config) {
        Err(AuthError::Config(message)) => assert_eq!(
            message,
            "Invalid authentication method: ENVIRONMENT must be one of: [sql, \
             ActiveDirectoryServicePrincipal, ActiveDirectoryPassword, environment]"
        ),
        other => panic!("{other:?}"),
    }
}

#[test]
fn methods_without_an_implementation_are_told_apart() {
    for name in ["ActiveDirectoryInteractive", "ActiveDirectoryIntegrated", "CLI", "auto"] {
        assert!(!is_implemented(&make_config(&[("authentication", name)])), "{name}");
    }
    for name in ["sql", "ServicePrincipal", "ActiveDirectoryPassword", "environment", "cli", "x"] {
        assert!(is_implemented(&make_config(&[("authentication", name)])), "{name}");
    }
    assert!(is_implemented(&make_config(&[])));
}

#[test]
fn the_first_missing_field_is_named() {
    let missing = |pairs: &[(&str, &str)]| match SQLServerAuth.configure(&make_config(pairs)) {
        Err(AuthError::MissingField(field)) => field,
        other => panic!("{other:?}"),
    };

    assert_eq!(missing(&[("authentication", "sql")]), "UID");
    assert_eq!(missing(&[("client_secret", "s")]), "client_id");
    assert_eq!(missing(&[("client_id", "c")]), "client_secret");
    let password = ("authentication", "ActiveDirectoryPassword");
    assert_eq!(missing(&[password, ("UID", "u"), ("PWD", "p")]), "client_id");
    assert_eq!(missing(&[("authentication", "environment")]), "host");
    assert_eq!(missing(&[("authentication", "environment"), ("host", "h")]), "database");
}

#[test]
fn only_strings_count_as_required_fields() {
    let config = make_typed_config(vec![
        ("authentication", text("environment")),
        ("host", ConfigValue::integer(5)),
        ("database", text("d")),
    ]);
    let error = SQLServerAuth.configure(&config).expect_err("a number is no host");
    assert!(matches!(error, AuthError::MissingField(field) if field == "host"));

    let config = make_typed_config(vec![
        ("host", ConfigValue::Null),
        ("port", ConfigValue::Nested),
        ("n", ConfigValue::integer(-12)),
        ("b", ConfigValue::Bool(true)),
    ]);
    assert_eq!(config.get_str("host"), None);
    assert_eq!(config.get_str("n"), None);
    assert_eq!(config.get_string("host"), None);
    assert_eq!(config.get_string("port"), None);
    assert_eq!(config.get_string("n").as_deref(), Some("-12"));
    assert_eq!(config.get_string("b").as_deref(), Some("true"));
    assert_eq!(config.get_string("absent"), None);
}

#[test]
fn hosts_and_ports_that_make_no_uri_are_refused() {
    let refused = |host: &str, port: &str| {
        let config = make_config(&[
            ("authentication", "environment"),
            ("host", host),
            ("port", port),
            ("database", "d"),
        ]);
        match SQLServerAuth.configure(&config) {
            Err(AuthError::InvalidUri(text)) => text,
            other => panic!("{other:?}"),
        }
    };

    assert_eq!(refused("db\\instance", "1433"), "sqlserver://db\\instance:1433");
    assert_eq!(refused("localhost", "no port"), "sqlserver://localhost:no port");
    assert_eq!(refused("localhost", "65536"), "sqlserver://localhost:65536");
}

#[test]
fn an_unparsable_host_is_reported_before_a_missing_database() {
    let config = make_config(&[("host", "a b")]);
    let error = apply_connection_args(&config, Builder::new(Backend::SQLServer)).expect_err("host");
    assert!(matches!(error, AuthError::InvalidUri(text) if text == "sqlserver://a b:1433"));
}

#[test]
fn flags_are_read_in_every_spelling() {
    let flag = |value: ConfigValue, default: bool| {
        get_flag(&make_typed_config(vec![("f", value)]), "f", default)
    };

    assert!(flag(ConfigValue::Bool(true), false));
    assert!(flag(text("TRUE"), false));
    assert!(flag(text("tRue"), false));
    assert!(flag(text("1"), false));
    assert!(flag(ConfigValue::integer(1), false));
    assert!(!flag(ConfigValue::Bool(false), true));
    assert!(!flag(text("False"), true));
    assert!(!flag(text("0"), true));
    for default in [true, false] {
        assert_eq!(flag(text("yes"), default), default);
        assert_eq!(flag(text(""), default), default);
        assert_eq!(flag(ConfigValue::Null, default), default);
        assert_eq!(get_flag(&make_config(&[]), "f", default), default);
    }
}

#[test]
fn only_positive_timeouts_are_sent() {
    let sent = |value: ConfigValue| {
        let config = make_typed_config(vec![
            ("authentication", text("environment")),
            ("host", text("h")),
            ("database", text("d")),
            ("login_timeout", value),
        ]);
        let outcome = SQLServerAuth.configure(&config).expect("configure");
        parameters(&outcome.builder)
            .into_iter()
            .find(|(name, _)| name == "connection timeout")
            .map(|(_, value)| value)
    };

    assert_eq!(sent(text("0030")).as_deref(), Some("30"));
    assert_eq!(sent(ConfigValue::integer(i64::MAX)).as_deref(), Some("9223372036854775807"));
    assert_eq!(sent(text("9223372036854775808")), None);
    assert_eq!(sent(text("-5")), None);
    assert_eq!(sent(text(" 30")), None);
    assert_eq!(sent(text("")), None);
    assert_eq!(sent(text("+")), None);
    assert_eq!(sent(text("30s")), None);
    assert_eq!(sent(ConfigValue::Bool(true)), None);
}

#[test]
fn the_server_uri_takes_the_port_as_it_is_spelled() {
    assert_eq!(server_uri_text(&make_config(&[]), "h"), "sqlserver://h:1433");
    assert_eq!(server_uri_text(&make_config(&[("port", " 7")]), "h"), "sqlserver://h: 7");
}

#[test]
fn settings_leave_a_builder_without_a_uri_alone() {
    let settings = SQLServerAuthIR::SqlLogin { user: "u", password: "p" };
    let builder = settings.apply(Builder::new(Backend::SQLServer)).expect("apply");
    assert!(builder.uri.is_none());
    assert_eq!(builder.backend, Backend::SQLServer);
}

#[test]
fn a_builder_keeps_its_uri_where_a_text_is_none() {
    let mut builder = Builder::new(Backend::SQLServer);
    builder.with_parse_uri("sqlserver://h:1".to_string()).expect("uri");
    let error = builder.with_parse_uri("no uri".to_string()).expect_err("no scheme");
    assert!(matches!(error, AuthError::InvalidUri(text) if text == "no uri"));
    assert_eq!(uri_value(&builder), "sqlserver://h:1");
}

#[test]
fn configuring_within_the_limit_gives_the_same_outcome() {
    let good = make_config(&[("authentication", "environment"), ("host", "h"), ("database", "d")]);
    let within = SQLServerAuth.configure_within_limit(&good).expect("short").expect("configure");
    let plain = SQLServerAuth.configure(&good).expect("configure");
    assert_eq!(uri_value(&within.builder), uri_value(&plain.builder));

    let invalid = make_config(&[("authentication", "x")]);
    let outcome = SQLServerAuth.configure_within_limit(&invalid).expect("no uri to measure");
    assert!(matches!(outcome, Err(AuthError::Config(_))));

    let no_host = make_config(&[("authentication", "environment")]);
    let outcome = SQLServerAuth.configure_within_limit(&no_host).expect("no uri to measure");
    assert!(matches!(outcome, Err(AuthError::MissingField(field)) if field == "host"));

    let bad_host = make_config(&[("authentication", "environment"), ("host", "a b")]);
    let outcome = SQLServerAuth.configure_within_limit(&bad_host).expect("no uri to measure");
    assert!(matches!(outcome, Err(AuthError::InvalidUri(_))));

    let no_database = make_config(&[("authentication", "environment"), ("host", "h")]);
    let outcome = SQLServerAuth.configure_within_limit(&no_database).expect("nothing to append");
    assert!(matches!(outcome, Err(AuthError::MissingField(field)) if field == "database"));
}
