//! The interactive setup of a profile.

use sqlserver_adapter::profile::{
    auth_index, auth_label_options, default_sqlserver_config, setup_sqlserver_profile, FsError,
    SqlServerDbConfig, StringOrInteger,
};
use sqlserver_adapter::prompt::{FieldKind, FieldValue};

fn string(text: &str) -> FieldValue {
    FieldValue::String(text.to_string())
}

const TEXT_FIELDS: [&str; 8] = [
    "host", "database", "schema", "user", "password", "client_id", "client_secret", "tenant_id",
];

#[test]
fn text_fields_read_back_and_leave_the_others_alone() {
    let mut config = SqlServerDbConfig::default();
    for (i, name) in TEXT_FIELDS.iter().enumerate() {
        assert!(!config.is_field_set(name));
        assert_eq!(config.get_field(name), None);
        config.set_field(name, string(&format!("value {i}"))).expect("set");
    }
    for (i, name) in TEXT_FIELDS.iter().enumerate() {
        assert!(config.is_field_set(name));
        assert_eq!(config.get_field(name), Some(string(&format!("value {i}"))));
    }
    assert_eq!(config.host.as_deref(), Some("value 0"));
    assert_eq!(config.tenant_id.as_deref(), Some("value 7"));
    assert_eq!(config.port, None);
    assert_eq!(config.authentication, None);
    assert_eq!(config.encrypt, None);
    assert_eq!(config.trust_cert, None);
}

#[test]
fn text_fields_pass_over_other_answers() {
    for name in TEXT_FIELDS {
        let mut config = SqlServerDbConfig::default();
        config.set_field(name, FieldValue::Integer(1)).expect("set");
        config.set_field(name, FieldValue::Boolean(true)).expect("set");
        assert_eq!(config, SqlServerDbConfig::default());
    }
}

#[test]
fn unknown_fields_are_passed_over() {
    let mut config = default_sqlserver_config();
    config.set_field("no_such_field", string("x")).expect("set");
    config.set_field("encrypt", FieldValue::Boolean(false)).expect("set");
    assert_eq!(config, default_sqlserver_config());
    assert_eq!(config.get_field("encrypt"), None);
    assert!(!config.is_field_set("encrypt"));
}

#[test]
fn ports_are_kept_as_numbers() {
    let mut config = SqlServerDbConfig::default();
    config.set_field("port", string("abc")).expect("set");
    config.set_field("port", string("")).expect("set");
    config.set_field("port", FieldValue::Boolean(true)).expect("set");
    assert_eq!(config.port, None);
    assert!(!config.is_field_set("port"));

    config.set_field("port", string("1434")).expect("set");
    assert_eq!(config.port, Some(StringOrInteger::Integer(1434)));
    assert_eq!(config.get_field("port"), Some(FieldValue::Integer(1434)));

    config.set_field("port", string("-7")).expect("set");
    assert_eq!(config.get_field("port"), Some(FieldValue::Integer(-7)));

    config.set_field("port", FieldValue::Integer(1)).expect("set");
    assert_eq!(config.get_field("port"), Some(FieldValue::Integer(1)));

    config.set_field("port", string("99999999999999999999")).expect("set");
    assert_eq!(config.get_field("port"), Some(FieldValue::Integer(1)));
}

#[test]
fn a_port_kept_as_text_shows_as_text_until_it_is_answered() {
    let mut config = SqlServerDbConfig::default();
    config.port = Some(StringOrInteger::String("1433".to_string()));
    assert!(config.is_field_set("port"));
    assert_eq!(config.get_field("port"), Some(string("1433")));

    config.set_field("port", string("1433")).expect("set");
    assert_eq!(config.get_field("port"), Some(FieldValue::Integer(1433)));
}

#[test]
fn methods_are_chosen_by_their_places() {
    let names = ["sql", "ActiveDirectoryServicePrincipal", "ActiveDirectoryPassword", "environment"];
    for (i, name) in names.iter().enumerate() {
        let mut config = SqlServerDbConfig::default();
        config.set_field("authentication", FieldValue::Integer(i as i64)).expect("set");
        assert_eq!(config.authentication.as_deref(), Some(*name));
        assert_eq!(config.get_field("authentication"), Some(FieldValue::Integer(i as i64)));
        assert!(config.is_field_set("authentication"));
    }
    for answer in [FieldValue::Integer(4), FieldValue::Integer(-1), string("environment")] {
        let mut config = default_sqlserver_config();
        config.set_field("authentication", answer).expect("set");
        assert_eq!(config, default_sqlserver_config());
    }
}

#[test]
fn methods_are_found_in_any_case() {
    assert_eq!(auth_index("sql"), Some(0));
    assert_eq!(auth_index("SQL"), Some(0));
    assert_eq!(auth_index("activedirectoryserviceprincipal"), Some(1));
    assert_eq!(auth_index("ActiveDirectoryPassword"), Some(2));
    assert_eq!(auth_index("Environment"), Some(3));
    assert_eq!(auth_index("ServicePrincipal"), None);
    assert_eq!(auth_index(""), None);
}

#[test]
fn a_method_that_is_not_offered_counts_as_unset() {
    let mut config = SqlServerDbConfig::default();
    config.authentication = Some("CLI".to_string());
    assert!(!config.is_field_set("authentication"));
    assert_eq!(config.get_field("authentication"), None);

    config.authentication = Some("SQL".to_string());
    assert!(config.is_field_set("authentication"));
    assert_eq!(config.get_field("authentication"), Some(FieldValue::Integer(0)));
}

#[test]
fn giving_back_the_shown_answers_changes_nothing_that_is_shown() {
    let mut config = default_sqlserver_config();
    config.authentication = Some("ENVIRONMENT".to_string());
    config.host = Some("h".to_string());
    config.port = Some(StringOrInteger::String("default".to_string()));
    for name in ["authentication", "host", "port"] {
        let shown = config.get_field(name).expect("shown");
        config.set_field(name, shown.clone()).expect("set");
        assert_eq!(config.get_field(name), Some(shown));
    }
    assert_eq!(config.authentication.as_deref(), Some("environment"));
}

#[test]
fn the_labels_are_offered_in_the_order_of_the_methods() {
    let labels = auth_label_options();
    assert_eq!(
        labels,
        vec![
            "SQL Authentication (native SQL Server login, UID/PWD)",
            "Active Directory Service Principal",
            "Active Directory Password",
            "Environment (DefaultAzureCredential env vars, see https://learn.microsoft.com/en-us/python/api/azure-identity/azure.identity.environmentcredential, explain the available combinations of environment variables you can use to authenticate.)",
        ]
    );
}

#[test]
fn the_fields_come_in_their_order() {
    let fields = SqlServerDbConfig::get_fields();
    let names: Vec<(&str, &str)> = fields.iter().map(|f| (f.name, f.prompt)).collect();
    assert_eq!(
        names,
        vec![
            ("host", "Host (server hostname, e.g. localhost or my-server.database.windows.net)"),
            ("port", "Port"),
            ("database", "Database"),
            ("schema", "Schema"),
            ("authentication", "Which authentication method would you like to use?"),
            ("user", "Username (SQL Server login)"),
            ("password", "Password"),
            ("client_id", "Client ID (app registration)"),
            ("client_secret", "Client secret"),
            ("tenant_id", "Tenant ID (optional)"),
            ("client_id", "Client ID (Entra app registration used to request the user token)"),
            ("user", "Username (Entra user principal name)"),
            ("password", "Password (Entra user password)"),
        ]
    );

    assert!(matches!(fields[0].kind, FieldKind::Input { required: true, default: None }));
    assert!(matches!(fields[1].kind, FieldKind::Input { required: false, default: Some("1433") }));
    assert!(matches!(fields[6].kind, FieldKind::Password));
    assert!(matches!(fields[9].kind, FieldKind::Input { required: false, default: None }));
    match &fields[4].kind {
        FieldKind::Select { options, selected } => {
            assert_eq!(*options, auth_label_options());
            assert_eq!(*selected, 0);
        }
        other => panic!("{other:?}"),
    }
}

#[test]
fn each_method_asks_for_its_own_fields() {
    let asked = |method: Option<i64>| -> Vec<&'static str> {
        let mut config = SqlServerDbConfig::default();
        if let Some(i) = method {
            config.set_field("authentication", FieldValue::Integer(i)).expect("set");
        }
        let fields = SqlServerDbConfig::get_fields();
        fields.iter().skip(5).filter(|f| config.is_asked(f)).map(|f| f.name).collect()
    };

    assert_eq!(asked(Some(0)), vec!["user", "password"]);
    assert_eq!(asked(Some(1)), vec!["client_id", "client_secret", "tenant_id"]);
    assert_eq!(asked(Some(2)), vec!["client_id", "user", "password"]);
    assert!(asked(Some(3)).is_empty());
    assert!(asked(None).is_empty());

    let config = SqlServerDbConfig::default();
    assert!(SqlServerDbConfig::get_fields().iter().take(5).all(|f| config.is_asked(f)));
}

#[test]
fn no_field_is_asked_for_twice() {
    for method in 0..4 {
        let mut config = SqlServerDbConfig::default();
        config.set_field("authentication", FieldValue::Integer(method)).expect("set");
        let fields = SqlServerDbConfig::get_fields();
        let mut names: Vec<&str> =
            fields.iter().filter(|f| config.is_asked(f)).map(|f| f.name).collect();
        let count = names.len();
        names.sort();
        names.dedup();
        assert_eq!(names.len(), count);
    }
}

#[test]
fn conditions_are_about_a_list_that_is_asked_for_before() {
    let fields = SqlServerDbConfig::get_fields();
    for (i, field) in fields.iter().enumerate() {
        if let Some((name, value)) = &field.condition {
            let place = fields.iter().position(|f| f.name == *name).expect("the list");
            assert!(place < i);
            assert!(fields[place].condition.is_none());
            match (&fields[place].kind, value) {
                (FieldKind::Select { options, .. }, FieldValue::Integer(k)) => {
                    assert!((*k as usize) < options.len());
                }
                other => panic!("{other:?}"),
            }
        }
    }
}

#[test]
fn answers_to_prompts_are_kept() {
    for field in SqlServerDbConfig::get_fields() {
        let mut config = SqlServerDbConfig::default();
        let answer = match &field.kind {
            FieldKind::Select { options, .. } => FieldValue::Integer(options.len() as i64 - 1),
            _ => string("77"),
        };
        config.set_field(field.name, answer.clone()).expect("set");
        let shown = config.get_field(field.name).expect("kept");
        if field.name == "port" {
            assert_eq!(shown, FieldValue::Integer(77));
        } else {
            assert_eq!(shown, answer);
        }
    }
}

#[test]
fn a_new_profile_starts_with_a_verified_native_login() {
    let config = default_sqlserver_config();
    assert_eq!(config.authentication.as_deref(), Some("sql"));
    assert_eq!(config.encrypt, Some(true));
    assert_eq!(config.trust_cert, Some(false));
    assert_eq!(config.get_field("authentication"), Some(FieldValue::Integer(0)));
    let rest = SqlServerDbConfig { authentication: None, encrypt: None, trust_cert: None, ..config };
    assert_eq!(rest, SqlServerDbConfig::default());
}

#[test]
fn the_setup_starts_from_the_existing_profile() {
    let mut existing = SqlServerDbConfig::default();
    existing.host = Some("h".to_string());

    let done = setup_sqlserver_profile(Some(&existing), |start: &SqlServerDbConfig| {
        assert_eq!(start.host.as_deref(), Some("h"));
        let mut config = start.clone();
        config.set_field("schema", string("dbo"))?;
        Ok(config)
    })
    .expect("setup");
    assert_eq!(done.host.as_deref(), Some("h"));
    assert_eq!(done.schema.as_deref(), Some("dbo"));
    assert_eq!(done.authentication, None);
}

#[test]
fn the_setup_starts_from_the_default_profile_where_there_is_none() {
    let done = setup_sqlserver_profile(None, |start: &SqlServerDbConfig| Ok(start.clone()));
    assert_eq!(*done.expect("setup"), default_sqlserver_config());
}

#[test]
fn an_error_in_the_setup_is_handed_on() {
    let error = FsError { message: "interrupted".to_string() };
    let done = setup_sqlserver_profile(None, |_: &SqlServerDbConfig| Err(error.clone()));
    assert_eq!(done.expect_err("error"), error);
}
