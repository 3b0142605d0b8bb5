//! The interactive setup of a connection profile: which fields are asked for, and how the answers
//! are kept.

use vstd::prelude::*;

use crate::adapter_config::{text_at, AuthFault, Fields};
use crate::auth::{chosen_authentication, is_unimplemented, parsed_auth};
use crate::prompt::{
    texts, ConfigField, FieldContent, FieldKind, FieldValue, Prompt, PromptKind,
};
use crate::text::{
    parse_i64, parsed_i64, same_ignoring_ascii_case, str_eq, str_eq_ignoring_ascii_case,
};

verus! {

/// A number that may be written as a string.
#[derive(Debug, Clone, PartialEq, Eq)]
pub enum StringOrInteger {
    String(String),
    Integer(i64),
}

impl View for StringOrInteger {
    type V = FieldContent;

    open spec fn view(&self) -> FieldContent {
        match *self {
            StringOrInteger::String(s) => FieldContent::String(s@),
            StringOrInteger::Integer(i) => FieldContent::Integer(i),
        }
    }
}

/// The authentication methods, in the order in which they are offered.
pub open spec fn method_names() -> Seq<Seq<char>> {
    seq![
        "sql"@,
        "ActiveDirectoryServicePrincipal"@,
        "ActiveDirectoryPassword"@,
        "environment"@,
    ]
}

/// What is shown for each of them.
pub open spec fn method_labels() -> Seq<Seq<char>> {
    seq![
        "SQL Authentication (native SQL Server login, UID/PWD)"@,
        "Active Directory Service Principal"@,
        "Active Directory Password"@,
        "Environment (DefaultAzureCredential env vars, see https://learn.microsoft.com/en-us/python/api/azure-identity/azure.identity.environmentcredential, explain the available combinations of environment variables you can use to authenticate.)"@,
    ]
}

/// The first of the methods from `start` on that `value` names, in any ASCII case.
pub open spec fn method_index_from(value: Seq<char>, start: int) -> Option<i64>
    decreases method_names().len() - start,
{
    if start < 0 || start >= method_names().len() {
        None
    } else if same_ignoring_ascii_case(method_names()[start], value) {
        Some(start as i64)
    } else {
        method_index_from(value, start + 1)
    }
}

/// The place of the method that `value` names, in any ASCII case.
pub open spec fn method_index(value: Seq<char>) -> Option<i64> {
    method_index_from(value, 0)
}

/// The methods with their labels.
fn auth_methods() -> (methods: Vec<(&'static str, &'static str)>)
    ensures
        methods@.len() == method_names().len(),
        methods@.len() == method_labels().len(),
        forall|i: int|
            0 <= i < methods@.len() ==> (#[trigger] methods@[i]).0@ == method_names()[i]
                && methods@[i].1@ == method_labels()[i],
{
    vec![
        ("sql", "SQL Authentication (native SQL Server login, UID/PWD)"),
        ("ActiveDirectoryServicePrincipal", "Active Directory Service Principal"),
        ("ActiveDirectoryPassword", "Active Directory Password"),
        (
            "environment",
            "Environment (DefaultAzureCredential env vars, see https://learn.microsoft.com/en-us/python/api/azure-identity/azure.identity.environmentcredential, explain the available combinations of environment variables you can use to authenticate.)",
        ),
    ]
}

/// The place of an authentication method in the list that is offered.
pub fn auth_index(value: &str) -> (index: Option<i64>)
    ensures
        index == method_index(value@),
{
    let methods = auth_methods();
    let mut i: usize = 0;
    while i < methods.len()
        invariant
            i <= methods.len(),
            methods@.len() == method_names().len(),
            methods@.len() == 4,
            forall|k: int| 0 <= k < methods@.len() ==> (#[trigger] methods@[k]).0@ == method_names()[k],
            method_index(value@) == method_index_from(value@, i as int),
        decreases methods.len() - i,
    {
        if str_eq_ignoring_ascii_case(methods[i].0, value) {
            return Some(i as i64);
        }
        i += 1;
    }
    None
}

/// The labels of the authentication methods.
pub fn auth_label_options() -> (labels: Vec<&'static str>)
    ensures
        texts(labels@) == method_labels(),
{
    let methods = auth_methods();
    let mut labels: Vec<&'static str> = Vec::new();
    let mut i: usize = 0;
    while i < methods.len()
        invariant
            i <= methods.len(),
            labels@.len() == i,
            methods@.len() == method_labels().len(),
            forall|k: int| 0 <= k < methods@.len() ==> (#[trigger] methods@[k]).1@ == method_labels()[k],
            forall|k: int| 0 <= k < i ==> (#[trigger] labels@[k])@ == method_labels()[k],
        decreases methods.len() - i,
    {
        labels.push(methods[i].1);
        i += 1;
    }
    assert(texts(labels@) =~= method_labels());
    labels
}

/// The connection profile of a SQL Server target.
#[derive(Debug, Clone, PartialEq, Eq)]
pub struct SqlServerDbConfig {
    pub host: Option<String>,
    pub port: Option<StringOrInteger>,
    pub database: Option<String>,
    pub schema: Option<String>,
    pub authentication: Option<String>,
    pub user: Option<String>,
    pub password: Option<String>,
    pub client_id: Option<String>,
    pub client_secret: Option<String>,
    pub tenant_id: Option<String>,
    pub encrypt: Option<bool>,
    pub trust_cert: Option<bool>,
}

/// The content of a [`SqlServerDbConfig`].
#[verifier::ext_equal]
pub struct Profile {
    /// The fields that the setup can ask for, by their names, as far as they are filled in.
    pub fields: Map<Seq<char>, FieldContent>,
    pub encrypt: Option<bool>,
    pub trust_cert: Option<bool>,
}

/// The content of a text field.
pub open spec fn text_content(text: Option<String>) -> Option<FieldContent> {
    match text {
        Some(s) => Some(FieldContent::String(s@)),
        None => None,
    }
}

impl SqlServerDbConfig {
    /// What stands in the field of that name.
    pub open spec fn content(self, name: Seq<char>) -> Option<FieldContent> {
        if name == "host"@ {
            text_content(self.host)
        } else if name == "port"@ {
            match self.port {
                Some(port) => Some(port@),
                None => None,
            }
        } else if name == "database"@ {
            text_content(self.database)
        } else if name == "schema"@ {
            text_content(self.schema)
        } else if name == "authentication"@ {
            text_content(self.authentication)
        } else if name == "user"@ {
            text_content(self.user)
        } else if name == "password"@ {
            text_content(self.password)
        } else if name == "client_id"@ {
            text_content(self.client_id)
        } else if name == "client_secret"@ {
            text_content(self.client_secret)
        } else if name == "tenant_id"@ {
            text_content(self.tenant_id)
        } else {
            None
        }
    }
}

impl View for SqlServerDbConfig {
    type V = Profile;

    open spec fn view(&self) -> Profile {
        Profile {
            fields: Map::new(
                |name: Seq<char>| self.content(name) is Some,
                |name: Seq<char>| self.content(name)->0,
            ),
            encrypt: self.encrypt,
            trust_cert: self.trust_cert,
        }
    }
}

/// The fields that hold a text as it was given.
pub open spec fn is_text_field(name: Seq<char>) -> bool {
    ||| name == "host"@
    ||| name == "database"@
    ||| name == "schema"@
    ||| name == "user"@
    ||| name == "password"@
    ||| name == "client_id"@
    ||| name == "client_secret"@
    ||| name == "tenant_id"@
}

/// What an answer leaves in a field: a text where the field takes one, a port as a number, the
/// name of the authentication method whose place was chosen. Any other answer leaves nothing.
pub open spec fn answer_content(name: Seq<char>, value: FieldContent) -> Option<FieldContent> {
    if name == "port"@ {
        match value {
            FieldContent::String(s) => match parsed_i64(s) {
                Some(port) => Some(FieldContent::Integer(port)),
                None => None,
            },
            FieldContent::Integer(port) => Some(FieldContent::Integer(port)),
            FieldContent::Boolean(_) => None,
        }
    } else if name == "authentication"@ {
        match value {
            FieldContent::Integer(i) => if 0 <= i < method_names().len() {
                Some(FieldContent::String(method_names()[i as int]))
            } else {
                None
            },
            _ => None,
        }
    } else if is_text_field(name) {
        match value {
            FieldContent::String(_) => Some(value),
            _ => None,
        }
    } else {
        None
    }
}

proof fn lemma_field_names_differ()
    ensures
        "port"@ != "authentication"@,
        !is_text_field("port"@),
        !is_text_field("authentication"@),
{
    reveal_strlit("host");
    reveal_strlit("port");
    reveal_strlit("database");
    reveal_strlit("schema");
    reveal_strlit("authentication");
    reveal_strlit("user");
    reveal_strlit("password");
    reveal_strlit("client_id");
    reveal_strlit("client_secret");
    reveal_strlit("tenant_id");
    assert("port"@[0] == 'p' && "host"@[0] == 'h' && "user"@[0] == 'u');
    assert("port"@.len() == 4 && "authentication"@.len() == 14);
    assert("host"@.len() == 4 && "user"@.len() == 4 && "schema"@.len() == 6);
    assert("database"@.len() == 8 && "password"@.len() == 8 && "tenant_id"@.len() == 9);
    assert("client_id"@.len() == 9 && "client_secret"@.len() == 13);
}

impl Profile {
    /// The profile after an answer for a field.
    pub open spec fn answered(self, name: Seq<char>, value: FieldContent) -> Profile {
        match answer_content(name, value) {
            Some(content) => Profile { fields: self.fields.insert(name, content), ..self },
            None => self,
        }
    }

    /// What a field shows as the answer it holds: an authentication method shows as its place in
    /// the list, and not at all where it is not in the list.
    pub open spec fn shown(self, name: Seq<char>) -> Option<FieldContent> {
        if !self.fields.contains_key(name) {
            None
        } else if name == "authentication"@ {
            match self.fields[name] {
                FieldContent::String(s) => match method_index(s) {
                    Some(i) => Some(FieldContent::Integer(i)),
                    None => None,
                },
                _ => None,
            }
        } else {
            Some(self.fields[name])
        }
    }
}

/// What went wrong in the setup.
#[derive(Debug, Clone, PartialEq, Eq)]
pub struct FsError {
    pub message: String,
}

fn shown_text(text: &Option<String>) -> (value: Option<FieldValue>)
    ensures
        match value {
            Some(v) => text_content(*text) == Some(v@),
            None => text is None,
        },
{
    match text {
        Some(s) => Some(FieldValue::String(s.clone())),
        None => None,
    }
}

impl Default for SqlServerDbConfig {
    fn default() -> (config: SqlServerDbConfig)
        ensures
            config@ == (Profile { fields: Map::empty(), encrypt: None, trust_cert: None }),
    {
        let config = SqlServerDbConfig {
            host: None,
            port: None,
            database: None,
            schema: None,
            authentication: None,
            user: None,
            password: None,
            client_id: None,
            client_secret: None,
            tenant_id: None,
            encrypt: None,
            trust_cert: None,
        };
        assert(config@.fields =~= Map::empty());
        config
    }
}

impl SqlServerDbConfig {
    /// Takes an answer for a field. Fields of other names, and answers of another kind, are
    /// passed over.
    pub fn set_field(&mut self, field_name: &str, value: FieldValue) -> (r: Result<(), FsError>)
        ensures
            r is Ok,
            final(self)@ == old(self)@.answered(field_name@, value@),
    {
        let ghost before = *self;
        if str_eq(field_name, "host") {
            if let FieldValue::String(s) = value {
                self.host = Some(s);
            }
        } else if str_eq(field_name, "port") {
            match value {
                FieldValue::String(s) => {
                    if let Some(port) = parse_i64(s.as_str()) {
                        self.port = Some(StringOrInteger::Integer(port));
                    }
                },
                FieldValue::Integer(i) => {
                    self.port = Some(StringOrInteger::Integer(i));
                },
                _ => {},
            }
        } else if str_eq(field_name, "database") {
            if let FieldValue::String(s) = value {
                self.database = Some(s);
            }
        } else if str_eq(field_name, "schema") {
            if let FieldValue::String(s) = value {
                self.schema = Some(s);
            }
        } else if str_eq(field_name, "authentication") {
            if let FieldValue::Integer(i) = value {
                let methods = auth_methods();
                if 0 <= i && i < methods.len() as i64 {
                    self.authentication = Some(methods[i as usize].0.to_owned());
                }
            }
        } else if str_eq(field_name, "user") {
            if let FieldValue::String(s) = value {
                self.user = Some(s);
            }
        } else if str_eq(field_name, "password") {
            if let FieldValue::String(s) = value {
                self.password = Some(s);
            }
        } else if str_eq(field_name, "client_id") {
            if let FieldValue::String(s) = value {
                self.client_id = Some(s);
            }
        } else if str_eq(field_name, "client_secret") {
            if let FieldValue::String(s) = value {
                self.client_secret = Some(s);
            }
        } else if str_eq(field_name, "tenant_id") {
            if let FieldValue::String(s) = value {
                self.tenant_id = Some(s);
            }
        }
        proof {
            lemma_field_names_differ();
            let answered = before@.answered(field_name@, value@);
            assert forall|name: Seq<char>| name != field_name@ implies #[trigger] self.content(name)
                == before.content(name) by {}
            assert(self@.fields =~= answered.fields);
        }
        Ok(())
    }

    /// The answer that a field holds.
    pub fn get_field(&self, field_name: &str) -> (value: Option<FieldValue>)
        ensures
            match value {
                Some(v) => self@.shown(field_name@) == Some(v@),
                None => self@.shown(field_name@) is None,
            },
    {
        proof {
            lemma_field_names_differ();
        }
        if str_eq(field_name, "host") {
            shown_text(&self.host)
        } else if str_eq(field_name, "port") {
            match &self.port {
                Some(StringOrInteger::String(s)) => Some(FieldValue::String(s.clone())),
                Some(StringOrInteger::Integer(i)) => Some(FieldValue::Integer(*i)),
                None => None,
            }
        } else if str_eq(field_name, "database") {
            shown_text(&self.database)
        } else if str_eq(field_name, "schema") {
            shown_text(&self.schema)
        } else if str_eq(field_name, "authentication") {
            match &self.authentication {
                Some(s) => match auth_index(s.as_str()) {
                    Some(i) => Some(FieldValue::Integer(i)),
                    None => None,
                },
                None => None,
            }
        } else if str_eq(field_name, "user") {
            shown_text(&self.user)
        } else if str_eq(field_name, "password") {
            shown_text(&self.password)
        } else if str_eq(field_name, "client_id") {
            shown_text(&self.client_id)
        } else if str_eq(field_name, "client_secret") {
            shown_text(&self.client_secret)
        } else if str_eq(field_name, "tenant_id") {
            shown_text(&self.tenant_id)
        } else {
            None
        }
    }

    /// Whether a field holds an answer.
    pub fn is_field_set(&self, field_name: &str) -> (r: bool)
        ensures
            r == (self@.shown(field_name@) is Some),
    {
        proof {
            lemma_field_names_differ();
        }
        if str_eq(field_name, "host") {
            self.host.is_some()
        } else if str_eq(field_name, "port") {
            self.port.is_some()
        } else if str_eq(field_name, "database") {
            self.database.is_some()
        } else if str_eq(field_name, "schema") {
            self.schema.is_some()
        } else if str_eq(field_name, "authentication") {
            match &self.authentication {
                Some(s) => auth_index(s.as_str()).is_some(),
                None => false,
            }
        } else if str_eq(field_name, "user") {
            self.user.is_some()
        } else if str_eq(field_name, "password") {
            self.password.is_some()
        } else if str_eq(field_name, "client_id") {
            self.client_id.is_some()
        } else if str_eq(field_name, "client_secret") {
            self.client_secret.is_some()
        } else if str_eq(field_name, "tenant_id") {
            self.tenant_id.is_some()
        } else {
            false
        }
    }
}

/// What the setup asks for, in this order.
pub open spec fn prompts() -> Seq<Prompt> {
    let sql = FieldContent::Integer(0);
    let service_principal = FieldContent::Integer(1);
    let password = FieldContent::Integer(2);
    seq![
        Prompt::input(
            "host"@,
            "Host (server hostname, e.g. localhost or my-server.database.windows.net)"@,
        ),
        Prompt::optional_input("port"@, "Port"@, Some("1433"@)),
        Prompt::input("database"@, "Database"@),
        Prompt::input("schema"@, "Schema"@),
        Prompt::select(
            "authentication"@,
            "Which authentication method would you like to use?"@,
            method_labels(),
            0,
        ),
        Prompt::input("user"@, "Username (SQL Server login)"@).when("authentication"@, sql),
        Prompt::password("password"@, "Password"@).when("authentication"@, sql),
        Prompt::input("client_id"@, "Client ID (app registration)"@).when(
            "authentication"@,
            service_principal,
        ),
        Prompt::password("client_secret"@, "Client secret"@).when(
            "authentication"@,
            service_principal,
        ),
        Prompt::optional_input("tenant_id"@, "Tenant ID (optional)"@, None).when(
            "authentication"@,
            service_principal,
        ),
        Prompt::input(
            "client_id"@,
            "Client ID (Entra app registration used to request the user token)"@,
        ).when("authentication"@, password),
        Prompt::input("user"@, "Username (Entra user principal name)"@).when(
            "authentication"@,
            password,
        ),
        Prompt::password("password"@, "Password (Entra user password)"@).when(
            "authentication"@,
            password,
        ),
    ]
}

/// Whether a field is asked for with the answers in a profile.
pub open spec fn asked(profile: Profile, prompt: Prompt) -> bool {
    prompt.condition matches Some((name, value)) ==> profile.shown(name) == Some(value)
}

/// The contents of a list of fields.
pub open spec fn fields_view(fields: Seq<ConfigField>) -> Seq<Prompt> {
    Seq::new(fields.len(), |i: int| fields[i]@)
}

impl SqlServerDbConfig {
    /// The fields that the setup asks for, in this order. The method that needs no further field
    /// is `environment`, whose credentials come from environment variables.
    pub fn get_fields() -> (fields: Vec<ConfigField>)
        ensures
            fields_view(fields@) == prompts(),
    {
        proof {
            law_offered_methods_are_found(0);
            law_offered_methods_are_found(1);
            law_offered_methods_are_found(2);
        }
        let auth_labels = auth_label_options();
        let sql_idx: i64 = auth_index("sql").unwrap_or(0);
        let sp_idx: i64 = auth_index("ActiveDirectoryServicePrincipal").unwrap_or(0);
        let adpw_idx: i64 = auth_index("ActiveDirectoryPassword").unwrap_or(0);
        let auth_default: usize = sql_idx as usize;
        let fields = vec![
            ConfigField::input(
                "host",
                "Host (server hostname, e.g. localhost or my-server.database.windows.net)",
            ),
            ConfigField::optional_input("port", "Port", Some("1433")),
            ConfigField::input("database", "Database"),
            ConfigField::input("schema", "Schema"),
            ConfigField::select(
                "authentication",
                "Which authentication method would you like to use?",
                auth_labels,
                auth_default,
            ),
            ConfigField::input("user", "Username (SQL Server login)").when_field_equals(
                "authentication",
                FieldValue::Integer(sql_idx),
            ),
            ConfigField::password("password", "Password").when_field_equals(
                "authentication",
                FieldValue::Integer(sql_idx),
            ),
            ConfigField::input("client_id", "Client ID (app registration)").when_field_equals(
                "authentication",
                FieldValue::Integer(sp_idx),
            ),
            ConfigField::password("client_secret", "Client secret").when_field_equals(
                "authentication",
                FieldValue::Integer(sp_idx),
            ),
            ConfigField::optional_input("tenant_id", "Tenant ID (optional)", None).when_field_equals(
                "authentication",
                FieldValue::Integer(sp_idx),
            ),
            ConfigField::input(
                "client_id",
                "Client ID (Entra app registration used to request the user token)",
            ).when_field_equals("authentication", FieldValue::Integer(adpw_idx)),
            ConfigField::input("user", "Username (Entra user principal name)").when_field_equals(
                "authentication",
                FieldValue::Integer(adpw_idx),
            ),
            ConfigField::password("password", "Password (Entra user password)").when_field_equals(
                "authentication",
                FieldValue::Integer(adpw_idx),
            ),
        ];
        assert(fields_view(fields@) =~= prompts());
        fields
    }

    /// Whether a field is to be asked for with the answers given so far.
    pub fn is_asked(&self, field: &ConfigField) -> (r: bool)
        ensures
            r == asked(self@, field@),
    {
        match &field.condition {
            Some((name, value)) => match self.get_field(name) {
                Some(answer) => answer.same(value),
                None => false,
            },
            None => true,
        }
    }
}

/// The profile from which a new setup starts.
pub open spec fn default_profile() -> Profile {
    Profile {
        fields: Map::empty().insert("authentication"@, FieldContent::String("sql"@)),
        encrypt: Some(true),
        trust_cert: Some(false),
    }
}

/// The profile from which a new setup starts: a native login over an encrypted connection whose
/// certificate is verified.
pub fn default_sqlserver_config() -> (config: SqlServerDbConfig)
    ensures
        config@ == default_profile(),
{
    let config = SqlServerDbConfig {
        host: None,
        port: None,
        database: None,
        schema: None,
        authentication: Some("sql".to_owned()),
        user: None,
        password: None,
        client_id: None,
        client_secret: None,
        tenant_id: None,
        encrypt: Some(true),
        trust_cert: Some(false),
    };
    proof {
        lemma_field_names_differ();
    }
    assert(config@.fields =~= default_profile().fields);
    config
}

/// Sets up a profile: `process` asks for the fields, starting from the existing profile, or from
/// the default one where there is none, and its profile is the result.
pub fn setup_sqlserver_profile<F>(existing_config: Option<&SqlServerDbConfig>, process: F) -> (r:
    Result<Box<SqlServerDbConfig>, FsError>) where
    F: FnOnce(&SqlServerDbConfig) -> Result<SqlServerDbConfig, FsError>,

    requires
        forall|start: &SqlServerDbConfig|
            (match existing_config {
                Some(existing) => start == existing,
                None => start@ == default_profile(),
            }) ==> #[trigger] call_requires(process, (start,)),
    ensures
        exists|start: &SqlServerDbConfig, processed: Result<SqlServerDbConfig, FsError>|
            {
                &&& match existing_config {
                    Some(existing) => start == existing,
                    None => start@ == default_profile(),
                }
                &&& #[trigger] call_ensures(process, (start,), processed)
                &&& match processed {
                    Ok(config) => r matches Ok(boxed) && *boxed == config,
                    Err(e) => r == Err::<Box<SqlServerDbConfig>, FsError>(e),
                }
            },
{
    let default_config = default_sqlserver_config();
    let start: &SqlServerDbConfig = match existing_config {
        Some(existing) => existing,
        None => &default_config,
    };
    match process(start) {
        Ok(config) => Ok(Box::new(config)),
        Err(e) => Err(e),
    }
}

/// Law: each offered method is found at its own place, so no two of them share a name in any
/// case.
pub proof fn law_offered_methods_are_found(i: int)
    requires
        0 <= i < method_names().len(),
    ensures
        method_index(method_names()[i]) == Some(i as i64),
{
    reveal_strlit("sql");
    reveal_strlit("ActiveDirectoryServicePrincipal");
    reveal_strlit("ActiveDirectoryPassword");
    reveal_strlit("environment");
    reveal_with_fuel(method_index_from, 5);
    let names = method_names();
    assert(names[0].len() == 3 && names[1].len() == 31 && names[2].len() == 23 && names[3].len()
        == 11);
}

/// Law: every method that the setup offers is one that the authentication implements.
pub proof fn law_offered_methods_are_implemented(fields: Fields, i: int)
    requires
        0 <= i < method_names().len(),
        text_at(fields, "authentication"@) == Some(method_names()[i]),
    ensures
        !is_unimplemented(chosen_authentication(fields)),
        !(parsed_auth(fields) matches Err(AuthFault::Config(_))),
{
    reveal_strlit("sql");
    reveal_strlit("serviceprincipal");
    reveal_strlit("ActiveDirectoryServicePrincipal");
    reveal_strlit("ActiveDirectoryPassword");
    reveal_strlit("environment");
    reveal_strlit("ActiveDirectoryInteractive");
    reveal_strlit("ActiveDirectoryIntegrated");
    reveal_strlit("CLI");
    reveal_strlit("auto");
    let names = method_names();
    assert(names[0].len() == 3 && names[1].len() == 31 && names[2].len() == 23 && names[3].len()
        == 11);
    assert("serviceprincipal"@.len() == 16 && "CLI"@.len() == 3 && "auto"@.len() == 4);
    assert("ActiveDirectoryInteractive"@.len() == 26 && "ActiveDirectoryIntegrated"@.len() == 25);
    assert("CLI"@[0] == 'C' && "sql"@[0] == 's');
}

/// Law: an answer that a field takes is the answer that it shows, save that a port given as text
/// shows as the number it spells.
pub proof fn law_answers_read_back(profile: Profile, name: Seq<char>, value: FieldContent)
    requires
        answer_content(name, value) is Some,
    ensures
        profile.answered(name, value).shown(name) == (if name == "port"@ {
            answer_content(name, value)
        } else {
            Some(value)
        }),
        value is Integer ==> profile.answered(name, value).shown(name) == Some(value),
{
    lemma_field_names_differ();
    if name == "authentication"@ {
        law_offered_methods_are_found(value->Integer_0 as int);
    }
}

/// Law: an answer leaves every other field, and the settings that are not asked for, as they were.
pub proof fn law_answers_touch_one_field(
    profile: Profile,
    name: Seq<char>,
    value: FieldContent,
    other: Seq<char>,
)
    requires
        other != name,
    ensures
        profile.answered(name, value).shown(other) == profile.shown(other),
        profile.answered(name, value).encrypt == profile.encrypt,
        profile.answered(name, value).trust_cert == profile.trust_cert,
{
}

/// Law: giving a field the answer that it shows already changes nothing that any field shows.
/// Only a port kept as the text of a number shows otherwise afterwards: as that number.
pub proof fn law_repeated_answers_change_nothing(config: SqlServerDbConfig, name: Seq<char>)
    requires
        config@.shown(name) is Some,
        !(name == "port"@ && (config@.shown(name) matches Some(FieldContent::String(s))
            && parsed_i64(s) is Some)),
    ensures
        forall|other: Seq<char>|
            config@.answered(name, config@.shown(name)->0).shown(other) == #[trigger] config@.shown(
                other,
            ),
{
    lemma_field_names_differ();
    let profile = config@;
    let value = profile.shown(name)->0;
    if name == "authentication"@ {
        let s = profile.fields[name]->String_0;
        lemma_method_index_is_in_range(s, 0);
        law_offered_methods_are_found(method_index(s)->0 as int);
    }
    assert forall|other: Seq<char>|
        profile.answered(name, value).shown(other) == #[trigger] profile.shown(other) by {
        if other != name {
            law_answers_touch_one_field(profile, name, value, other);
        }
    }
}

proof fn lemma_method_index_is_in_range(value: Seq<char>, start: int)
    requires
        0 <= start,
    ensures
        method_index_from(value, start) matches Some(i) ==> start <= i < method_names().len(),
    decreases method_names().len() - start,
{
    if start < method_names().len() {
        lemma_method_index_is_in_range(value, start + 1);
    }
}

/// Law: an answer to any of the prompts is kept: each of the options of a list, each text for a
/// text field, and each text that spells a number for the port.
pub proof fn law_answers_to_prompts_are_kept(i: int, option: i64, text: Seq<char>)
    requires
        0 <= i < prompts().len(),
    ensures
        match prompts()[i].kind {
            PromptKind::Select { options, .. } => 0 <= option < options.len() ==> answer_content(
                prompts()[i].name,
                FieldContent::Integer(option),
            ) is Some,
            _ => answer_content(prompts()[i].name, FieldContent::String(text)) == (if prompts()[i].name
                == "port"@ {
                match parsed_i64(text) {
                    Some(port) => Some(FieldContent::Integer(port)),
                    None => None,
                }
            } else {
                Some(FieldContent::String(text))
            }),
        },
{
    lemma_field_names_differ();
}

/// Law: a condition is about a list that is asked for before, without a condition, and about an
/// answer that the list offers.
pub proof fn law_conditions_look_back(i: int)
    requires
        0 <= i < prompts().len(),
    ensures
        prompts()[i].condition matches Some((name, value)) ==> exists|j: int|
            {
                &&& 0 <= j < i
                &&& (#[trigger] prompts()[j]).name == name
                &&& prompts()[j].condition is None
                &&& prompts()[j].kind matches PromptKind::Select { options, .. }
                    && value matches FieldContent::Integer(k) && 0 <= k < options.len()
            },
{
    assert(prompts()[4].name == "authentication"@);
}

/// Law: no field is asked for twice, whatever the answers.
pub proof fn law_no_field_is_asked_for_twice(profile: Profile, i: int, j: int)
    requires
        0 <= i < j < prompts().len(),
        asked(profile, prompts()[i]),
        asked(profile, prompts()[j]),
    ensures
        prompts()[i].name != prompts()[j].name,
{
    reveal_strlit("host");
    reveal_strlit("port");
    reveal_strlit("database");
    reveal_strlit("schema");
    reveal_strlit("authentication");
    reveal_strlit("user");
    reveal_strlit("password");
    reveal_strlit("client_id");
    reveal_strlit("client_secret");
    reveal_strlit("tenant_id");
    assert("host"@.len() == 4 && "host"@[0] == 'h');
    assert("port"@.len() == 4 && "port"@[0] == 'p');
    assert("database"@.len() == 8 && "database"@[0] == 'd');
    assert("schema"@.len() == 6 && "authentication"@.len() == 14);
    assert("user"@.len() == 4 && "user"@[0] == 'u');
    assert("password"@.len() == 8 && "password"@[0] == 'p');
    assert("client_id"@.len() == 9 && "client_id"@[0] == 'c');
    assert("client_secret"@.len() == 13);
    assert("tenant_id"@.len() == 9 && "tenant_id"@[0] == 't');
}

/// Law: the method of the default profile is the one that is selected at first.
pub proof fn law_default_method_is_preselected()
    ensures
        default_profile().shown("authentication"@) == Some(FieldContent::Integer(0)),
        prompts()[4].kind matches PromptKind::Select { selected, .. } && selected == 0,
{
    law_offered_methods_are_found(0);
}

/// Law: each field of a profile stands under its own name, as text where it is text, and a port as
/// the text or the number that it is.
pub proof fn law_fields_stand_under_their_names(config: SqlServerDbConfig)
    ensures
        config.content("host"@) == text_content(config.host),
        config.content("database"@) == text_content(config.database),
        config.content("schema"@) == text_content(config.schema),
        config.content("authentication"@) == text_content(config.authentication),
        config.content("user"@) == text_content(config.user),
        config.content("password"@) == text_content(config.password),
        config.content("client_id"@) == text_content(config.client_id),
        config.content("client_secret"@) == text_content(config.client_secret),
        config.content("tenant_id"@) == text_content(config.tenant_id),
        config.content("port"@) == (match config.port {
            Some(StringOrInteger::String(s)) => Some(FieldContent::String(s@)),
            Some(StringOrInteger::Integer(i)) => Some(FieldContent::Integer(i)),
            None => None,
        }),
        config@.encrypt == config.encrypt,
        config@.trust_cert == config.trust_cert,
        forall|name: Seq<char>| #[trigger]
            config@.fields.contains_key(name) <==> config.content(name) is Some,
        forall|name: Seq<char>| #[trigger]
            config@.fields.contains_key(name) ==> config@.fields[name] == config.content(name)->0,
        forall|text: String| text_content(Some(text)) == Some(FieldContent::String(#[trigger] text@)),
        text_content(None) is None,
{
    lemma_names_differ();
}

/// No two of the names have both length and first letter in common.
proof fn lemma_names_differ()
    ensures
        "host"@.len() == 4 && "host"@[0] == 'h',
        "port"@.len() == 4 && "port"@[0] == 'p',
        "database"@.len() == 8 && "database"@[0] == 'd',
        "schema"@.len() == 6 && "schema"@[0] == 's',
        "authentication"@.len() == 14 && "authentication"@[0] == 'a',
        "user"@.len() == 4 && "user"@[0] == 'u',
        "password"@.len() == 8 && "password"@[0] == 'p',
        "client_id"@.len() == 9 && "client_id"@[0] == 'c',
        "client_secret"@.len() == 13 && "client_secret"@[0] == 'c',
        "tenant_id"@.len() == 9 && "tenant_id"@[0] == 't',
{
    reveal_strlit("host");
    reveal_strlit("port");
    reveal_strlit("database");
    reveal_strlit("schema");
    reveal_strlit("authentication");
    reveal_strlit("user");
    reveal_strlit("password");
    reveal_strlit("client_id");
    reveal_strlit("client_secret");
    reveal_strlit("tenant_id");
}

/// Law: a text is kept as it is by every field for text, and shown again; any other answer leaves
/// such a field as it was.
pub proof fn law_texts_are_kept_as_given(profile: Profile, name: Seq<char>, value: FieldContent)
    requires
        seq![
            "host"@,
            "database"@,
            "schema"@,
            "user"@,
            "password"@,
            "client_id"@,
            "client_secret"@,
            "tenant_id"@,
        ].contains(name),
    ensures
        value is String ==> profile.answered(name, value).fields == profile.fields.insert(
            name,
            value,
        ) && profile.answered(name, value).shown(name) == Some(value),
        !(value is String) ==> profile.answered(name, value) == profile,
{
    lemma_names_differ();
    let names = seq![
        "host"@,
        "database"@,
        "schema"@,
        "user"@,
        "password"@,
        "client_id"@,
        "client_secret"@,
        "tenant_id"@,
    ];
    let i = choose|i: int| 0 <= i < names.len() && names[i] == name;
    assert(0 <= i < 8);
}

/// Law: a port is kept as the number that was given or spelled; what spells no number leaves it as
/// it was.
pub proof fn law_ports_are_kept_as_numbers(profile: Profile, value: FieldContent, port: i64)
    ensures
        value == FieldContent::Integer(port) || (value matches FieldContent::String(s) && parsed_i64(
            s,
        ) == Some(port)) ==> profile.answered("port"@, value).fields == profile.fields.insert(
            "port"@,
            FieldContent::Integer(port),
        ) && profile.answered("port"@, value).shown("port"@) == Some(FieldContent::Integer(port)),
        value is Boolean || (value matches FieldContent::String(s) && parsed_i64(s) is None)
            ==> profile.answered("port"@, value) == profile,
{
    lemma_names_differ();
}

/// Law: a chosen place stores the name of the method there, in the order in which they are offered;
/// any other answer leaves the method as it was. The place is shown again for the name, in any case.
pub proof fn law_methods_are_stored_by_name(
    profile: Profile,
    place: i64,
    value: FieldContent,
    name: Seq<char>,
)
    ensures
        0 <= place < 4 ==> profile.answered(
            "authentication"@,
            FieldContent::Integer(place),
        ).fields == profile.fields.insert(
            "authentication"@,
            FieldContent::String(
                if place == 0 {
                    "sql"@
                } else if place == 1 {
                    "ActiveDirectoryServicePrincipal"@
                } else if place == 2 {
                    "ActiveDirectoryPassword"@
                } else {
                    "environment"@
                },
            ),
        ),
        !(value matches FieldContent::Integer(i) && 0 <= i < 4) ==> profile.answered(
            "authentication"@,
            value,
        ) == profile,
        method_index(name) == Some(0i64) <==> same_ignoring_ascii_case("sql"@, name),
        method_index(name) == Some(1i64) <==> same_ignoring_ascii_case(
            "ActiveDirectoryServicePrincipal"@,
            name,
        ),
        method_index(name) == Some(2i64) <==> same_ignoring_ascii_case(
            "ActiveDirectoryPassword"@,
            name,
        ),
        method_index(name) == Some(3i64) <==> same_ignoring_ascii_case("environment"@, name),
        method_index(name) matches Some(i) ==> 0 <= i < 4,
{
    lemma_names_differ();
    reveal_strlit("sql");
    reveal_strlit("ActiveDirectoryServicePrincipal");
    reveal_strlit("ActiveDirectoryPassword");
    reveal_strlit("environment");
    reveal_with_fuel(method_index_from, 6);
    let names = method_names();
    assert(names[0].len() == 3 && names[1].len() == 31 && names[2].len() == 23 && names[3].len()
        == 11);
}

/// Law: a name that is no field's is passed over, and shows nothing.
pub proof fn law_other_names_are_passed_over(
    config: SqlServerDbConfig,
    name: Seq<char>,
    value: FieldContent,
)
    requires
        !seq![
            "host"@,
            "port"@,
            "database"@,
            "schema"@,
            "authentication"@,
            "user"@,
            "password"@,
            "client_id"@,
            "client_secret"@,
            "tenant_id"@,
        ].contains(name),
    ensures
        config@.answered(name, value) == config@,
        config@.shown(name) is None,
{
    let names = seq![
        "host"@,
        "port"@,
        "database"@,
        "schema"@,
        "authentication"@,
        "user"@,
        "password"@,
        "client_id"@,
        "client_secret"@,
        "tenant_id"@,
    ];
    assert(names[0] != name && names[1] != name && names[2] != name && names[3] != name && names[4]
        != name && names[5] != name && names[6] != name && names[7] != name && names[8] != name
        && names[9] != name);
}

/// Law: a field shows what it holds; an authentication method shows as its place, and not at all
/// where it is not offered.
pub proof fn law_fields_show_what_they_hold(config: SqlServerDbConfig, name: Seq<char>)
    ensures
        name != "authentication"@ ==> config@.shown(name) == config.content(name),
        config.authentication matches Some(method) && method_index(method@) is Some ==> config@.shown(
            "authentication"@,
        ) == Some(FieldContent::Integer(method_index(config.authentication->0@)->0)),
        config.authentication matches Some(method) && method_index(method@) is None ==> config@.shown(
            "authentication"@,
        ) is None,
        config.authentication is None ==> config@.shown("authentication"@) is None,
{
    lemma_names_differ();
    assert(config@.fields.contains_key("authentication"@) == (config.authentication is Some));
}

/// Law: what is typed is hidden exactly for the passwords and the client secret. A line of text may
/// be left empty exactly for the port, which then is SQL Server's own, and for the tenant. The one
/// list is the list of methods.
pub proof fn law_prompts_fit_their_fields(fields: Seq<ConfigField>, i: int)
    requires
        fields_view(fields) == prompts(),
        0 <= i < fields.len(),
    ensures
        match fields[i].kind {
            FieldKind::Password => fields[i].name@ == "password"@ || fields[i].name@
                == "client_secret"@,
            FieldKind::Select { options, selected } => fields[i].name@ == "authentication"@
                && selected == 0 && options@.len() == 4 && texts(options@) == method_labels(),
            FieldKind::Input { required, default } => fields[i].name@ != "password"@
                && fields[i].name@ != "client_secret"@ && fields[i].name@ != "authentication"@ && (
            !required <==> fields[i].name@ == "port"@ || fields[i].name@ == "tenant_id"@) && (
            fields[i].name@ == "port"@ ==> (default matches Some(s) && s@ == "1433"@)) && (
            fields[i].name@ != "port"@ ==> default is None),
        },
{
    lemma_names_differ();
    assert(fields_view(fields).len() == 13);
    assert(fields_view(fields)[i] == fields[i]@);
    assert(fields[i].name@ == prompts()[i].name);
    assert(fields[i].kind@ == prompts()[i].kind);
    if let FieldKind::Select { options, selected } = fields[i].kind {
        assert(texts(options@).len() == options@.len());
        assert(i == 4);
    }
    assert(i == 0 || i == 1 || i == 2 || i == 3 || i == 4 || i == 5 || i == 6 || i == 7 || i == 8
        || i == 9 || i == 10 || i == 11 || i == 12);
}

/// Law: server, database, schema and method are asked for in any case. Beyond them a native login
/// asks for user and password, a service principal for client, secret and tenant, an Entra user for
/// client, user and password, and the environment for nothing.
pub proof fn law_methods_ask_for_their_fields(profile: Profile, method: i64, i: int)
    requires
        profile.shown("authentication"@) == Some(FieldContent::Integer(method)),
        0 <= i < prompts().len(),
    ensures
        prompts().len() == 13,
        i < 5 ==> asked(profile, prompts()[i]) && prompts()[i].name == seq![
            "host"@,
            "port"@,
            "database"@,
            "schema"@,
            "authentication"@,
        ][i],
        i >= 5 ==> prompts()[i].name == seq![
            "user"@,
            "password"@,
            "client_id"@,
            "client_secret"@,
            "tenant_id"@,
            "client_id"@,
            "user"@,
            "password"@,
        ][i - 5],
        5 <= i < 7 ==> (asked(profile, prompts()[i]) <==> method == 0),
        7 <= i < 10 ==> (asked(profile, prompts()[i]) <==> method == 1),
        10 <= i ==> (asked(profile, prompts()[i]) <==> method == 2),
{
}

/// Law: a new profile is one of a native login, over an encrypted connection whose certificate is
/// verified, with nothing else filled in.
pub proof fn law_new_profiles_are_safe(config: SqlServerDbConfig)
    requires
        config@ == default_profile(),
    ensures
        config.authentication matches Some(method) && method@ == "sql"@,
        config.encrypt == Some(true),
        config.trust_cert == Some(false),
        config.host is None && config.port is None && config.database is None && config.schema
            is None,
        config.user is None && config.password is None && config.client_id is None
            && config.client_secret is None && config.tenant_id is None,
{
    lemma_names_differ();
    let fields = default_profile().fields;
    assert(config@.fields.contains_key("authentication"@));
    assert(config@.fields["authentication"@] == FieldContent::String("sql"@));
    assert(!config@.fields.contains_key("host"@) && !config@.fields.contains_key("port"@));
    assert(!config@.fields.contains_key("database"@) && !config@.fields.contains_key("schema"@));
    assert(!config@.fields.contains_key("user"@) && !config@.fields.contains_key("password"@));
    assert(!config@.fields.contains_key("client_id"@) && !config@.fields.contains_key(
        "client_secret"@,
    ));
    assert(!config@.fields.contains_key("tenant_id"@));
}

/// Law: without a method that is offered, nothing is asked for beyond server, database, schema and
/// method.
pub proof fn law_no_method_asks_for_nothing_more(profile: Profile, i: int)
    requires
        profile.shown("authentication"@) is None,
        0 <= i < prompts().len(),
    ensures
        asked(profile, prompts()[i]) <==> i < 5,
{
}

/// Law: a setup hands on what comes of asking, from the existing profile where there is one and from
/// a new one only where there is none.
pub proof fn law_setups_start_from_the_existing_profile<F>(
    existing_config: Option<&SqlServerDbConfig>,
    process: F,
    r: Result<Box<SqlServerDbConfig>, FsError>,
) where F: FnOnce(&SqlServerDbConfig) -> Result<SqlServerDbConfig, FsError>
    requires
        call_ensures(setup_sqlserver_profile::<F>, (existing_config, process), r),
    ensures
        exists|start: &SqlServerDbConfig, processed: Result<SqlServerDbConfig, FsError>|
            {
                &&& #[trigger] call_ensures(process, (start,), processed)
                &&& existing_config matches Some(existing) ==> start == existing
                &&& existing_config is None ==> start@ == default_profile()
                &&& processed is Ok <==> r is Ok
                &&& processed matches Ok(config) ==> *(r->Ok_0) == config
                &&& processed matches Err(e) ==> r->Err_0 == e
            },
{
}

} // verus!
