//! Authentication for SQL Server and Fabric: profile fields become the connection URI of the
//! MSSQL driver.

use vstd::prelude::*;

use crate::adapter_config::{
    bool_text, option_text, required_at, spelling_at, text_at, AdapterConfig, AuthError, AuthFault,
    ConfigValue, Fields,
};
use crate::database::{Backend, Builder};
use crate::text::{
    ascii_lower, decimal, i64_text, parse_i64, parsed_i64, same_ignoring_ascii_case, str_eq,
    str_eq_ignoring_ascii_case,
};
use crate::uri::{
    append_pairs, is_short_with, law_parameters_survive, lemma_append_in_two_steps,
    lemma_short_uri_has_room, pair_bytes, pairs_size, pairs_view, parse_uri, uri_parse, uri_parts,
    Pair, UriParts,
};
use vstd::utf8::encode_utf8;

verus! {

/// The authentication method of a profile that names none.
pub const DEFAULT_AUTH: &'static str = "ActiveDirectoryServicePrincipal";

/// The port of a profile that names none.
pub const DEFAULT_PORT: &'static str = "1433";

pub const DEFAULT_ENCRYPT: bool = true;

pub const DEFAULT_TRUST_CERT: bool = false;

/// Parsed authentication settings.
#[derive(Debug)]
pub enum SQLServerAuthIR<'a> {
    /// Native SQL Server login, without an Entra token.
    SqlLogin {
        /// SQL Server login name (`UID` in the profile).
        user: &'a str,
        /// SQL Server login password (`PWD` in the profile).
        password: &'a str,
    },
    /// Unattended service-principal authentication.
    ActiveDirectoryServicePrincipal {
        /// When set, appended to `client_id` behind an `@`.
        tenant_id: Option<&'a str>,
        /// Entra application (client) ID.
        client_id: &'a str,
        /// Entra application client secret.
        client_secret: &'a str,
    },
    /// User and password by the resource-owner password credentials flow.
    ActiveDirectoryPassword {
        /// Entra app registration that requests the user's token.
        client_id: &'a str,
        /// Entra user principal name (`UID` in the profile).
        user: &'a str,
        /// Entra user password (`PWD` in the profile).
        password: &'a str,
    },
    /// Credentials from the `AZURE_*` environment variables.
    ActiveDirectoryEnvironment,
}

/// The content of a [`SQLServerAuthIR`].
pub enum AuthSettings {
    SqlLogin { user: Seq<char>, password: Seq<char> },
    ActiveDirectoryServicePrincipal {
        tenant_id: Option<Seq<char>>,
        client_id: Seq<char>,
        client_secret: Seq<char>,
    },
    ActiveDirectoryPassword { client_id: Seq<char>, user: Seq<char>, password: Seq<char> },
    ActiveDirectoryEnvironment,
}

impl<'a> View for SQLServerAuthIR<'a> {
    type V = AuthSettings;

    open spec fn view(&self) -> AuthSettings {
        match *self {
            SQLServerAuthIR::SqlLogin { user, password } => AuthSettings::SqlLogin {
                user: user@,
                password: password@,
            },
            SQLServerAuthIR::ActiveDirectoryServicePrincipal {
                tenant_id,
                client_id,
                client_secret,
            } => AuthSettings::ActiveDirectoryServicePrincipal {
                tenant_id: option_text(tenant_id),
                client_id: client_id@,
                client_secret: client_secret@,
            },
            SQLServerAuthIR::ActiveDirectoryPassword { client_id, user, password } =>
                AuthSettings::ActiveDirectoryPassword {
                client_id: client_id@,
                user: user@,
                password: password@,
            },
            SQLServerAuthIR::ActiveDirectoryEnvironment => AuthSettings::ActiveDirectoryEnvironment,
        }
    }
}

/// The authentication method that a profile chooses. `ServicePrincipal` and `sql` are taken in
/// any ASCII case.
pub open spec fn chosen_authentication(fields: Fields) -> Seq<char> {
    let given = match text_at(fields, "authentication"@) {
        Some(text) => text,
        None => DEFAULT_AUTH@,
    };
    if same_ignoring_ascii_case(given, "serviceprincipal"@) {
        "ActiveDirectoryServicePrincipal"@
    } else if same_ignoring_ascii_case(given, "sql"@) {
        "sql"@
    } else {
        given
    }
}

/// The methods that are known and not implemented.
pub open spec fn is_unimplemented(authentication: Seq<char>) -> bool {
    ||| authentication == "ActiveDirectoryInteractive"@
    ||| authentication == "ActiveDirectoryIntegrated"@
    ||| authentication == "CLI"@
    ||| authentication == "auto"@
}

/// The message for a method that is not known.
pub open spec fn invalid_authentication(authentication: Seq<char>) -> Seq<char> {
    "Invalid authentication method: "@ + authentication
        + " must be one of: [sql, ActiveDirectoryServicePrincipal, ActiveDirectoryPassword, environment]"@
}

/// The settings that a profile gives for the method it chooses, or what is wrong with it: the
/// first required field that is missing, or a method that is not known.
pub open spec fn parsed_auth(fields: Fields) -> Result<AuthSettings, AuthFault> {
    let authentication = chosen_authentication(fields);
    if authentication == "sql"@ {
        match required_at(fields, "UID"@) {
            Err(e) => Err(e),
            Ok(user) => match required_at(fields, "PWD"@) {
                Err(e) => Err(e),
                Ok(password) => Ok(AuthSettings::SqlLogin { user, password }),
            },
        }
    } else if authentication == "ActiveDirectoryServicePrincipal"@ {
        match required_at(fields, "client_id"@) {
            Err(e) => Err(e),
            Ok(client_id) => match required_at(fields, "client_secret"@) {
                Err(e) => Err(e),
                Ok(client_secret) => Ok(
                    AuthSettings::ActiveDirectoryServicePrincipal {
                        tenant_id: text_at(fields, "tenant_id"@),
                        client_id,
                        client_secret,
                    },
                ),
            },
        }
    } else if authentication == "ActiveDirectoryPassword"@ {
        match required_at(fields, "UID"@) {
            Err(e) => Err(e),
            Ok(user) => match required_at(fields, "PWD"@) {
                Err(e) => Err(e),
                Ok(password) => match required_at(fields, "client_id"@) {
                    Err(e) => Err(e),
                    Ok(client_id) => Ok(
                        AuthSettings::ActiveDirectoryPassword { client_id, user, password },
                    ),
                },
            },
        }
    } else if authentication == "environment"@ {
        Ok(AuthSettings::ActiveDirectoryEnvironment)
    } else {
        Err(AuthFault::Config(invalid_authentication(authentication)))
    }
}

/// The authentication method that the profile chooses.
fn choose_authentication<'a>(config: &'a AdapterConfig) -> (authentication: &'a str)
    ensures
        authentication@ == chosen_authentication(config@),
{
    let given: &'a str = match config.get_str("authentication") {
        Some(text) => text,
        None => DEFAULT_AUTH,
    };
    if str_eq_ignoring_ascii_case(given, "serviceprincipal") {
        "ActiveDirectoryServicePrincipal"
    } else if str_eq_ignoring_ascii_case(given, "sql") {
        "sql"
    } else {
        given
    }
}

/// Whether [`parse_auth`] knows what to do with the profile's authentication method: it has no
/// answer to the methods that are not implemented.
pub fn is_implemented(config: &AdapterConfig) -> (r: bool)
    ensures
        r == !is_unimplemented(chosen_authentication(config@)),
{
    let authentication = choose_authentication(config);
    !(str_eq(authentication, "ActiveDirectoryInteractive") || str_eq(
        authentication,
        "ActiveDirectoryIntegrated",
    ) || str_eq(authentication, "CLI") || str_eq(authentication, "auto"))
}

/// Reads the settings of the authentication method that the profile chooses.
pub fn parse_auth<'a>(config: &'a AdapterConfig) -> (r: Result<SQLServerAuthIR<'a>, AuthError>)
    requires
        !is_unimplemented(chosen_authentication(config@)),
    ensures
        match r {
            Ok(settings) => parsed_auth(config@) == Ok::<AuthSettings, AuthFault>(settings@),
            Err(e) => parsed_auth(config@) == Err::<AuthSettings, AuthFault>(e@),
        },
{
    let authentication = choose_authentication(config);
    if str_eq(authentication, "sql") {
        let user = match config.require_str("UID") {
            Ok(s) => s,
            Err(e) => return Err(e),
        };
        let password = match config.require_str("PWD") {
            Ok(s) => s,
            Err(e) => return Err(e),
        };
        Ok(SQLServerAuthIR::SqlLogin { user, password })
    } else if str_eq(authentication, "ActiveDirectoryServicePrincipal") {
        let tenant_id = config.get_str("tenant_id");
        let client_id = match config.require_str("client_id") {
            Ok(s) => s,
            Err(e) => return Err(e),
        };
        let client_secret = match config.require_str("client_secret") {
            Ok(s) => s,
            Err(e) => return Err(e),
        };
        Ok(SQLServerAuthIR::ActiveDirectoryServicePrincipal { tenant_id, client_id, client_secret })
    } else if str_eq(authentication, "ActiveDirectoryPassword") {
        let user = match config.require_str("UID") {
            Ok(s) => s,
            Err(e) => return Err(e),
        };
        let password = match config.require_str("PWD") {
            Ok(s) => s,
            Err(e) => return Err(e),
        };
        let client_id = match config.require_str("client_id") {
            Ok(s) => s,
            Err(e) => return Err(e),
        };
        Ok(SQLServerAuthIR::ActiveDirectoryPassword { client_id, user, password })
    } else if str_eq(authentication, "environment") {
        Ok(SQLServerAuthIR::ActiveDirectoryEnvironment)
    } else {
        let mut message = "Invalid authentication method: ".to_owned();
        message.append(authentication);
        message.append(
            " must be one of: [sql, ActiveDirectoryServicePrincipal, ActiveDirectoryPassword, environment]",
        );
        Err(AuthError::config(message))
    }
}

/// The value of a flag that may be spelled `true`, `false`, `1` or `0`, and `default` where it
/// is absent or spelled in another way.
pub open spec fn flag_at(fields: Fields, field: Seq<char>, default: bool) -> bool {
    match spelling_at(fields, field) {
        Some(value) => if same_ignoring_ascii_case(value, "true"@) || value == "1"@ {
            true
        } else if same_ignoring_ascii_case(value, "false"@) || value == "0"@ {
            false
        } else {
            default
        },
        None => default,
    }
}

/// Reads a profile field that may arrive as a YAML boolean or as its string spelling.
pub fn get_flag(config: &AdapterConfig, field: &str, default: bool) -> (flag: bool)
    ensures
        flag == flag_at(config@, field@, default),
{
    let value = match config.get_string(field) {
        Some(value) => value,
        None => return default,
    };
    if str_eq_ignoring_ascii_case(value.as_str(), "true") || str_eq(value.as_str(), "1") {
        true
    } else if str_eq_ignoring_ascii_case(value.as_str(), "false") || str_eq(value.as_str(), "0") {
        false
    } else {
        default
    }
}

/// The parameters that stand for a profile's authentication settings.
pub open spec fn auth_pairs(settings: AuthSettings) -> Seq<Pair> {
    match settings {
        AuthSettings::SqlLogin { user, password } => seq![
            ("user id"@, user),
            ("password"@, password),
        ],
        AuthSettings::ActiveDirectoryServicePrincipal { tenant_id, client_id, client_secret } =>
            seq![
            ("fedauth"@, "ActiveDirectoryServicePrincipal"@),
            (
                "user id"@,
                match tenant_id {
                    Some(tenant_id) => client_id + "@"@ + tenant_id,
                    None => client_id,
                },
            ),
            ("password"@, client_secret),
        ],
        AuthSettings::ActiveDirectoryPassword { client_id, user, password } => seq![
            ("fedauth"@, "ActiveDirectoryPassword"@),
            ("user id"@, user),
            ("password"@, password),
            ("applicationclientid"@, client_id),
        ],
        AuthSettings::ActiveDirectoryEnvironment => seq![
            ("fedauth"@, "ActiveDirectoryEnvironment"@),
        ],
    }
}

fn pair(name: &str, value: &str) -> (r: (String, String))
    ensures
        r.0@ == name@,
        r.1@ == value@,
{
    (name.to_owned(), value.to_owned())
}

impl<'a> SQLServerAuthIR<'a> {
    /// The parameters that hand the settings to the driver.
    pub fn query_pairs(&self) -> (pairs: Vec<(String, String)>)
        ensures
            pairs_view(pairs@) == auth_pairs(self@),
    {
        let mut pairs: Vec<(String, String)> = Vec::new();
        match self {
            SQLServerAuthIR::SqlLogin { user, password } => {
                pairs.push(pair("user id", user));
                pairs.push(pair("password", password));
            },
            SQLServerAuthIR::ActiveDirectoryServicePrincipal {
                tenant_id,
                client_id,
                client_secret,
            } => {
                let mut uid = (*client_id).to_owned();
                if let Some(tenant_id) = tenant_id {
                    uid.append("@");
                    uid.append(tenant_id);
                }
                pairs.push(pair("fedauth", "ActiveDirectoryServicePrincipal"));
                pairs.push(pair("user id", uid.as_str()));
                pairs.push(pair("password", client_secret));
            },
            SQLServerAuthIR::ActiveDirectoryPassword { client_id, user, password } => {
                pairs.push(pair("fedauth", "ActiveDirectoryPassword"));
                pairs.push(pair("user id", user));
                pairs.push(pair("password", password));
                pairs.push(pair("applicationclientid", client_id));
            },
            SQLServerAuthIR::ActiveDirectoryEnvironment => {
                pairs.push(pair("fedauth", "ActiveDirectoryEnvironment"));
            },
        }
        assert(pairs_view(pairs@) =~= auth_pairs(self@));
        pairs
    }

    /// Appends the settings to the builder's URI; a builder without a URI stays as it is.
    pub fn apply(self, builder: Builder) -> (r: Result<Builder, AuthError>)
        requires
            builder.uri matches Some(uri) ==> uri_parts(uri).has_room_for(auth_pairs(self@)),
        ensures
            r matches Ok(applied) && applied.backend == builder.backend && match builder.uri {
                Some(uri) => applied.uri matches Some(grown) && uri_parts(grown) == uri_parts(
                    uri,
                ).with_pairs(auth_pairs(self@)),
                None => applied.uri is None,
            },
    {
        let pairs = self.query_pairs();
        let Builder { backend, uri } = builder;
        match uri {
            Some(uri) => {
                let mut uri = uri;
                append_pairs(&mut uri, &pairs);
                Ok(Builder { backend, uri: Some(uri) })
            },
            None => Ok(Builder { backend, uri: None }),
        }
    }
}

/// The seconds to wait for a login, and 0 where the profile names no number.
pub open spec fn login_timeout(fields: Fields) -> i64 {
    match spelling_at(fields, "login_timeout"@) {
        Some(value) => match parsed_i64(value) {
            Some(seconds) => seconds,
            None => 0,
        },
        None => 0,
    }
}

/// The parameters of the connection itself. A timeout of 0 is the driver's default, which is
/// spelled as an absent parameter.
pub open spec fn connection_pairs(fields: Fields, database: Seq<char>) -> Seq<Pair> {
    let pairs = seq![
        ("database"@, database),
        ("encrypt"@, bool_text(flag_at(fields, "encrypt"@, DEFAULT_ENCRYPT))),
        (
            "TrustServerCertificate"@,
            bool_text(flag_at(fields, "trust_cert"@, DEFAULT_TRUST_CERT)),
        ),
    ];
    if login_timeout(fields) > 0 {
        pairs.push(("connection timeout"@, decimal(login_timeout(fields) as int)))
    } else {
        pairs
    }
}

/// The URI of a server, before any parameter.
pub open spec fn server_uri(fields: Fields, host: Seq<char>) -> Seq<char> {
    "sqlserver://"@ + host + ":"@ + match spelling_at(fields, "port"@) {
        Some(port) => port,
        None => DEFAULT_PORT@,
    }
}

/// The parts of the server's URI and the name of the database, or what is wrong with the profile.
pub open spec fn connection_target(fields: Fields) -> Result<(UriParts, Seq<char>), AuthFault> {
    match required_at(fields, "host"@) {
        Err(e) => Err(e),
        Ok(host) => match uri_parse(server_uri(fields, host)) {
            None => Err(AuthFault::InvalidUri(server_uri(fields, host))),
            Some(parts) => match required_at(fields, "database"@) {
                Err(e) => Err(e),
                Ok(database) => Ok((parts, database)),
            },
        },
    }
}

/// The URI with the parameters of the connection.
pub open spec fn connection_uri(fields: Fields) -> Result<UriParts, AuthFault> {
    match connection_target(fields) {
        Err(e) => Err(e),
        Ok((parts, database)) => Ok(parts.with_pairs(connection_pairs(fields, database))),
    }
}

fn bool_str(b: bool) -> (s: &'static str)
    ensures
        s@ == bool_text(b),
{
    if b {
        "true"
    } else {
        "false"
    }
}

/// The text of the server's URI.
pub fn server_uri_text(config: &AdapterConfig, host: &str) -> (text: String)
    ensures
        text@ == server_uri(config@, host@),
{
    let port: String = match config.get_string("port") {
        Some(port) => port,
        None => DEFAULT_PORT.to_owned(),
    };
    let mut text = "sqlserver://".to_owned();
    text.append(host);
    text.append(":");
    text.append(port.as_str());
    text
}

/// The parameters of the connection to `database`.
pub fn connection_query_pairs(config: &AdapterConfig, database: &str) -> (pairs: Vec<(String, String)>)
    ensures
        pairs_view(pairs@) == connection_pairs(config@, database@),
{
    let encrypt = get_flag(config, "encrypt", DEFAULT_ENCRYPT);
    let trust_cert = get_flag(config, "trust_cert", DEFAULT_TRUST_CERT);
    let login_timeout: i64 = match config.get_string("login_timeout") {
        Some(value) => match parse_i64(value.as_str()) {
            Some(seconds) => seconds,
            None => 0,
        },
        None => 0,
    };
    let mut pairs: Vec<(String, String)> = Vec::new();
    pairs.push(pair("database", database));
    pairs.push(pair("encrypt", bool_str(encrypt)));
    pairs.push(pair("TrustServerCertificate", bool_str(trust_cert)));
    if login_timeout > 0 {
        pairs.push(pair("connection timeout", i64_text(login_timeout).as_str()));
    }
    assert(pairs_view(pairs@) =~= connection_pairs(config@, database@));
    pairs
}

/// Gives the builder the URI of the profile's server, with the parameters of the connection.
pub fn apply_connection_args(config: &AdapterConfig, builder: Builder) -> (r: Result<
    Builder,
    AuthError,
>)
    requires
        connection_target(config@) matches Ok((parts, database)) ==> parts.has_room_for(
            connection_pairs(config@, database),
        ),
    ensures
        match r {
            Ok(applied) => applied.backend == builder.backend && (applied.uri matches Some(uri)
                && connection_uri(config@) == Ok::<UriParts, AuthFault>(uri_parts(uri))),
            Err(e) => connection_uri(config@) == Err::<UriParts, AuthFault>(e@),
        },
{
    let mut builder = builder;
    let host = match config.require_str("host") {
        Ok(host) => host,
        Err(e) => return Err(e),
    };
    match builder.with_parse_uri(server_uri_text(config, host)) {
        Ok(_) => {},
        Err(e) => return Err(e),
    }
    let database = match config.require_str("database") {
        Ok(database) => database,
        Err(e) => return Err(e),
    };
    let pairs = connection_query_pairs(config, database);
    let Builder { backend, uri } = builder;
    match uri {
        Some(uri) => {
            let mut uri = uri;
            append_pairs(&mut uri, &pairs);
            Ok(Builder { backend, uri: Some(uri) })
        },
        None => Ok(Builder { backend, uri: None }),
    }
}

/// The finished URI of a profile, or what is wrong with the profile.
pub open spec fn configured_uri(fields: Fields) -> Result<UriParts, AuthFault> {
    match parsed_auth(fields) {
        Err(e) => Err(e),
        Ok(settings) => match connection_uri(fields) {
            Err(e) => Err(e),
            Ok(parts) => Ok(parts.with_pairs(auth_pairs(settings))),
        },
    }
}

/// The server's URI and all the parameters that it gets, where nothing is wrong with the profile.
pub open spec fn uri_and_pairs(fields: Fields) -> Option<(UriParts, Seq<Pair>)> {
    match (parsed_auth(fields), connection_target(fields)) {
        (Ok(settings), Ok((parts, database))) => Some(
            (parts, connection_pairs(fields, database) + auth_pairs(settings)),
        ),
        _ => None,
    }
}

/// What configuring a profile gives.
pub open spec fn is_outcome(fields: Fields, r: Result<AuthOutcome, AuthError>) -> bool {
    match r {
        Ok(outcome) => {
            &&& outcome.builder.backend == Backend::SQLServer
            &&& outcome.builder.uri matches Some(uri) && configured_uri(fields) == Ok::<
                UriParts,
                AuthFault,
            >(uri_parts(uri))
            &&& outcome.warnings@.len() == 0
        },
        Err(e) => configured_uri(fields) == Err::<UriParts, AuthFault>(e@),
    }
}

/// A configured connection.
#[derive(Debug)]
pub struct AuthOutcome {
    pub builder: Builder,
    pub warnings: Vec<String>,
}

/// Configures connections to SQL Server and Fabric.
pub struct SQLServerAuth;

impl SQLServerAuth {
    /// The driver that the connections use.
    pub fn backend(&self) -> (backend: Backend)
        ensures
            backend == Backend::SQLServer,
    {
        Backend::SQLServer
    }

    /// Makes the connection URI of a profile. The method that the profile chooses has to be an
    /// implemented one, and the URI has to stay within the size that the `url` crate supports.
    pub fn configure(&self, config: &AdapterConfig) -> (r: Result<AuthOutcome, AuthError>)
        requires
            !is_unimplemented(chosen_authentication(config@)),
            uri_and_pairs(config@) matches Some((parts, pairs)) ==> parts.has_room_for(pairs),
        ensures
            is_outcome(config@, r),
    {
        let settings = match parse_auth(config) {
            Ok(settings) => settings,
            Err(e) => return Err(e),
        };
        proof {
            if let Ok((parts, database)) = connection_target(config@) {
                lemma_append_in_two_steps(
                    parts,
                    connection_pairs(config@, database),
                    auth_pairs(settings@),
                );
            }
        }
        let builder = Builder::new(self.backend());
        let builder = match apply_connection_args(config, builder) {
            Ok(builder) => builder,
            Err(e) => return Err(e),
        };
        let builder = match settings.apply(builder) {
            Ok(builder) => builder,
            Err(e) => return Err(e),
        };
        Ok(AuthOutcome { builder, warnings: Vec::new() })
    }

    /// As [`SQLServerAuth::configure`], with `None` in place of a URI that could become too long.
    pub fn configure_within_limit(&self, config: &AdapterConfig) -> (r: Option<
        Result<AuthOutcome, AuthError>,
    >)
        requires
            !is_unimplemented(chosen_authentication(config@)),
        ensures
            r is None <==> (uri_and_pairs(config@) matches Some((parts, pairs)) && encode_utf8(
                parts.text(),
            ).len() + pairs_size(pairs) > u32::MAX),
            r matches Some(outcome) ==> is_outcome(config@, outcome),
    {
        let settings = match parse_auth(config) {
            Ok(settings) => settings,
            Err(e) => return Some(Err(e)),
        };
        let host = match config.require_str("host") {
            Ok(host) => host,
            Err(e) => return Some(Err(e)),
        };
        let text = server_uri_text(config, host);
        let uri = match parse_uri(text.as_str()) {
            Ok(uri) => uri,
            Err(_) => return Some(Err(AuthError::InvalidUri(text))),
        };
        let database = match config.require_str("database") {
            Ok(database) => database,
            Err(e) => return Some(Err(e)),
        };
        let mut pairs = connection_query_pairs(config, database);
        let ghost first = pairs@;
        let mut auth = settings.query_pairs();
        let ghost second = auth@;
        pairs.append(&mut auth);
        assert(pairs_view(pairs@) =~= pairs_view(first) + pairs_view(second));
        if !is_short_with(&uri, &pairs) {
            return None;
        }
        proof {
            lemma_short_uri_has_room(uri_parts(uri), pairs_view(pairs@));
        }
        Some(self.configure(config))
    }
}

/// Law: reading the query of a finished URI gives back, behind what the server's URI held
/// already, every parameter of the connection and of the authentication with its exact value,
/// whatever characters the value holds; before the query, the URI is the server's.
pub proof fn law_parameters_reach_the_driver(fields: Fields)
    ensures
        match configured_uri(fields) {
            Ok(uri) => uri_and_pairs(fields) matches Some((parts, pairs)) && uri.pairs()
                == parts.pairs() + pairs.map_values(|pair: Pair| pair_bytes(pair)) && uri.base
                == parts.base && uri.fragment == parts.fragment,
            Err(_) => uri_and_pairs(fields) is None,
        },
{
    if let Some((parts, pairs)) = uri_and_pairs(fields) {
        let settings = parsed_auth(fields)->Ok_0;
        let (_, database) = connection_target(fields)->Ok_0;
        lemma_append_in_two_steps(parts, connection_pairs(fields, database), auth_pairs(settings));
        law_parameters_survive(parts, pairs);
    }
}

/// Law: a connection asks for an Entra token, by a `fedauth` parameter, unless the profile
/// chooses a native SQL Server login.
pub proof fn law_only_sql_logins_carry_no_token(fields: Fields)
    ensures
        uri_and_pairs(fields) matches Some((parts, pairs)) ==> ((exists|i: int|
            0 <= i < pairs.len() && (#[trigger] pairs[i]).0 == "fedauth"@) <==> !(parsed_auth(
            fields,
        )->Ok_0 is SqlLogin)),
{
    if let Some((parts, pairs)) = uri_and_pairs(fields) {
        reveal_strlit("fedauth");
        reveal_strlit("database");
        reveal_strlit("encrypt");
        reveal_strlit("TrustServerCertificate");
        reveal_strlit("connection timeout");
        reveal_strlit("user id");
        reveal_strlit("password");
        let settings = parsed_auth(fields)->Ok_0;
        let (_, database) = connection_target(fields)->Ok_0;
        let first = connection_pairs(fields, database);
        assert("fedauth"@[0] == 'f' && "encrypt"@[0] == 'e');
        assert(forall|i: int| 0 <= i < first.len() ==> (#[trigger] first[i]).0 != "fedauth"@);
        if settings is SqlLogin {
            assert forall|i: int| 0 <= i < pairs.len() implies (#[trigger] pairs[i]).0
                != "fedauth"@ by {
                if i < first.len() {
                    assert(pairs[i] == first[i]);
                }
            }
        } else {
            assert(pairs[first.len() as int].0 == "fedauth"@);
        }
    }
}

/// Law: the names `sql` and `ServicePrincipal` mean the same in every ASCII case.
pub proof fn law_method_names_ignore_case(fields: Fields, a: String, b: String)
    requires
        same_ignoring_ascii_case(a@, b@),
        same_ignoring_ascii_case(a@, "sql"@) || same_ignoring_ascii_case(a@, "serviceprincipal"@),
    ensures
        parsed_auth(fields.insert("authentication"@, ConfigValue::Text(a))) == parsed_auth(
            fields.insert("authentication"@, ConfigValue::Text(b)),
        ),
{
    reveal_strlit("authentication");
    reveal_strlit("UID");
    reveal_strlit("PWD");
    reveal_strlit("client_id");
    reveal_strlit("client_secret");
    reveal_strlit("tenant_id");
    let left = fields.insert("authentication"@, ConfigValue::Text(a));
    let right = fields.insert("authentication"@, ConfigValue::Text(b));
    assert(forall|c: Seq<char>| #[trigger]
        same_ignoring_ascii_case(a@, c) == same_ignoring_ascii_case(b@, c)) by {
        assert(a@.len() == b@.len());
        assert(forall|i: int| 0 <= i < a@.len() ==> #[trigger] b@[i] == b@[i] && ascii_lower(a@[i])
            == ascii_lower(b@[i]));
    }
    assert(forall|field: Seq<char>|
        field.len() != "authentication"@.len() ==> #[trigger] text_at(left, field) == text_at(
            right,
            field,
        ));
}

/// Law: without the profile fields for it, a connection is encrypted and the server's
/// certificate is verified.
pub proof fn law_tls_defaults(fields: Fields, database: Seq<char>)
    requires
        !fields.contains_key("encrypt"@),
        !fields.contains_key("trust_cert"@),
    ensures
        connection_pairs(fields, database)[1] == ("encrypt"@, "true"@),
        connection_pairs(fields, database)[2] == ("TrustServerCertificate"@, "false"@),
{
}

/// Law: a flag reads the same whether it is a boolean or the boolean's spelling in any case, and
/// the default has no say in it then.
pub proof fn law_flag_spellings(fields: Fields, field: Seq<char>, b: bool, default: bool)
    requires
        spelling_at(fields, field) matches Some(s) && same_ignoring_ascii_case(s, bool_text(b)),
    ensures
        flag_at(fields, field, default) == b,
{
    reveal_strlit("true");
    reveal_strlit("false");
    reveal_strlit("1");
}

/// Law: a login timeout reaches the driver exactly where it is positive.
pub proof fn law_only_positive_timeouts_are_sent(fields: Fields, database: Seq<char>)
    ensures
        (exists|i: int|
            0 <= i < connection_pairs(fields, database).len() && (#[trigger] connection_pairs(
                fields,
                database,
            )[i]).0 == "connection timeout"@) <==> login_timeout(fields) > 0,
        login_timeout(fields) > 0 ==> connection_pairs(fields, database).contains(
            ("connection timeout"@, decimal(login_timeout(fields) as int)),
        ),
{
    reveal_strlit("database");
    reveal_strlit("encrypt");
    reveal_strlit("TrustServerCertificate");
    reveal_strlit("connection timeout");
    if login_timeout(fields) > 0 {
        assert(connection_pairs(fields, database)[3].0 == "connection timeout"@);
    } else {
        let timeout = "connection timeout"@;
        assert("database"@.len() != timeout.len());
        assert("encrypt"@.len() != timeout.len());
        assert("TrustServerCertificate"@.len() != timeout.len());
    }
}

/// The URI at which a profile's server is: host and port behind the scheme, with the port of SQL
/// Server where the profile names none.
pub open spec fn addressed(fields: Fields) -> Option<UriParts> {
    match text_at(fields, "host"@) {
        Some(host) => uri_parse(
            "sqlserver://"@ + host + ":"@ + match spelling_at(fields, "port"@) {
                Some(port) => port,
                None => "1433"@,
            },
        ),
        None => None,
    }
}

/// The parameters that a reader of an outcome's URI finds in it, behind those that the server's URI
/// holds by itself.
pub open spec fn parameters_read(fields: Fields, outcome: AuthOutcome) -> Seq<(Seq<u8>, Seq<u8>)> {
    match (addressed(fields), outcome.builder.uri) {
        (Some(server), Some(uri)) => uri_parts(uri).pairs().skip(server.pairs().len() as int),
        _ => Seq::empty(),
    }
}

/// Whether a profile asks for a login timeout: a positive number of seconds.
pub open spec fn asks_for_timeout(fields: Fields) -> bool {
    spelling_at(fields, "login_timeout"@) matches Some(s) && parsed_i64(s) matches Some(n) && n > 0
}

/// How many parameters are about the connection itself.
pub open spec fn connection_parameters(fields: Fields) -> int {
    if asks_for_timeout(fields) {
        4
    } else {
        3
    }
}

/// Whether a profile chooses a native SQL Server login.
pub open spec fn chooses_sql_login(fields: Fields) -> bool {
    text_at(fields, "authentication"@) matches Some(name) && same_ignoring_ascii_case(name, "sql"@)
}

/// Whether a profile chooses the service principal: by its name, by its alias, or by naming no
/// method.
pub open spec fn chooses_service_principal(fields: Fields) -> bool {
    match text_at(fields, "authentication"@) {
        Some(name) => name == "ActiveDirectoryServicePrincipal"@ || same_ignoring_ascii_case(
            name,
            "serviceprincipal"@,
        ),
        None => true,
    }
}

/// Whether a profile chooses an Entra user's password.
pub open spec fn chooses_entra_password(fields: Fields) -> bool {
    text_at(fields, "authentication"@) == Some("ActiveDirectoryPassword"@)
}

/// Whether a profile chooses the credentials in the environment.
pub open spec fn chooses_environment(fields: Fields) -> bool {
    text_at(fields, "authentication"@) == Some("environment"@)
}

proof fn lemma_method_names_differ()
    ensures
        "sql"@.len() == 3,
        "serviceprincipal"@.len() == 16,
        "ActiveDirectoryServicePrincipal"@.len() == 31,
        "ActiveDirectoryPassword"@.len() == 23,
        "environment"@.len() == 11,
        "ActiveDirectoryInteractive"@.len() == 26,
        "ActiveDirectoryIntegrated"@.len() == 25,
        "CLI"@.len() == 3,
        "auto"@.len() == 4,
        !same_ignoring_ascii_case("CLI"@, "sql"@),
{
    reveal_strlit("sql");
    reveal_strlit("serviceprincipal");
    reveal_strlit("ActiveDirectoryServicePrincipal");
    reveal_strlit("ActiveDirectoryPassword");
    reveal_strlit("environment");
    reveal_strlit("ActiveDirectoryInteractive");
    reveal_strlit("ActiveDirectoryIntegrated");
    reveal_strlit("CLI");
    reveal_strlit("auto");
    assert(ascii_lower("CLI"@[0]) != ascii_lower("sql"@[0]));
}

/// What is read from a finished URI.
proof fn lemma_parameters_read(fields: Fields, outcome: AuthOutcome)
    requires
        is_outcome(fields, Ok(outcome)),
    ensures
        addressed(fields) is Some,
        parsed_auth(fields) is Ok,
        text_at(fields, "database"@) is Some,
        parameters_read(fields, outcome) == (connection_pairs(
            fields,
            text_at(fields, "database"@)->0,
        ) + auth_pairs(parsed_auth(fields)->Ok_0)).map_values(|pair: Pair| pair_bytes(pair)),
{
    law_parameters_reach_the_driver(fields);
    let uri = uri_parts(outcome.builder.uri->0);
    let (parts, pairs) = uri_and_pairs(fields)->0;
    assert(addressed(fields) == Some(parts));
    assert(uri.pairs().skip(parts.pairs().len() as int) =~= pairs.map_values(
        |pair: Pair| pair_bytes(pair),
    ));
}

/// Law: a finished URI is at the profile's host and port, keeps what the server's URI held, and a
/// profile whose host and port make no URI gets none.
pub proof fn law_the_server_is_addressed(fields: Fields, outcome: AuthOutcome)
    requires
        is_outcome(fields, Ok(outcome)),
    ensures
        outcome.builder.backend == Backend::SQLServer,
        outcome.warnings@.len() == 0,
        addressed(fields) matches Some(server) && outcome.builder.uri matches Some(uri)
            && uri_parts(uri).base == server.base && uri_parts(uri).fragment == server.fragment
            && server.pairs().len() <= uri_parts(uri).pairs().len() && uri_parts(uri).pairs().take(
            server.pairs().len() as int,
        ) == server.pairs(),
{
    law_parameters_reach_the_driver(fields);
    let uri = uri_parts(outcome.builder.uri->0);
    let (parts, pairs) = uri_and_pairs(fields)->0;
    assert(addressed(fields) == Some(parts));
    assert(uri.pairs().take(parts.pairs().len() as int) =~= parts.pairs());
}

/// Law: the first parameter names the profile's database.
pub proof fn law_the_database_is_named(fields: Fields, outcome: AuthOutcome)
    requires
        is_outcome(fields, Ok(outcome)),
    ensures
        text_at(fields, "database"@) matches Some(database) && parameters_read(
            fields,
            outcome,
        ).len() > 3 && parameters_read(fields, outcome)[0] == (
            encode_utf8("database"@),
            encode_utf8(database),
        ),
{
    lemma_parameters_read(fields, outcome);
}

/// Law: a field that spells `true`, in any case, or `1` turns its own TLS setting on, and one that
/// spells `false` or `0` turns it off, whatever the other fields say.
pub proof fn law_tls_settings_reach_the_driver(fields: Fields, outcome: AuthOutcome, s: Seq<char>)
    requires
        is_outcome(fields, Ok(outcome)),
    ensures
        spelling_at(fields, "encrypt"@) == Some(s) && (same_ignoring_ascii_case(s, "true"@) || s
            == "1"@) ==> parameters_read(fields, outcome)[1] == (
            encode_utf8("encrypt"@),
            encode_utf8("true"@),
        ),
        spelling_at(fields, "encrypt"@) == Some(s) && (same_ignoring_ascii_case(s, "false"@) || s
            == "0"@) ==> parameters_read(fields, outcome)[1] == (
            encode_utf8("encrypt"@),
            encode_utf8("false"@),
        ),
        spelling_at(fields, "trust_cert"@) == Some(s) && (same_ignoring_ascii_case(s, "true"@) || s
            == "1"@) ==> parameters_read(fields, outcome)[2] == (
            encode_utf8("TrustServerCertificate"@),
            encode_utf8("true"@),
        ),
        spelling_at(fields, "trust_cert"@) == Some(s) && (same_ignoring_ascii_case(s, "false"@) || s
            == "0"@) ==> parameters_read(fields, outcome)[2] == (
            encode_utf8("TrustServerCertificate"@),
            encode_utf8("false"@),
        ),
{
    lemma_parameters_read(fields, outcome);
    lemma_flag_spellings_differ();
}

proof fn lemma_flag_spellings_differ()
    ensures
        "true"@.len() == 4,
        "false"@.len() == 5,
        "1"@.len() == 1,
        "0"@.len() == 1,
        "1"@ != "0"@,
{
    reveal_strlit("true");
    reveal_strlit("false");
    reveal_strlit("1");
    reveal_strlit("0");
    assert("1"@[0] != "0"@[0]);
}

/// Law: a TLS field that is absent, or spelled in no known way, leaves its own setting at the safe
/// side: encrypted, and the certificate verified.
pub proof fn law_unclear_tls_settings_are_safe(fields: Fields, outcome: AuthOutcome)
    requires
        is_outcome(fields, Ok(outcome)),
    ensures
        !(spelling_at(fields, "encrypt"@) matches Some(s) && (same_ignoring_ascii_case(s, "false"@)
            || s == "0"@)) ==> parameters_read(fields, outcome)[1] == (
            encode_utf8("encrypt"@),
            encode_utf8("true"@),
        ),
        !(spelling_at(fields, "trust_cert"@) matches Some(s) && (same_ignoring_ascii_case(
            s,
            "true"@,
        ) || s == "1"@)) ==> parameters_read(fields, outcome)[2] == (
            encode_utf8("TrustServerCertificate"@),
            encode_utf8("false"@),
        ),
{
    lemma_parameters_read(fields, outcome);
    lemma_flag_spellings_differ();
}

/// Law: a flag that is spelled in no known way has its default, and `1` and `0` are known ways.
pub proof fn law_flags_fall_back(fields: Fields, field: Seq<char>, default: bool)
    ensures
        spelling_at(fields, field) == Some("1"@) ==> flag_at(fields, field, default),
        spelling_at(fields, field) == Some("0"@) ==> !flag_at(fields, field, default),
        spelling_at(fields, field) is None ==> flag_at(fields, field, default) == default,
        spelling_at(fields, field) matches Some(s) && !same_ignoring_ascii_case(s, "true"@)
            && !same_ignoring_ascii_case(s, "false"@) && s != "1"@ && s != "0"@ ==> flag_at(
            fields,
            field,
            default,
        ) == default,
{
    lemma_flag_spellings_differ();
}

/// Law: a positive login timeout is the fourth parameter, in plain decimal; without one, what is
/// about the authentication starts there.
pub proof fn law_the_timeout_is_sent_in_decimal(fields: Fields, outcome: AuthOutcome)
    requires
        is_outcome(fields, Ok(outcome)),
    ensures
        asks_for_timeout(fields) ==> parameters_read(fields, outcome).len() > 4 && parameters_read(
            fields,
            outcome,
        )[3] == (
            encode_utf8("connection timeout"@),
            encode_utf8(decimal(parsed_i64(spelling_at(fields, "login_timeout"@)->0)->0 as int)),
        ),
        forall|i: int|
            0 <= i < parameters_read(fields, outcome).len() && (#[trigger] parameters_read(
                fields,
                outcome,
            )[i]).0 == encode_utf8("connection timeout"@) ==> asks_for_timeout(fields) && i == 3,
{
    lemma_parameters_read(fields, outcome);
    reveal_strlit("database");
    reveal_strlit("encrypt");
    reveal_strlit("TrustServerCertificate");
    reveal_strlit("connection timeout");
    reveal_strlit("fedauth");
    reveal_strlit("user id");
    reveal_strlit("password");
    reveal_strlit("applicationclientid");
    let all = parameters_read(fields, outcome);
    let timeout = "connection timeout"@;
    let pairs = connection_pairs(fields, text_at(fields, "database"@)->0) + auth_pairs(
        parsed_auth(fields)->Ok_0,
    );
    assert forall|i: int| 0 <= i < all.len() && (#[trigger] all[i]).0 == encode_utf8(
        timeout,
    ) implies asks_for_timeout(fields) && i == 3 by {
        vstd::utf8::encode_utf8_decode_utf8(timeout);
        vstd::utf8::encode_utf8_decode_utf8(pairs[i].0);
        assert(all[i] == pair_bytes(pairs[i]));
        assert(pairs[i].0 == timeout);
        assert(timeout.len() == 18);
        assert("database"@.len() == 8 && "encrypt"@.len() == 7 && "fedauth"@.len() == 7);
        assert("TrustServerCertificate"@.len() == 22 && "user id"@.len() == 7);
        assert("password"@.len() == 8 && "applicationclientid"@.len() == 19);
    }
}

/// Law: a native login sends the login name and its password behind the connection's parameters,
/// and nothing else.
pub proof fn law_sql_logins_send_their_credentials(fields: Fields, outcome: AuthOutcome)
    requires
        is_outcome(fields, Ok(outcome)),
        chooses_sql_login(fields),
    ensures
        text_at(fields, "UID"@) matches Some(user) && text_at(fields, "PWD"@) matches Some(password)
            && parameters_read(fields, outcome).len() == connection_parameters(fields) + 2
            && parameters_read(fields, outcome).skip(connection_parameters(fields)) == seq![
            (encode_utf8("user id"@), encode_utf8(user)),
            (encode_utf8("password"@), encode_utf8(password)),
        ],
{
    lemma_parameters_read(fields, outcome);
    lemma_method_names_differ();
    assert(parameters_read(fields, outcome).skip(connection_parameters(fields)) =~= seq![
        (encode_utf8("user id"@), encode_utf8(text_at(fields, "UID"@)->0)),
        (encode_utf8("password"@), encode_utf8(text_at(fields, "PWD"@)->0)),
    ]);
}

/// Law: a service principal is named by exactly its client ID where the profile has no tenant, and
/// by client ID, `@` and tenant where it has one; its secret is the password.
pub proof fn law_service_principals_send_their_credentials(fields: Fields, outcome: AuthOutcome)
    requires
        is_outcome(fields, Ok(outcome)),
        chooses_service_principal(fields),
    ensures
        text_at(fields, "client_id"@) matches Some(client_id) && text_at(fields, "client_secret"@)
            matches Some(client_secret) && parameters_read(fields, outcome).len()
            == connection_parameters(fields) + 3 && parameters_read(fields, outcome).skip(
            connection_parameters(fields),
        ) == seq![
            (encode_utf8("fedauth"@), encode_utf8("ActiveDirectoryServicePrincipal"@)),
            (
                encode_utf8("user id"@),
                encode_utf8(
                    if text_at(fields, "tenant_id"@) is None {
                        client_id
                    } else {
                        client_id + seq!['@'] + text_at(fields, "tenant_id"@)->0
                    },
                ),
            ),
            (encode_utf8("password"@), encode_utf8(client_secret)),
        ],
{
    lemma_parameters_read(fields, outcome);
    lemma_method_names_differ();
    reveal_strlit("@");
    assert("@"@ =~= seq!['@']);
    let client_id = text_at(fields, "client_id"@)->0;
    let user = if text_at(fields, "tenant_id"@) is None {
        client_id
    } else {
        client_id + seq!['@'] + text_at(fields, "tenant_id"@)->0
    };
    assert(parameters_read(fields, outcome).skip(connection_parameters(fields)) =~= seq![
        (encode_utf8("fedauth"@), encode_utf8("ActiveDirectoryServicePrincipal"@)),
        (encode_utf8("user id"@), encode_utf8(user)),
        (encode_utf8("password"@), encode_utf8(text_at(fields, "client_secret"@)->0)),
    ]);
}

/// Law: an Entra user sends user name and password, and the app registration that requests the
/// token apart from them.
pub proof fn law_entra_users_send_their_credentials(fields: Fields, outcome: AuthOutcome)
    requires
        is_outcome(fields, Ok(outcome)),
        chooses_entra_password(fields),
    ensures
        text_at(fields, "UID"@) matches Some(user) && text_at(fields, "PWD"@) matches Some(password)
            && text_at(fields, "client_id"@) matches Some(client_id) && parameters_read(
            fields,
            outcome,
        ).len() == connection_parameters(fields) + 4 && parameters_read(fields, outcome).skip(
            connection_parameters(fields),
        ) == seq![
            (encode_utf8("fedauth"@), encode_utf8("ActiveDirectoryPassword"@)),
            (encode_utf8("user id"@), encode_utf8(user)),
            (encode_utf8("password"@), encode_utf8(password)),
            (encode_utf8("applicationclientid"@), encode_utf8(client_id)),
        ],
{
    lemma_parameters_read(fields, outcome);
    lemma_method_names_differ();
    assert(parameters_read(fields, outcome).skip(connection_parameters(fields)) =~= seq![
        (encode_utf8("fedauth"@), encode_utf8("ActiveDirectoryPassword"@)),
        (encode_utf8("user id"@), encode_utf8(text_at(fields, "UID"@)->0)),
        (encode_utf8("password"@), encode_utf8(text_at(fields, "PWD"@)->0)),
        (encode_utf8("applicationclientid"@), encode_utf8(text_at(fields, "client_id"@)->0)),
    ]);
}

/// Law: with the credentials in the environment, only the way to them is sent.
pub proof fn law_environment_logins_send_no_credentials(fields: Fields, outcome: AuthOutcome)
    requires
        is_outcome(fields, Ok(outcome)),
        chooses_environment(fields),
    ensures
        parameters_read(fields, outcome).len() == connection_parameters(fields) + 1,
        parameters_read(fields, outcome).last() == (
            encode_utf8("fedauth"@),
            encode_utf8("ActiveDirectoryEnvironment"@),
        ),
{
    lemma_parameters_read(fields, outcome);
    lemma_method_names_differ();
}

/// Law: a profile with a server that can be addressed, a database and the strings that its method
/// needs is configured.
pub proof fn law_complete_profiles_are_configured(fields: Fields, r: Result<AuthOutcome, AuthError>)
    requires
        is_outcome(fields, r),
        addressed(fields) is Some,
        text_at(fields, "database"@) is Some,
        ({
            ||| chooses_sql_login(fields) && text_at(fields, "UID"@) is Some && text_at(
                fields,
                "PWD"@,
            ) is Some
            ||| chooses_service_principal(fields) && text_at(fields, "client_id"@) is Some
                && text_at(fields, "client_secret"@) is Some
            ||| chooses_entra_password(fields) && text_at(fields, "UID"@) is Some && text_at(
                fields,
                "PWD"@,
            ) is Some && text_at(fields, "client_id"@) is Some
            ||| chooses_environment(fields)
        }),
    ensures
        r is Ok,
{
    lemma_method_names_differ();
}

/// Whether a profile was refused for that fault.
pub open spec fn is_refused(r: Result<AuthOutcome, AuthError>, fault: AuthFault) -> bool {
    match (r, fault) {
        (Err(AuthError::Config(message)), AuthFault::Config(text)) => message@ == text,
        (Err(AuthError::MissingField(field)), AuthFault::MissingField(text)) => field@ == text,
        (Err(AuthError::InvalidUri(uri)), AuthFault::InvalidUri(text)) => uri@ == text,
        _ => false,
    }
}

/// Law: a profile that lacks a string its method needs is refused with the name of that field; of
/// several, with the first one.
pub proof fn law_missing_credentials_are_named(fields: Fields, r: Result<AuthOutcome, AuthError>)
    requires
        is_outcome(fields, r),
    ensures
        (chooses_sql_login(fields) || chooses_entra_password(fields)) && text_at(fields, "UID"@)
            is None ==> is_refused(r, AuthFault::MissingField("UID"@)),
        (chooses_sql_login(fields) || chooses_entra_password(fields)) && text_at(fields, "UID"@)
            is Some && text_at(fields, "PWD"@) is None ==> is_refused(
            r,
            AuthFault::MissingField("PWD"@),
        ),
        chooses_entra_password(fields) && text_at(fields, "UID"@) is Some && text_at(fields, "PWD"@)
            is Some && text_at(fields, "client_id"@) is None ==> is_refused(
            r,
            AuthFault::MissingField("client_id"@),
        ),
        chooses_service_principal(fields) && text_at(fields, "client_id"@) is None ==> is_refused(
            r,
            AuthFault::MissingField("client_id"@),
        ),
        chooses_service_principal(fields) && text_at(fields, "client_id"@) is Some && text_at(
            fields,
            "client_secret"@,
        ) is None ==> is_refused(r, AuthFault::MissingField("client_secret"@)),
{
    lemma_method_names_differ();
}

/// Law: where nothing is wrong with the credentials, a profile is refused for want of a host, then
/// for a server that makes no URI, then for want of a database.
pub proof fn law_unusable_servers_are_reported(fields: Fields, r: Result<AuthOutcome, AuthError>)
    requires
        is_outcome(fields, r),
        parsed_auth(fields) is Ok,
    ensures
        text_at(fields, "host"@) is None ==> is_refused(r, AuthFault::MissingField("host"@)),
        text_at(fields, "host"@) is Some && addressed(fields) is None ==> is_refused(
            r,
            AuthFault::InvalidUri(
                "sqlserver://"@ + text_at(fields, "host"@)->0 + ":"@ + match spelling_at(
                    fields,
                    "port"@,
                ) {
                    Some(port) => port,
                    None => "1433"@,
                },
            ),
        ),
        addressed(fields) is Some && text_at(fields, "database"@) is None ==> is_refused(
            r,
            AuthFault::MissingField("database"@),
        ),
{
}

/// Law: a name that is no method's is refused with a message that quotes it, and the methods that
/// are known without being implemented are these four alone.
pub proof fn law_unknown_methods_are_quoted(fields: Fields, name: Seq<char>)
    requires
        text_at(fields, "authentication"@) == Some(name),
    ensures
        is_unimplemented(chosen_authentication(fields)) <==> name == "ActiveDirectoryInteractive"@
            || name == "ActiveDirectoryIntegrated"@ || name == "CLI"@ || name == "auto"@,
        !chooses_sql_login(fields) && !chooses_service_principal(fields) && !chooses_entra_password(
            fields,
        ) && !chooses_environment(fields) ==> parsed_auth(fields) == Err::<AuthSettings, AuthFault>(
            AuthFault::Config(
                "Invalid authentication method: "@ + name
                    + " must be one of: [sql, ActiveDirectoryServicePrincipal, ActiveDirectoryPassword, environment]"@,
            ),
        ),
        chooses_sql_login(fields) || chooses_service_principal(fields) || chooses_entra_password(
            fields,
        ) || chooses_environment(fields) ==> !(parsed_auth(fields) matches Err(AuthFault::Config(_))),
{
    lemma_method_names_differ();
}

/// Law: the settings that are read from a profile are those of the method it chooses, each from the
/// field that is meant for it.
pub proof fn law_settings_come_from_their_fields(fields: Fields, settings: SQLServerAuthIR)
    requires
        parsed_auth(fields) == Ok::<AuthSettings, AuthFault>(settings@),
    ensures
        match settings {
            SQLServerAuthIR::SqlLogin { user, password } => chooses_sql_login(fields) && text_at(
                fields,
                "UID"@,
            ) == Some(user@) && text_at(fields, "PWD"@) == Some(password@),
            SQLServerAuthIR::ActiveDirectoryServicePrincipal {
                tenant_id,
                client_id,
                client_secret,
            } => chooses_service_principal(fields) && text_at(fields, "client_id"@) == Some(
                client_id@,
            ) && text_at(fields, "client_secret"@) == Some(client_secret@) && text_at(
                fields,
                "tenant_id"@,
            ) == (match tenant_id {
                Some(tenant) => Some(tenant@),
                None => None,
            }),
            SQLServerAuthIR::ActiveDirectoryPassword { client_id, user, password } =>
                chooses_entra_password(fields) && text_at(fields, "UID"@) == Some(user@) && text_at(
                fields,
                "PWD"@,
            ) == Some(password@) && text_at(fields, "client_id"@) == Some(client_id@),
            SQLServerAuthIR::ActiveDirectoryEnvironment => chooses_environment(fields),
        },
{
    lemma_method_names_differ();
}

} // verus!
