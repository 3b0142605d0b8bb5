//! The fields of a connection profile, and what goes wrong when they are read.

use vstd::prelude::*;

use crate::sorted_map::SortedMap;

verus! {

/// The value of a profile field, as far as it is read here.
#[derive(Debug)]
pub enum ConfigValue {
    /// No value.
    Null,
    /// A boolean.
    Bool(bool),
    /// A number, as it is printed.
    Number(String),
    /// A string.
    Text(String),
    /// A sequence or a mapping.
    Nested,
}

impl ConfigValue {
    /// The characters of a string value.
    pub open spec fn text(self) -> Option<Seq<char>> {
        match self {
            ConfigValue::Text(s) => Some(s@),
            _ => None,
        }
    }

    /// A scalar value as it is spelled.
    pub open spec fn spelling(self) -> Option<Seq<char>> {
        match self {
            ConfigValue::Bool(b) => Some(bool_text(b)),
            ConfigValue::Number(s) => Some(s@),
            ConfigValue::Text(s) => Some(s@),
            ConfigValue::Null | ConfigValue::Nested => None,
        }
    }

    /// The value of an integer.
    pub fn integer(n: i64) -> (value: ConfigValue)
        ensures
            value.spelling() == Some(crate::text::decimal(n as int)),
            value is Number,
    {
        ConfigValue::Number(crate::text::i64_text(n))
    }
}

/// How a boolean is spelled.
pub open spec fn bool_text(b: bool) -> Seq<char> {
    if b {
        "true"@
    } else {
        "false"@
    }
}

/// Why a connection cannot be configured.
#[derive(Debug)]
pub enum AuthError {
    /// A field has a value that is not supported; the message says which.
    Config(String),
    /// The named field is required, and there is no string at it.
    MissingField(String),
    /// The text is no URI.
    InvalidUri(String),
}

/// The content of an [`AuthError`].
pub enum AuthFault {
    Config(Seq<char>),
    MissingField(Seq<char>),
    InvalidUri(Seq<char>),
}

impl View for AuthError {
    type V = AuthFault;

    open spec fn view(&self) -> AuthFault {
        match *self {
            AuthError::Config(message) => AuthFault::Config(message@),
            AuthError::MissingField(field) => AuthFault::MissingField(field@),
            AuthError::InvalidUri(text) => AuthFault::InvalidUri(text@),
        }
    }
}

impl AuthError {
    /// An error that says what is wrong with a field's value.
    pub fn config(message: String) -> (error: AuthError)
        ensures
            error@ == AuthFault::Config(message@),
    {
        AuthError::Config(message)
    }
}

/// The fields of a profile, by their names.
pub type Fields = Map<Seq<char>, ConfigValue>;

/// The string at a field.
pub open spec fn text_at(fields: Fields, field: Seq<char>) -> Option<Seq<char>> {
    if fields.contains_key(field) {
        fields[field].text()
    } else {
        None
    }
}

/// The spelling of the scalar at a field.
pub open spec fn spelling_at(fields: Fields, field: Seq<char>) -> Option<Seq<char>> {
    if fields.contains_key(field) {
        fields[field].spelling()
    } else {
        None
    }
}

/// The string at a field that has to be there.
pub open spec fn required_at(fields: Fields, field: Seq<char>) -> Result<Seq<char>, AuthFault> {
    match text_at(fields, field) {
        Some(text) => Ok(text),
        None => Err(AuthFault::MissingField(field)),
    }
}

/// The characters of an optional text.
pub open spec fn option_text(text: Option<&str>) -> Option<Seq<char>> {
    match text {
        Some(s) => Some(s@),
        None => None,
    }
}

/// The connection profile of one target.
#[derive(Debug)]
pub struct AdapterConfig {
    fields: SortedMap<ConfigValue>,
}

impl View for AdapterConfig {
    type V = Fields;

    closed spec fn view(&self) -> Fields {
        self.fields@
    }
}

impl AdapterConfig {
    /// The profile with these fields.
    pub fn new(fields: SortedMap<ConfigValue>) -> (config: AdapterConfig)
        ensures
            config@ == fields@,
    {
        AdapterConfig { fields }
    }

    /// The string at `field`; no other kind of value counts as one.
    pub fn get_str(&self, field: &str) -> (text: Option<&str>)
        ensures
            option_text(text) == text_at(self@, field@),
    {
        match self.fields.get(field) {
            Some(ConfigValue::Text(s)) => Some(s.as_str()),
            _ => None,
        }
    }

    /// The spelling of the string, number or boolean at `field`.
    pub fn get_string(&self, field: &str) -> (text: Option<String>)
        ensures
            match text {
                Some(s) => spelling_at(self@, field@) == Some(s@),
                None => spelling_at(self@, field@) is None,
            },
    {
        match self.fields.get(field) {
            Some(ConfigValue::Bool(b)) => if *b {
                Some("true".to_owned())
            } else {
                Some("false".to_owned())
            },
            Some(ConfigValue::Number(s)) => Some(s.clone()),
            Some(ConfigValue::Text(s)) => Some(s.clone()),
            _ => None,
        }
    }

    /// The string at `field`, or the error that names the missing field.
    pub fn require_str(&self, field: &str) -> (text: Result<&str, AuthError>)
        ensures
            match text {
                Ok(s) => required_at(self@, field@) == Ok::<Seq<char>, AuthFault>(s@),
                Err(e) => required_at(self@, field@) == Err::<Seq<char>, AuthFault>(e@),
            },
    {
        match self.get_str(field) {
            Some(s) => Ok(s),
            None => Err(AuthError::MissingField(field.to_owned())),
        }
    }
}

/// Law: the string at a field is the one that was put there, whatever it holds; a value of another
/// kind is no string, and a field that is not there has none.
pub proof fn law_strings_read_back(fields: Fields, field: Seq<char>, value: ConfigValue)
    ensures
        value matches ConfigValue::Text(s) ==> text_at(fields.insert(field, value), field) == Some(
            s@,
        ),
        !(value is Text) ==> text_at(fields.insert(field, value), field) is None,
        text_at(fields.remove(field), field) is None,
        text_at(fields, field) matches Some(text) ==> required_at(fields, field) == Ok::<
            Seq<char>,
            AuthFault,
        >(text),
        text_at(fields, field) is None ==> required_at(fields, field) == Err::<
            Seq<char>,
            AuthFault,
        >(AuthFault::MissingField(field)),
{
}

/// Law: a string and a number are spelled as they are written, a boolean as `true` or `false`, and
/// nothing else has a spelling.
pub proof fn law_scalars_are_spelled_as_written(fields: Fields, field: Seq<char>, value: ConfigValue)
    ensures
        spelling_at(fields.insert(field, value), field) == (match value {
            ConfigValue::Text(s) => Some(s@),
            ConfigValue::Number(s) => Some(s@),
            ConfigValue::Bool(true) => Some("true"@),
            ConfigValue::Bool(false) => Some("false"@),
            ConfigValue::Null | ConfigValue::Nested => None,
        }),
        spelling_at(fields.remove(field), field) is None,
{
}

/// Law: what is at other fields has no say in what is read from a field.
pub proof fn law_fields_are_read_alone(
    fields: Fields,
    field: Seq<char>,
    other: Seq<char>,
    value: ConfigValue,
)
    requires
        other != field,
    ensures
        text_at(fields.insert(other, value), field) == text_at(fields, field),
        spelling_at(fields.insert(other, value), field) == spelling_at(fields, field),
{
}

/// Law: an integer is spelled by its decimal numeral, so that it reads back as itself.
pub proof fn law_integers_read_back(n: i64, value: ConfigValue)
    requires
        call_ensures(ConfigValue::integer, (n,), value),
    ensures
        value matches ConfigValue::Number(s) && crate::text::parsed_i64(s@) == Some(n),
{
    crate::text::law_decimal_reads_back(n);
}

} // verus!
