//! Relations of a database, and what goes wrong when they are listed.

use vstd::prelude::*;

use crate::text::str_eq;

verus! {

/// What kind of error an [`AdapterError`] is.
#[derive(Clone, Copy, Debug, PartialEq, Eq, Structural)]
pub enum AdapterErrorKind {
    /// A result or an argument is not what it has to be.
    UnexpectedResult,
    /// The driver failed.
    Driver,
}

/// An error with its message.
#[derive(Debug)]
pub struct AdapterError {
    pub kind: AdapterErrorKind,
    pub message: String,
}

/// The content of an [`AdapterError`].
pub struct AdapterFault {
    pub kind: AdapterErrorKind,
    pub message: Seq<char>,
}

impl View for AdapterError {
    type V = AdapterFault;

    open spec fn view(&self) -> AdapterFault {
        AdapterFault { kind: self.kind, message: self.message@ }
    }
}

impl AdapterError {
    pub fn new(kind: AdapterErrorKind, message: &str) -> (error: AdapterError)
        ensures
            error@ == (AdapterFault { kind, message: message@ }),
    {
        AdapterError { kind, message: message.to_owned() }
    }
}

/// The error for a result or an argument that is not what it has to be.
pub open spec fn unexpected(message: Seq<char>) -> AdapterFault {
    AdapterFault { kind: AdapterErrorKind::UnexpectedResult, message }
}

/// Whether a relation is a table or a view.
#[derive(Clone, Copy, Debug, PartialEq, Eq, Structural)]
pub enum RelationType {
    Table,
    View,
}

/// The relation type that a `table_type` stands for.
pub open spec fn relation_type_of(table_type: Seq<char>) -> Option<RelationType> {
    if table_type == "TABLE"@ {
        Some(RelationType::Table)
    } else if table_type == "VIEW"@ {
        Some(RelationType::View)
    } else {
        None
    }
}

/// Maps the `table_type` column of the catalog queries.
pub fn relation_type_from_table_type(table_type: &str) -> (r: Option<RelationType>)
    ensures
        r == relation_type_of(table_type@),
{
    if str_eq(table_type, "TABLE") {
        Some(RelationType::Table)
    } else if str_eq(table_type, "VIEW") {
        Some(RelationType::View)
    } else {
        None
    }
}

/// Which parts of a relation's name are quoted.
#[derive(Clone, Copy, Debug, PartialEq, Eq, Structural)]
pub struct ResolvedQuoting {
    pub database: bool,
    pub schema: bool,
    pub identifier: bool,
}

/// A table or a view.
#[derive(Debug, PartialEq, Eq)]
pub struct Relation {
    pub database: Option<String>,
    pub schema: Option<String>,
    pub identifier: Option<String>,
    pub relation_type: Option<RelationType>,
    pub quoting: ResolvedQuoting,
}

/// The content of a [`Relation`].
pub struct RelationName {
    pub database: Option<Seq<char>>,
    pub schema: Option<Seq<char>>,
    pub identifier: Option<Seq<char>>,
    pub relation_type: Option<RelationType>,
    pub quoting: ResolvedQuoting,
}

/// The characters of an optional text.
pub open spec fn option_string(text: Option<String>) -> Option<Seq<char>> {
    match text {
        Some(s) => Some(s@),
        None => None,
    }
}

impl View for Relation {
    type V = RelationName;

    open spec fn view(&self) -> RelationName {
        RelationName {
            database: option_string(self.database),
            schema: option_string(self.schema),
            identifier: option_string(self.identifier),
            relation_type: self.relation_type,
            quoting: self.quoting,
        }
    }
}

/// The contents of a list of relations.
pub open spec fn relations_view(relations: Seq<Relation>) -> Seq<RelationName> {
    Seq::new(relations.len(), |i: int| relations[i]@)
}

/// A part of a relation's name that has to be there.
pub open spec fn name_part(part: Option<Seq<char>>) -> Result<Seq<char>, AdapterFault> {
    match part {
        Some(text) => Ok(text),
        None => Err(unexpected("The relation's name is incomplete"@)),
    }
}

/// A name between the quote characters of SQL Server.
pub open spec fn quoted_name(name: Seq<char>) -> Seq<char> {
    "\""@ + name + "\""@
}

/// The message for a relation without a database.
pub open spec fn no_database() -> Seq<char> {
    "SQL Server relations require a database to build a three-part name"@
}

/// The quoted database of a relation.
pub open spec fn database_part(relation: RelationName) -> Result<Seq<char>, AdapterFault> {
    match name_part(relation.database) {
        Err(e) => Err(e),
        Ok(database) => if database.len() == 0 {
            Err(unexpected(no_database()))
        } else {
            Ok(quoted_name(database))
        },
    }
}

fn require_part(part: &Option<String>) -> (r: Result<&str, AdapterError>)
    ensures
        match r {
            Ok(text) => name_part(option_string(*part)) == Ok::<Seq<char>, AdapterFault>(text@),
            Err(e) => name_part(option_string(*part)) == Err::<Seq<char>, AdapterFault>(e@),
        },
{
    match part {
        Some(text) => Ok(text.as_str()),
        None => Err(
            AdapterError::new(
                AdapterErrorKind::UnexpectedResult,
                "The relation's name is incomplete",
            ),
        ),
    }
}

impl Relation {
    /// A relation of a SQL Server database.
    pub fn new_sqlserver(
        database: Option<String>,
        schema: Option<String>,
        identifier: Option<String>,
        relation_type: Option<RelationType>,
        quoting: ResolvedQuoting,
    ) -> (relation: Relation)
        ensures
            relation@ == (RelationName {
                database: option_string(database),
                schema: option_string(schema),
                identifier: option_string(identifier),
                relation_type,
                quoting,
            }),
    {
        Relation { database, schema, identifier, relation_type, quoting }
    }

    pub fn database_as_str(&self) -> (r: Result<&str, AdapterError>)
        ensures
            match r {
                Ok(text) => name_part(self@.database) == Ok::<Seq<char>, AdapterFault>(text@),
                Err(e) => name_part(self@.database) == Err::<Seq<char>, AdapterFault>(e@),
            },
    {
        require_part(&self.database)
    }

    pub fn schema_as_str(&self) -> (r: Result<&str, AdapterError>)
        ensures
            match r {
                Ok(text) => name_part(self@.schema) == Ok::<Seq<char>, AdapterFault>(text@),
                Err(e) => name_part(self@.schema) == Err::<Seq<char>, AdapterFault>(e@),
            },
    {
        require_part(&self.schema)
    }

    pub fn identifier_as_str(&self) -> (r: Result<&str, AdapterError>)
        ensures
            match r {
                Ok(text) => name_part(self@.identifier) == Ok::<Seq<char>, AdapterFault>(text@),
                Err(e) => name_part(self@.identifier) == Err::<Seq<char>, AdapterFault>(e@),
            },
    {
        require_part(&self.identifier)
    }

    /// A name between quote characters.
    pub fn quoted(&self, name: &str) -> (r: String)
        ensures
            r@ == quoted_name(name@),
    {
        let mut r = "\"".to_owned();
        r.append(name);
        r.append("\"");
        r
    }
}

/// The quoted database of a relation, which a three-part name starts with.
pub fn quoted_database(relation: &Relation) -> (r: Result<String, AdapterError>)
    ensures
        match r {
            Ok(text) => database_part(relation@) == Ok::<Seq<char>, AdapterFault>(text@),
            Err(e) => database_part(relation@) == Err::<Seq<char>, AdapterFault>(e@),
        },
{
    let database = match relation.database_as_str() {
        Ok(database) => database,
        Err(e) => return Err(e),
    };
    if database.is_empty() {
        return Err(
            AdapterError::new(
                AdapterErrorKind::UnexpectedResult,
                "SQL Server relations require a database to build a three-part name",
            ),
        );
    }
    Ok(relation.quoted(database))
}

/// Law: `TABLE` stands for a table and `VIEW` for a view, and no other text for either.
pub proof fn law_table_types_are_told_apart(table_type: Seq<char>)
    ensures
        relation_type_of(table_type) == Some(RelationType::Table) <==> table_type == "TABLE"@,
        relation_type_of(table_type) == Some(RelationType::View) <==> table_type == "VIEW"@,
{
    reveal_strlit("TABLE");
    reveal_strlit("VIEW");
    assert("TABLE"@.len() == 5 && "VIEW"@.len() == 4);
}

/// Law: the database of a relation is quoted with all its characters between two quote characters,
/// and a relation without a database, or with an empty one, is refused.
pub proof fn law_databases_are_quoted_whole(relation: Relation)
    ensures
        relation.database matches Some(database) && database@.len() > 0 ==> database_part(relation@)
            == Ok::<Seq<char>, AdapterFault>(seq!['"'] + relation.database->0@ + seq!['"']),
        relation.database matches Some(database) && database@.len() == 0 ==> database_part(relation@)
            == Err::<Seq<char>, AdapterFault>(
            AdapterFault {
                kind: AdapterErrorKind::UnexpectedResult,
                message: "SQL Server relations require a database to build a three-part name"@,
            },
        ),
        relation.database is None ==> database_part(relation@) is Err,
        relation.schema matches Some(schema) ==> name_part(relation@.schema) == Ok::<
            Seq<char>,
            AdapterFault,
        >(schema@),
        relation.schema is None ==> name_part(relation@.schema) is Err,
        relation.identifier matches Some(identifier) ==> name_part(relation@.identifier) == Ok::<
            Seq<char>,
            AdapterFault,
        >(identifier@),
        relation.identifier is None ==> name_part(relation@.identifier) is Err,
{
    reveal_strlit("\"");
    assert("\""@ =~= seq!['"']);
}

/// Law: a relation keeps the parts of its name, its type and its quoting as they were given.
pub proof fn law_relations_keep_their_parts(
    database: Option<String>,
    schema: Option<String>,
    identifier: Option<String>,
    relation_type: Option<RelationType>,
    quoting: ResolvedQuoting,
    relation: Relation,
)
    requires
        call_ensures(
            Relation::new_sqlserver,
            (database, schema, identifier, relation_type, quoting),
            relation,
        ),
    ensures
        relation.database is Some == database is Some,
        database matches Some(s) ==> relation.database->0@ == s@,
        relation.schema is Some == schema is Some,
        schema matches Some(s) ==> relation.schema->0@ == s@,
        relation.identifier is Some == identifier is Some,
        identifier matches Some(s) ==> relation.identifier->0@ == s@,
        relation.relation_type == relation_type,
        relation.quoting == quoting,
{
}

} // verus!
