//! Names and addresses for a service instance with a database of its own.
//!
//! An integration test runs the service against a database that was created
//! for that test alone and listens on a port that the operating system
//! picked. This module computes the texts such a run needs; creating the
//! database and binding the port are the caller's part.

use crate::identifier::{is_random_uuid, new_v4};
use crate::text::{
    decimal, hex, lemma_hex_is_injective, lemma_nothing_above_hex, pow16, push_decimal, push_hex,
};
use vstd::prelude::*;
use vstd::string::*;

verus! {

/// What every test database's name starts with.
pub const TEST_DATABASE_PREFIX: &'static str = "test_db_";

/// The statement that gives a new database its one table. A row is a
/// subscriber: the identifier is its key, and every column must be filled.
pub const CREATE_SUBSCRIPTIONS_TABLE: &'static str =
    "CREATE TABLE subscriptions (id uuid NOT NULL, PRIMARY KEY (id), email TEXT NOT NULL, name TEXT NOT NULL, subscribed_at timestamptz NOT NULL);";

/// Where a database server is reached, and as whom.
#[derive(Clone, Debug, PartialEq, Eq)]
pub struct DatabaseSettings {
    pub username: String,
    pub password: String,
    pub host: String,
    pub port: u16,
    pub database_name: String,
}

/// The name of the test database that belongs to `id`: the prefix, then the
/// identifier as 32 hexadecimal digits in lower case.
pub open spec fn database_name_of(id: u128) -> Seq<char> {
    TEST_DATABASE_PREFIX@ + hex(id as nat, 32)
}

/// The statement that creates the database `name`.
pub open spec fn create_database_statement_of(name: Seq<char>) -> Seq<char> {
    "CREATE DATABASE \""@ + name + "\";"@
}

/// The URL under which `database` is reached with `settings`.
pub open spec fn connection_string_of(settings: DatabaseSettings, database: Seq<char>) -> Seq<
    char,
> {
    "postgres://"@ + settings.username@ + ":"@ + settings.password@ + "@"@ + settings.host@ + ":"@
        + decimal(settings.port as nat) + "/"@ + database
}

/// The URL of a service that listens on `port` of the loopback interface.
pub open spec fn base_url_of(port: u16) -> Seq<char> {
    "http://127.0.0.1:"@ + decimal(port as nat)
}

impl DatabaseSettings {
    /// The URL under which the configured database is reached.
    pub fn connection_string(&self) -> (url: String)
        ensures
            url@ == connection_string_of(*self, self.database_name@),
    {
        self.connection_string_to(self.database_name.as_str())
    }

    /// The URL under which another database of the same server is reached.
    pub fn connection_string_to(&self, database: &str) -> (url: String)
        ensures
            url@ == connection_string_of(*self, database@),
    {
        let mut url = String::from_str("postgres://");
        url.append(self.username.as_str());
        url.append(":");
        url.append(self.password.as_str());
        url.append("@");
        url.append(self.host.as_str());
        url.append(":");
        push_decimal(&mut url, self.port);
        url.append("/");
        url.append(database);
        url
    }
}

/// The name of the test database that belongs to `id`.
pub fn database_name(id: u128) -> (name: String)
    ensures
        name@ == database_name_of(id),
{
    let mut name = String::from_str(TEST_DATABASE_PREFIX);
    push_hex(&mut name, id, 32);
    name
}

/// A name for a new test database, made from a freshly generated identifier.
pub fn fresh_database_name() -> (name: String)
    ensures
        exists|id: u128| is_random_uuid(id) && name@ == database_name_of(id),
{
    let id = new_v4();
    database_name(id)
}

/// The statement that creates the database `name`.
pub fn create_database_statement(name: &str) -> (statement: String)
    ensures
        statement@ == create_database_statement_of(name@),
{
    let mut statement = String::from_str("CREATE DATABASE \"");
    statement.append(name);
    statement.append("\";");
    statement
}

/// The URL of a service that listens on `port` of the loopback interface.
pub fn base_url(port: u16) -> (url: String)
    ensures
        url@ == base_url_of(port),
{
    let mut url = String::from_str("http://127.0.0.1:");
    push_decimal(&mut url, port);
    url
}

/// Test databases made for different identifiers have different names, so
/// two test runs that drew different identifiers never share a database.
pub proof fn lemma_database_names_differ(a: u128, b: u128)
    requires
        a != b,
    ensures
        database_name_of(a) != database_name_of(b),
{
    if database_name_of(a) == database_name_of(b) {
        let prefix = TEST_DATABASE_PREFIX@;
        let a_hex = hex(a as nat, 32);
        let b_hex = hex(b as nat, 32);
        let a_name = prefix + a_hex;
        let b_name = prefix + b_hex;
        assert(a_hex =~= a_name.subrange(prefix.len() as int, a_name.len() as int));
        assert(b_hex =~= b_name.subrange(prefix.len() as int, b_name.len() as int));
        assert(pow16(32) == 0x1_0000_0000_0000_0000_0000_0000_0000_0000) by {
            reveal_with_fuel(pow16, 33);
        }
        lemma_nothing_above_hex(a as nat, 32);
        lemma_nothing_above_hex(b as nat, 32);
        lemma_hex_is_injective(a as nat, b as nat, 32);
    }
}

} // verus!
