//! The authenticator's section of the configuration: one table of settings
//! for each authentication module, under the module's name.

use std::sync::Arc;
use toml::map::Map as TomlMap;
use toml::{Table, Value};
use vstd::prelude::*;

verus! {

/// `toml::map::Map`, the type behind `toml::Table`; carried through and
/// never looked into.
#[verifier::external_type_specification]
#[verifier::external_body]
#[verifier::reject_recursive_types(K)]
#[verifier::reject_recursive_types(V)]
pub struct ExTomlMap<K, V>(TomlMap<K, V>);

/// `toml::Value`; carried through and never looked into.
#[verifier::external_type_specification]
#[verifier::external_body]
pub struct ExValue(Value);

/// The entries of a table: its values by their keys.
pub uninterp spec fn entries(table: Table) -> Map<Seq<char>, Value>;

/// The table that a value is, if it is one.
pub uninterp spec fn table_in(value: Value) -> Option<Table>;

/// Whether a table has no entries.
pub open spec fn is_empty(table: Table) -> bool {
    entries(table) == Map::<Seq<char>, Value>::empty()
}

/// `Map::get` looks `key` up in the table: it returns the value stored
/// under `key`, or nothing if the table has no such key.
#[verifier::external_body]
fn table_get<'a>(table: &'a Table, key: &str) -> (value: Option<&'a Value>)
    ensures
        match value {
            Some(value) => entries(*table).contains_key(key@) && entries(*table)[key@] == *value,
            None => !entries(*table).contains_key(key@),
        },
{
    table.get(key)
}

/// `Value::as_table` returns the table inside a value of the variant
/// `Table`, and nothing for any other variant.
#[verifier::external_body]
fn value_as_table<'a>(value: &'a Value) -> (table: Option<&'a Table>)
    ensures
        match table {
            Some(table) => table_in(*value) == Some(*table),
            None => table_in(*value) is None,
        },
{
    value.as_table()
}

/// `Clone::clone` on a table returns a copy of it.
#[verifier::external_body]
fn table_clone(table: &Table) -> (copy: Table)
    ensures
        copy == *table,
{
    table.clone()
}

/// `Default::default` for a table is the table without entries.
#[verifier::external_body]
fn table_default() -> (table: Table)
    ensures
        is_empty(table),
{
    Table::default()
}

/// The settings stored under `name` in `table`: the value under that key
/// if it is a table; none if the key is missing or holds something else.
pub open spec fn module_settings(table: Table, name: Seq<char>) -> Option<Table> {
    if entries(table).contains_key(name) {
        table_in(entries(table)[name])
    } else {
        None
    }
}

/// The authenticator's section of the configuration, shared read-only
/// between the threads that consult it.
pub struct Auth {
    table: Arc<Table>,
}

impl Default for Auth {
    /// The section without any module.
    fn default() -> (auth: Auth)
        ensures
            is_empty(auth.section()),
    {
        Auth { table: Arc::new(table_default()) }
    }
}

impl Auth {
    /// The section as it was loaded.
    pub closed spec fn section(&self) -> Table {
        *self.table
    }

    /// The section that holds `table`.
    pub fn new(table: Table) -> (auth: Auth)
        ensures
            auth.section() == table,
    {
        Auth { table: Arc::new(table) }
    }

    /// Get the configuration for a specific authorization module: the
    /// table stored under the module's name, or an empty table if there is
    /// none.
    pub fn get(&self, name: &str) -> (settings: Table)
        ensures
            match module_settings(self.section(), name@) {
                Some(table) => settings == table,
                None => is_empty(settings),
            },
    {
        match table_get(&self.table, name) {
            Some(value) => match value_as_table(value) {
                Some(table) => table_clone(table),
                None => table_default(),
            },
            None => table_default(),
        }
    }
}

} // verus!
