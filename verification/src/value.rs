//! The data model of a TOML document, as the API specification is read.

use vstd::prelude::*;

verus! {

/// A TOML value. Tables keep their entries in the order of the document's keys.
///
/// Floating-point numbers are kept as their text: nothing in a specification is read from one.
#[derive(Debug)]
pub enum TomlValue {
    String(String),
    Integer(i64),
    Float(String),
    Boolean(bool),
    Datetime(String),
    Array(Vec<TomlValue>),
    Table(Vec<(String, TomlValue)>),
}

/// The index of the first entry of a table with the given key, or `-1`.
pub open spec fn find_entry(entries: Seq<(String, TomlValue)>, key: Seq<char>) -> int
    decreases entries.len(),
{
    if entries.len() == 0 {
        -1
    } else if entries[0].0@ == key {
        0
    } else {
        let r = find_entry(entries.skip(1), key);
        if r < 0 {
            -1
        } else {
            r + 1
        }
    }
}

/// `find_entry` gives the first matching entry, or `-1` when no entry matches.
pub proof fn lemma_find_entry(entries: Seq<(String, TomlValue)>, key: Seq<char>)
    ensures
        -1 <= find_entry(entries, key) < entries.len(),
        find_entry(entries, key) >= 0 ==> entries[find_entry(entries, key)].0@ == key,
        forall|j: int|
            0 <= j < entries.len() && (find_entry(entries, key) < 0 || j < find_entry(
                entries,
                key,
            )) ==> entries[j].0@ != key,
    decreases entries.len(),
{
    if entries.len() > 0 && entries[0].0@ != key {
        lemma_find_entry(entries.skip(1), key);
        assert forall|j: int|
            0 <= j < entries.len() && (find_entry(entries, key) < 0 || j < find_entry(
                entries,
                key,
            )) implies entries[j].0@ != key by {
            if j > 0 {
                assert(entries.skip(1)[j - 1] == entries[j]);
            }
        }
    }
}

/// The value of a table entry.
pub open spec fn table_get(entries: Seq<(String, TomlValue)>, key: Seq<char>) -> Option<TomlValue> {
    let i = find_entry(entries, key);
    if i < 0 {
        None
    } else {
        Some(entries[i].1)
    }
}

/// Look up a key in a list of table entries.
pub fn find_entry_exec(entries: &Vec<(String, TomlValue)>, key: &str) -> (r: Option<usize>)
    ensures
        match r {
            Some(i) => i as int == find_entry(entries@, key@) && i < entries@.len(),
            None => find_entry(entries@, key@) < 0,
        },
{
    proof {
        lemma_find_entry(entries@, key@);
    }
    let n = entries.len();
    let mut i: usize = 0;
    while i < n
        invariant
            n == entries@.len(),
            i <= n,
            forall|j: int| 0 <= j < i ==> entries@[j].0@ != key@,
            -1 <= find_entry(entries@, key@) < entries@.len(),
            find_entry(entries@, key@) >= 0 ==> entries@[find_entry(entries@, key@)].0@ == key@,
            forall|j: int|
                0 <= j < entries@.len() && (find_entry(entries@, key@) < 0 || j < find_entry(
                    entries@,
                    key@,
                )) ==> entries@[j].0@ != key@,
        decreases n - i,
    {
        if entries[i].0.as_str().to_string() == key.to_string() {
            return Some(i);
        }
        i = i + 1;
    }
    None
}

impl TomlValue {
    /// The value under a key, if this is a table that has the key.
    pub open spec fn spec_get(self, key: Seq<char>) -> Option<TomlValue> {
        match self {
            TomlValue::Table(es) => table_get(es@, key),
            _ => None,
        }
    }

    /// The value under a key, if this is a table that has the key.
    pub fn get(&self, key: &str) -> (r: Option<&TomlValue>)
        ensures
            match r {
                Some(v) => self.spec_get(key@) == Some(*v),
                None => self.spec_get(key@) is None,
            },
    {
        match self {
            TomlValue::Table(es) => match find_entry_exec(es, key) {
                Some(i) => Some(&es[i].1),
                None => None,
            },
            _ => None,
        }
    }

    /// The string, if this is a string.
    pub fn as_str(&self) -> (r: Option<&str>)
        ensures
            match *self {
                TomlValue::String(s) => r matches Some(t) && t@ == s@,
                _ => r is None,
            },
    {
        match self {
            TomlValue::String(s) => Some(s.as_str()),
            _ => None,
        }
    }

    /// The elements, if this is an array.
    pub fn as_array(&self) -> (r: Option<&Vec<TomlValue>>)
        ensures
            match *self {
                TomlValue::Array(a) => r == Some(&a),
                _ => r is None,
            },
    {
        match self {
            TomlValue::Array(a) => Some(a),
            _ => None,
        }
    }

    /// The entries, if this is a table.
    pub fn as_table(&self) -> (r: Option<&Vec<(String, TomlValue)>>)
        ensures
            match *self {
                TomlValue::Table(t) => r == Some(&t),
                _ => r is None,
            },
    {
        match self {
            TomlValue::Table(t) => Some(t),
            _ => None,
        }
    }

    /// The name of the type of this value.
    pub fn type_str(&self) -> (r: &'static str)
        ensures
            r@ == spec_type_str(*self),
    {
        match self {
            TomlValue::String(_) => "string",
            TomlValue::Integer(_) => "integer",
            TomlValue::Float(_) => "float",
            TomlValue::Boolean(_) => "boolean",
            TomlValue::Datetime(_) => "datetime",
            TomlValue::Array(_) => "array",
            TomlValue::Table(_) => "table",
        }
    }
}

/// The name of the type of a value.
pub open spec fn spec_type_str(v: TomlValue) -> Seq<char> {
    match v {
        TomlValue::String(_) => "string"@,
        TomlValue::Integer(_) => "integer"@,
        TomlValue::Float(_) => "float"@,
        TomlValue::Boolean(_) => "boolean"@,
        TomlValue::Datetime(_) => "datetime"@,
        TomlValue::Array(_) => "array"@,
        TomlValue::Table(_) => "table"@,
    }
}

/// The value type of the TOML library.
#[verifier::external_type_specification]
#[verifier::external_body]
pub struct ExTomlLibValue(toml::Value);

/// What the TOML library reads from a text: the document's value, or its message on why the
/// text is no TOML document.
pub uninterp spec fn toml_document(text: Seq<char>) -> Result<TomlValue, Seq<char>>;

/// Calls `toml::from_str` to read a text as a `toml::Value`, and converts the value (or the
/// error's message) one for one. The contract claims only that the result is what the library
/// gives for the text: `toml_document`.
#[verifier::external_body]
pub fn parse_toml(text: &str) -> (r: Result<TomlValue, String>)
    ensures
        match r {
            Ok(v) => toml_document(text@) == Ok::<TomlValue, Seq<char>>(v),
            Err(e) => toml_document(text@) == Err::<TomlValue, Seq<char>>(e@),
        },
{
    match toml::from_str::<toml::Value>(text) {
        Ok(v) => Ok(toml_lib_value(&v)),
        Err(e) => Err(e.to_string()),
    }
}

/// Converts a value of the TOML library into a `TomlValue`, variant for variant; a table
/// keeps the order in which the library hands out its keys, and a float becomes its text.
/// Only `parse_toml` calls it, and nothing is claimed of it on its own.
#[verifier::external_body]
fn toml_lib_value(v: &toml::Value) -> TomlValue {
    match v {
        toml::Value::String(s) => TomlValue::String(s.clone()),
        toml::Value::Integer(i) => TomlValue::Integer(*i),
        toml::Value::Float(f) => TomlValue::Float(f.to_string()),
        toml::Value::Boolean(b) => TomlValue::Boolean(*b),
        toml::Value::Datetime(d) => TomlValue::Datetime(d.to_string()),
        toml::Value::Array(a) => TomlValue::Array(a.iter().map(toml_lib_value).collect()),
        toml::Value::Table(t) => TomlValue::Table(t.iter().map(|(k, v)| (k.clone(), toml_lib_value(v))).collect()),
    }
}

} // verus!
