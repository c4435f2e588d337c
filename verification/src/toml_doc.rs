//! Trusted boundary to the TOML parser.
//!
//! A configuration document is parsed once by the `toml` crate and then
//! held opaquely in a [`TomlDoc`], whose view is the source text it was
//! parsed from.  What the entries of that text are is named by
//! uninterpreted spec functions: parsing is deterministic, so each is a
//! function of the source text alone.  The accessors below are the only
//! way a `TomlDoc` gives its entries out, and each ties its result to
//! the matching name.

use vstd::prelude::*;

verus! {

#[verifier::external_type_specification]
#[verifier::external_body]
pub struct ExTomlValue(toml::Value);

/// A parsed TOML document.  Only [`toml_parse`] builds one, so the held
/// value is always the parse of the source text that the view gives.
pub struct TomlDoc {
    value: toml::Value,
    source: Ghost<Seq<char>>,
}

impl View for TomlDoc {
    type V = Seq<char>;

    closed spec fn view(&self) -> Seq<char> {
        self.source@
    }
}

/// Whether the text parses as a TOML document.
pub uninterp spec fn toml_parse_ok(s: Seq<char>) -> bool;

/// The string at a top-level key, when that key holds a string.
pub uninterp spec fn toml_top_str(s: Seq<char>, key: Seq<char>) -> Option<Seq<char>>;

/// The string at `key` inside the table `sec`, when it holds a string.
pub uninterp spec fn toml_sec_str(s: Seq<char>, sec: Seq<char>, key: Seq<char>) -> Option<
    Seq<char>,
>;

/// The boolean at `key` inside the table `sec`, when it holds a boolean.
pub uninterp spec fn toml_sec_bool(s: Seq<char>, sec: Seq<char>, key: Seq<char>) -> Option<bool>;

/// The integer at `key` inside the table `sec`, when it holds an integer.
pub uninterp spec fn toml_sec_int(s: Seq<char>, sec: Seq<char>, key: Seq<char>) -> Option<i64>;

/// The length of the array at `key` inside the table `sec`, when it
/// holds an array.
pub uninterp spec fn toml_sec_arr_len(s: Seq<char>, sec: Seq<char>, key: Seq<char>) -> Option<int>;

/// The `i`-th element of the array at `key` inside the table `sec`,
/// when that element is a string.
pub uninterp spec fn toml_sec_arr_str(s: Seq<char>, sec: Seq<char>, key: Seq<char>, i: int) -> Option<
    Seq<char>,
>;

/// Relies on toml::from_str::<toml::Value>: parsing succeeds or fails on
/// the text alone; the error's rendering is carried back as a string.
#[verifier::external_body]
fn parse_value(s: &str) -> (r: Result<toml::Value, String>)
    ensures
        r is Ok <==> toml_parse_ok(s@),
{
    toml::from_str::<toml::Value>(s).map_err(|e| e.to_string())
}

/// Parses a configuration text; the document keeps that text as its view.
pub fn toml_parse(s: &str) -> (r: Result<TomlDoc, String>)
    ensures
        r is Ok <==> toml_parse_ok(s@),
        r matches Ok(d) ==> d@ == s@,
{
    match parse_value(s) {
        Ok(value) => Ok(TomlDoc { value, source: Ghost(s@) }),
        Err(e) => Err(e),
    }
}

impl TomlDoc {
    /// Relies on toml::Value::get and toml::Value::as_str.
    #[verifier::external_body]
    pub fn top_str(&self, key: &str) -> (r: Option<String>)
        ensures
            r matches Some(v) ==> toml_top_str(self@, key@) == Some(v@),
            r is None ==> toml_top_str(self@, key@) is None,
    {
        self.value.get(key).and_then(|v| v.as_str()).map(|v| v.to_string())
    }

    /// Relies on toml::Value::get and toml::Value::as_str.
    #[verifier::external_body]
    pub fn sec_str(&self, sec: &str, key: &str) -> (r: Option<String>)
        ensures
            r matches Some(v) ==> toml_sec_str(self@, sec@, key@) == Some(v@),
            r is None ==> toml_sec_str(self@, sec@, key@) is None,
    {
        self.value.get(sec).and_then(|t| t.get(key)).and_then(|v| v.as_str()).map(
            |v| v.to_string(),
        )
    }

    /// Relies on toml::Value::get and toml::Value::as_bool.
    #[verifier::external_body]
    pub fn sec_bool(&self, sec: &str, key: &str) -> (r: Option<bool>)
        ensures
            r == toml_sec_bool(self@, sec@, key@),
    {
        self.value.get(sec).and_then(|t| t.get(key)).and_then(|v| v.as_bool())
    }

    /// Relies on toml::Value::get and toml::Value::as_integer.
    #[verifier::external_body]
    pub fn sec_int(&self, sec: &str, key: &str) -> (r: Option<i64>)
        ensures
            r == toml_sec_int(self@, sec@, key@),
    {
        self.value.get(sec).and_then(|t| t.get(key)).and_then(|v| v.as_integer())
    }

    /// Relies on toml::Value::get, toml::Value::as_array and Vec::len.
    #[verifier::external_body]
    pub fn sec_arr_len(&self, sec: &str, key: &str) -> (r: Option<usize>)
        ensures
            r matches Some(l) ==> toml_sec_arr_len(self@, sec@, key@) == Some(l as int),
            r is None ==> toml_sec_arr_len(self@, sec@, key@) is None,
    {
        self.value.get(sec).and_then(|t| t.get(key)).and_then(|v| v.as_array()).map(|a| a.len())
    }

    /// Relies on toml::Value::get, toml::Value::as_array, slice indexing
    /// and toml::Value::as_str.
    #[verifier::external_body]
    pub fn sec_arr_str(&self, sec: &str, key: &str, i: usize) -> (r: Option<String>)
        ensures
            r matches Some(v) ==> toml_sec_arr_str(self@, sec@, key@, i as int) == Some(v@),
            r is None ==> toml_sec_arr_str(self@, sec@, key@, i as int) is None,
    {
        self.value.get(sec).and_then(|t| t.get(key)).and_then(|v| v.as_array()).and_then(
            |a| a.get(i),
        ).and_then(|v| v.as_str()).map(|v| v.to_string())
    }
}

} // verus!
