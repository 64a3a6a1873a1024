//! Reading the optional `[coinbase_tag]` section of the node's configuration
//! text. The TOML grammar itself is the `toml` crate's; this module decides
//! which entries of the parsed document become fields of the tag
//! configuration.

use crate::coinbase_tag::{field_view, present, CoinbaseTagConfig, TagFields};
use vstd::prelude::*;
use vstd::string::*;

verus! {

/// `toml::Value`, a parsed TOML value, taken as it is: nothing of its inside
/// is visible here but through `toml_strings`.
#[verifier::external_type_specification]
#[verifier::external_body]
pub struct ExTomlValue(toml::Value);

/// `toml::de::Error`, the parser's report of a text that is not TOML.
#[verifier::external_type_specification]
#[verifier::external_body]
pub struct ExTomlError(toml::de::Error);

/// The strings that a TOML value holds, each under the path of table keys
/// that leads to it. A string value holds itself under the empty path; a table
/// holds, under a key followed by a path, what its entry of that key holds
/// under the path; every other value holds nothing.
pub uninterp spec fn toml_strings(value: toml::Value) -> Map<Seq<Seq<char>>, Seq<char>>;

/// The strings of the document that a text parses to, or `None` where the
/// text is not a TOML document.
pub uninterp spec fn toml_document(text: Seq<char>) -> Option<Map<Seq<Seq<char>>, Seq<char>>>;

/// What a value holds below one key: the paths that start with `key`, with
/// that first key taken off.
pub open spec fn strings_below(strings: Map<Seq<Seq<char>>, Seq<char>>, key: Seq<char>) -> Map<
    Seq<Seq<char>>,
    Seq<char>,
> {
    Map::new(
        |path: Seq<Seq<char>>| strings.dom().contains(seq![key] + path),
        |path: Seq<Seq<char>>| strings[seq![key] + path],
    )
}

/// No path of `strings` starts with `key`.
pub open spec fn nothing_below(strings: Map<Seq<Seq<char>>, Seq<char>>, key: Seq<char>) -> bool {
    forall|path: Seq<Seq<char>>| !strings.dom().contains(#[trigger] (seq![key] + path))
}

/// Trusted: `str::parse::<toml::Value>`, which is `toml::Value::from_str`. It
/// is a function of the text alone. The contract gives its outcome a name:
/// on success the strings of the returned value are those of
/// `toml_document`, on failure `toml_document` is `None`.
#[verifier::external_body]
fn parse_value(text: &str) -> (r: Result<toml::Value, toml::de::Error>)
    ensures
        r is Ok ==> toml_document(text@) == Some(toml_strings(r->Ok_0)),
        r is Err ==> toml_document(text@) is None,
{
    text.parse::<toml::Value>()
}

/// Trusted: `toml::Value::get` with a string index. It returns the entry of
/// `key` when the value is a table that has one, and `None` for a missing key
/// and for every value that is not a table.
#[verifier::external_body]
fn value_get<'a>(value: &'a toml::Value, key: &str) -> (r: Option<&'a toml::Value>)
    ensures
        r is Some ==> toml_strings(*r->0) == strings_below(toml_strings(*value), key@),
        r is None ==> nothing_below(toml_strings(*value), key@),
{
    value.get(key)
}

/// Trusted: `toml::Value::as_str`. It returns the text of a string value and
/// `None` for a value of any other type.
#[verifier::external_body]
fn value_as_str<'a>(value: &'a toml::Value) -> (r: Option<&'a str>)
    ensures
        r is Some ==> toml_strings(*value).dom().contains(Seq::<Seq<char>>::empty())
            && toml_strings(*value)[Seq::<Seq<char>>::empty()] == r->0@,
        r is None ==> !toml_strings(*value).dom().contains(Seq::<Seq<char>>::empty()),
{
    value.as_str()
}

/// Trusted: the `Display` of `toml::de::Error`, through `to_string`. Nothing
/// is claimed of the text.
#[verifier::external_body]
fn error_text(error: &toml::de::Error) -> (r: String) {
    error.to_string()
}

/// The string that `strings` holds under the one-key path `key`, if any.
pub open spec fn entry_at(strings: Map<Seq<Seq<char>>, Seq<char>>, key: Seq<char>) -> Option<
    Seq<char>,
> {
    if strings.dom().contains(seq![key]) {
        Some(strings[seq![key]])
    } else {
        None
    }
}

/// The string that a document holds under `key` of its `[coinbase_tag]` table,
/// if any.
pub open spec fn section_entry(document: Map<Seq<Seq<char>>, Seq<char>>, key: Seq<char>) -> Option<
    Seq<char>,
> {
    if document.dom().contains(seq!["coinbase_tag"@, key]) {
        Some(document[seq!["coinbase_tag"@, key]])
    } else {
        None
    }
}

/// The tag fields that a document configures: each of the five keys of its
/// `[coinbase_tag]` table that holds a non-empty string.
pub open spec fn tag_fields_of(document: Map<Seq<Seq<char>>, Seq<char>>) -> TagFields {
    TagFields {
        pool: present(section_entry(document, "pool"@)),
        miner: present(section_entry(document, "miner"@)),
        software: present(section_entry(document, "software"@)),
        website: present(section_entry(document, "website"@)),
        custom: present(section_entry(document, "custom"@)),
    }
}

/// A message that reports a text which is not TOML: the fixed opening
/// followed by the parser's own words.
pub open spec fn is_parse_failure(message: Seq<char>) -> bool {
    exists|detail: Seq<char>| message == "Failed to parse TOML: "@ + detail
}

/// The string entry of `table` under `key`: `None` where the value is no
/// table, has no such key, or holds there something that is no string.
fn string_entry(table: &toml::Value, key: &str) -> (r: Option<String>)
    ensures
        field_view(r) == entry_at(toml_strings(*table), key@),
{
    let ghost here = Seq::<Seq<char>>::empty();
    assert(seq![key@] + here =~= seq![key@]);
    match value_get(table, key) {
        Some(value) => match value_as_str(value) {
            Some(text) => Some(text.to_owned()),
            None => None,
        },
        None => None,
    }
}

/// The string entry under `key` of the document's `[coinbase_tag]` table.
fn section_string(section: Option<&toml::Value>, document: &toml::Value, key: &str) -> (r: Option<
    String,
>)
    requires
        section is Some ==> toml_strings(*section->0) == strings_below(
            toml_strings(*document),
            "coinbase_tag"@,
        ),
        section is None ==> nothing_below(toml_strings(*document), "coinbase_tag"@),
    ensures
        field_view(r) == section_entry(toml_strings(*document), key@),
{
    assert(seq!["coinbase_tag"@] + seq![key@] =~= seq!["coinbase_tag"@, key@]);
    match section {
        Some(table) => string_entry(table, key),
        None => None,
    }
}

/// Reads the tag configuration out of a parsed document.
fn tag_config_of_document(document: &toml::Value) -> (r: CoinbaseTagConfig)
    ensures
        r@ == tag_fields_of(toml_strings(*document)),
        r@.well_formed(),
{
    let section = value_get(document, "coinbase_tag");
    let pool = section_string(section, document, "pool");
    let miner = section_string(section, document, "miner");
    let software = section_string(section, document, "software");
    let website = section_string(section, document, "website");
    let custom = section_string(section, document, "custom");
    CoinbaseTagConfig::from_entries(pool, miner, software, website, custom)
}

/// Parses the configuration text and reads its optional `[coinbase_tag]`
/// section. A text that is TOML always yields a configuration: a missing
/// section, a section that is no table, a missing key, a value that is no
/// string and an empty string all leave the field absent. A text that is not
/// TOML yields the parse failure message.
pub fn parse_coinbase_tag_config(contents: &str) -> (r: Result<CoinbaseTagConfig, String>)
    ensures
        match toml_document(contents@) {
            Some(document) => r is Ok && r->Ok_0@ == tag_fields_of(document)
                && r->Ok_0@.well_formed(),
            None => r is Err && is_parse_failure(r->Err_0@),
        },
{
    match parse_value(contents) {
        Ok(document) => Ok(tag_config_of_document(&document)),
        Err(error) => {
            let detail = error_text(&error);
            let message = String::from_str("Failed to parse TOML: ").concat(detail.as_str());
            assert(message@ == "Failed to parse TOML: "@ + detail@);
            Err(message)
        },
    }
}

} // verus!
