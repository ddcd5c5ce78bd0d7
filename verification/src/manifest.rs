//! Reading the project manifest: parsing it as TOML and selecting the binary
//! target to build.
//!
//! TOML parsing and field access are delegated to `toml_edit`; what the
//! manifest yields is captured by uninterpreted names over the text, and the
//! selection logic is verified against them.

use vstd::prelude::*;
use crate::error::Error;

verus! {

/// Whether `toml_edit` parses the text as a TOML document; a function of the
/// text alone.
pub uninterp spec fn toml_parses(text: Seq<char>) -> bool;

/// The `field_key` string fields of the entries of the `array_key`
/// array-of-tables of the parsed document: `None` when the document has no
/// such array, otherwise one entry per table, each `None` when the table
/// lacks a string under `field_key`. A function of the arguments alone;
/// meaningful only when `toml_parses(text)`.
pub uninterp spec fn toml_table_array_str_fields(
    text: Seq<char>,
    array_key: Seq<char>,
    field_key: Seq<char>,
) -> Option<Seq<Option<Seq<char>>>>;

/// Relies on `toml_edit::DocumentMut::from_str`, `Table::get`,
/// `Item::as_array_of_tables`, `ArrayOfTables::iter`, `Table::get` and
/// `Item::as_str`: parsing succeeds exactly when the text is valid TOML, and
/// the result lists the `field_key` string field of each entry of the
/// `array_key` array of tables, all functions of the arguments alone.
#[verifier::external_body]
fn read_table_array_str_fields(text: &str, array_key: &str, field_key: &str) -> (r: Result<
    Option<Vec<Option<String>>>,
    String,
>)
    ensures
        r is Ok <==> toml_parses(text@),
        (r matches Ok(b) ==> b.deep_view() == toml_table_array_str_fields(
            text@,
            array_key@,
            field_key@,
        )),
{
    let doc = text.parse::<toml_edit::DocumentMut>().map_err(|e| format!("{e}"))?;
    Ok(doc.get(array_key).and_then(|item| item.as_array_of_tables()).map(|arr| {
        arr.iter().map(|t| t.get(field_key).and_then(|n| n.as_str()).map(|s| s.to_owned())).collect()
    }))
}

/// The name the selector resolves to when none was supplied explicitly: the
/// `name` field of the first declared binary entry, if there is one.
pub open spec fn first_declared_bin(bins: Option<Seq<Option<Seq<char>>>>) -> Option<Seq<char>> {
    match bins {
        Some(entries) => if entries.len() > 0 {
            entries[0]
        } else {
            None
        },
        None => None,
    }
}

/// The binary selector over an already-extracted declaration list: an
/// explicitly supplied name is used verbatim, whatever the manifest declares;
/// otherwise the first declared entry's name is taken, and its absence is a
/// fatal configuration error.
pub fn resolve_bin_name(explicit: Option<String>, bins: &Option<Vec<Option<String>>>) -> (r: Result<
    String,
    Error,
>)
    ensures
        (explicit matches Some(n) ==> (r matches Ok(m) && m@ == n@)),
        (explicit is None ==> match first_declared_bin(bins.deep_view()) {
            Some(name) => r matches Ok(m) && m@ == name,
            None => r matches Err(e) && e is NoBinTarget,
        }),
{
    match explicit {
        Some(n) => Ok(n),
        None => match bins {
            Some(entries) => {
                if entries.len() > 0 {
                    match &entries[0] {
                        Some(name) => {
                            proof {
                                assert(bins.deep_view() matches Some(b) && b[0]
                                    == entries@[0].deep_view());
                            }
                            Ok(name.clone())
                        },
                        None => Err(Error::NoBinTarget),
                    }
                } else {
                    Err(Error::NoBinTarget)
                }
            },
            None => Err(Error::NoBinTarget),
        },
    }
}

/// The binary selector over the manifest text: parse failure is fatal even
/// when a name was supplied explicitly; otherwise the selection follows
/// `resolve_bin_name` over the manifest's `[[bin]] name` declarations.
pub fn select_bin_name(explicit: Option<String>, manifest_text: &str) -> (r: Result<String, Error>)
    ensures
        (!toml_parses(manifest_text@) ==> (r matches Err(e) && e is ManifestParse)),
        (toml_parses(manifest_text@) ==> match explicit {
            Some(n) => r matches Ok(m) && m@ == n@,
            None => match first_declared_bin(
                toml_table_array_str_fields(manifest_text@, "bin"@, "name"@),
            ) {
                Some(name) => r matches Ok(m) && m@ == name,
                None => r matches Err(e) && e is NoBinTarget,
            },
        }),
{
    match read_table_array_str_fields(manifest_text, "bin", "name") {
        Ok(bins) => resolve_bin_name(explicit, &bins),
        Err(msg) => Err(Error::ManifestParse(msg)),
    }
}

} // verus!
