//! The format codec: every source document is decoded into a canonical JSON
//! text before it is filtered, and every result is encoded in the requested
//! output format.  The byte-level XML/JSON conversion itself is an outside
//! capability; its results are named, and everything around the calls is
//! verified against those names.

use vstd::prelude::*;
use crate::resolve::OutputFormat;
use crate::text::{has_suffix, str_ends_with};

verus! {

/// How a source's on-disk format is chosen: by its extension, or by
/// sniffing the content when the extension decides nothing.
#[derive(Clone, Copy, PartialEq, Eq, Structural, Debug)]
pub enum FormatHint {
    Json,
    Xml,
    Sniff,
}

/// Whether the XML parser accepts the text; it depends on the text alone.
pub uninterp spec fn sniffs_as_xml(content: Seq<char>) -> bool;

/// The canonical JSON text that the XML-to-JSON conversion produces for the
/// given XML text, or the conversion's diagnostic; it depends on the text
/// alone.
pub uninterp spec fn json_of_xml(content: Seq<char>) -> Result<Seq<char>, Seq<char>>;

/// The XML text that the JSON-to-XML conversion produces for the given JSON
/// text, or the conversion's diagnostic; it depends on the text alone.
pub uninterp spec fn xml_of_json(content: Seq<char>) -> Result<Seq<char>, Seq<char>>;

/// Relies on `xmltree::Element::parse`: whether a text parses as an XML
/// element is a function of the text alone.
#[verifier::external_body]
fn parses_as_xml(content: &str) -> (r: bool)
    ensures
        r == sniffs_as_xml(content@),
{
    xmltree::Element::parse(content.as_bytes()).is_ok()
}

/// Relies on `jxon::xml_to_json` followed by `serde_json::to_string`: the
/// JSON value converted from the XML text, serialized as JSON text.  Both
/// results are functions of the text alone (`serde_json`'s maps order their
/// keys deterministically).
#[verifier::external_body]
fn xml_to_json_text(content: &str) -> (r: Result<String, String>)
    ensures
        (match r {
            Ok(t) => json_of_xml(content@) == Ok::<Seq<char>, Seq<char>>(t@),
            Err(m) => json_of_xml(content@) == Err::<Seq<char>, Seq<char>>(m@),
        }),
{
    match jxon::xml_to_json(content) {
        Ok(value) => match serde_json::to_string(&value) {
            Ok(text) => Ok(text),
            Err(error) => Err(error.to_string()),
        },
        Err(error) => Err(error.to_string()),
    }
}

/// Relies on `jxon::json_to_xml`: the XML text written for the given JSON
/// text, a function of the text alone.
#[verifier::external_body]
fn json_to_xml_text(content: &str) -> (r: Result<String, String>)
    ensures
        (match r {
            Ok(t) => xml_of_json(content@) == Ok::<Seq<char>, Seq<char>>(t@),
            Err(m) => xml_of_json(content@) == Err::<Seq<char>, Seq<char>>(m@),
        }),
{
    match jxon::json_to_xml(content, None) {
        Ok(text) => Ok(text),
        Err(error) => Err(error.to_string()),
    }
}

/// The hint a source path's extension gives.
pub open spec fn spec_hint_of(path: Seq<char>) -> FormatHint {
    if has_suffix(path, ".json"@) {
        FormatHint::Json
    } else if has_suffix(path, ".xml"@) {
        FormatHint::Xml
    } else {
        FormatHint::Sniff
    }
}

/// Dispatches on the path's extension, as `spec_hint_of` states.
pub fn hint_of(path: &str) -> (r: FormatHint)
    ensures
        r == spec_hint_of(path@),
{
    if str_ends_with(path, ".json") {
        FormatHint::Json
    } else if str_ends_with(path, ".xml") {
        FormatHint::Xml
    } else {
        FormatHint::Sniff
    }
}

/// The canonical JSON text a source decodes to, or the codec's diagnostic:
/// JSON sources pass through, XML sources are converted, and a source
/// without a deciding extension is sniffed (XML if it parses as XML,
/// otherwise taken as JSON).
pub open spec fn spec_decode(path: Seq<char>, raw: Seq<char>) -> Result<Seq<char>, Seq<char>> {
    match spec_hint_of(path) {
        FormatHint::Json => Ok(raw),
        FormatHint::Xml => json_of_xml(raw),
        FormatHint::Sniff => if sniffs_as_xml(raw) {
            json_of_xml(raw)
        } else {
            Ok(raw)
        },
    }
}

/// Decodes one source document, as `spec_decode` states.
pub fn decode(path: &str, raw: String) -> (r: Result<String, String>)
    ensures
        r is Ok <==> spec_decode(path@, raw@) is Ok,
        r matches Ok(t) ==> spec_decode(path@, raw@) == Ok::<Seq<char>, Seq<char>>(t@),
        r matches Err(m) ==> spec_decode(path@, raw@) == Err::<Seq<char>, Seq<char>>(m@),
{
    match hint_of(path) {
        FormatHint::Json => Ok(raw),
        FormatHint::Xml => xml_to_json_text(raw.as_str()),
        FormatHint::Sniff => if parses_as_xml(raw.as_str()) {
            xml_to_json_text(raw.as_str())
        } else {
            Ok(raw)
        },
    }
}

/// The text written to the destination for a filter result, or the codec's
/// diagnostic: JSON results pass through, XML output converts the result.
pub open spec fn spec_encode(format: OutputFormat, doc: Seq<char>) -> Result<
    Seq<char>,
    Seq<char>,
> {
    match format {
        OutputFormat::Json => Ok(doc),
        OutputFormat::Xml => xml_of_json(doc),
    }
}

/// Encodes one filter result, as `spec_encode` states.
pub fn encode(format: OutputFormat, doc: String) -> (r: Result<String, String>)
    ensures
        r is Ok <==> spec_encode(format, doc@) is Ok,
        r matches Ok(t) ==> spec_encode(format, doc@) == Ok::<Seq<char>, Seq<char>>(t@),
        r matches Err(m) ==> spec_encode(format, doc@) == Err::<Seq<char>, Seq<char>>(m@),
{
    match format {
        OutputFormat::Json => Ok(doc),
        OutputFormat::Xml => json_to_xml_text(doc.as_str()),
    }
}

} // verus!
