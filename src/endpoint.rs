use vstd::prelude::*;

use serde_json::Value;

verus! {

/// The top level of the JSON document that gives the extra handshake headers.
pub enum HeaderDoc {
    /// `null`.
    Null,
    /// A JSON string.
    Text { text: String },
    /// A JSON object: each member's name, and its value where that is a string.
    Object { entries: Vec<(String, Option<String>)> },
    /// Any other JSON value.
    Other,
}

/// A header document with its texts as character sequences.
pub enum HeaderDocView {
    Null,
    Text { text: Seq<char> },
    Object { entries: Seq<(Seq<char>, Option<Seq<char>>)> },
    Other,
}

pub open spec fn opt_chars(s: Option<String>) -> Option<Seq<char>> {
    match s {
        Some(t) => Some(t@),
        None => None,
    }
}

pub open spec fn entry_view(e: (String, Option<String>)) -> (Seq<char>, Option<Seq<char>>) {
    (e.0@, opt_chars(e.1))
}

/// The mathematical value of a header document.
pub open spec fn doc_view(d: HeaderDoc) -> HeaderDocView {
    match d {
        HeaderDoc::Null => HeaderDocView::Null,
        HeaderDoc::Text { text } => HeaderDocView::Text { text: text@ },
        HeaderDoc::Object { entries } => HeaderDocView::Object { entries: entries@.map_values(|e| entry_view(e)) },
        HeaderDoc::Other => HeaderDocView::Other,
    }
}

/// Why the handshake headers were refused.
#[derive(Clone, Copy, Debug, PartialEq, Eq, Structural)]
pub enum HeaderError {
    /// The text is not JSON.
    InvalidJson,
    /// A member of the header object is not a string.
    NonStringValue,
    /// The document is neither `null`, an empty string nor an object.
    Unsupported,
}

/// The header document that a JSON text holds, or `None` where the text is not
/// JSON.
pub uninterp spec fn header_doc_of(text: Seq<char>) -> Option<HeaderDocView>;

/// Relies on `serde_json::from_str` to parse `text` into a `serde_json::Value`,
/// whose variants are told apart: the result depends on the text alone.
#[verifier::external_body]
fn parse_header_doc(text: &str) -> (r: Option<HeaderDoc>)
    ensures
        r is None ==> header_doc_of(text@) is None,
        r matches Some(d) ==> header_doc_of(text@) == Some(doc_view(d)),
{
    match serde_json::from_str::<Value>(text).ok()? {
        Value::Null => Some(HeaderDoc::Null),
        Value::String(text) => Some(HeaderDoc::Text { text }),
        Value::Object(map) => Some(HeaderDoc::Object {
            entries: map.into_iter().map(|(k, v)| match v {
                Value::String(s) => (k, Some(s)),
                _ => (k, None),
            }).collect(),
        }),
        _ => Some(HeaderDoc::Other),
    }
}

/// Whether every member of a header object has a string value.
pub open spec fn all_text(entries: Seq<(Seq<char>, Option<Seq<char>>)>) -> bool {
    forall|i: int| 0 <= i < entries.len() ==> (#[trigger] entries[i]).1 is Some
}

/// The headers that a header document asks for: none for `null` or an empty
/// string, the members of an object whose values are all strings, in order;
/// anything else is refused.
pub open spec fn headers_of(d: HeaderDocView) -> Result<Seq<(Seq<char>, Seq<char>)>, HeaderError> {
    match d {
        HeaderDocView::Null => Ok(Seq::empty()),
        HeaderDocView::Text { text } => if text.len() == 0 {
            Ok(Seq::empty())
        } else {
            Err(HeaderError::Unsupported)
        },
        HeaderDocView::Object { entries } => if all_text(entries) {
            Ok(entries.map_values(|e: (Seq<char>, Option<Seq<char>>)| (e.0, e.1->Some_0)))
        } else {
            Err(HeaderError::NonStringValue)
        },
        HeaderDocView::Other => Err(HeaderError::Unsupported),
    }
}

/// The headers of a result, as character sequences.
pub open spec fn pairs_view(r: Result<Vec<(String, String)>, HeaderError>) -> Result<
    Seq<(Seq<char>, Seq<char>)>,
    HeaderError,
> {
    match r {
        Ok(v) => Ok(v@.map_values(|p: (String, String)| (p.0@, p.1@))),
        Err(e) => Err(e),
    }
}

/// The headers that a header document asks for.
pub fn header_pairs(doc: HeaderDoc) -> (r: Result<Vec<(String, String)>, HeaderError>)
    ensures
        pairs_view(r) == headers_of(doc_view(doc)),
{
    match doc {
        HeaderDoc::Null => {
            let r: Result<Vec<(String, String)>, HeaderError> = Ok(Vec::new());
            assert(pairs_view(r)->Ok_0 =~= Seq::<(Seq<char>, Seq<char>)>::empty());
            r
        },
        HeaderDoc::Text { text } => if text.as_str().is_empty() {
            let r: Result<Vec<(String, String)>, HeaderError> = Ok(Vec::new());
            assert(pairs_view(r)->Ok_0 =~= Seq::<(Seq<char>, Seq<char>)>::empty());
            r
        } else {
            Err(HeaderError::Unsupported)
        },
        HeaderDoc::Other => Err(HeaderError::Unsupported),
        HeaderDoc::Object { entries } => {
            let ghost ev = entries@.map_values(|e| entry_view(e));
            let mut pairs: Vec<(String, String)> = Vec::new();
            let mut i: usize = 0;
            while i < entries.len()
                invariant
                    doc == (HeaderDoc::Object { entries }),
                    ev == entries@.map_values(|e| entry_view(e)),
                    i <= entries@.len(),
                    pairs@.len() == i,
                    forall|j: int|
                        0 <= j < i ==> (#[trigger] pairs@[j]).0@ == ev[j].0 && pairs@[j].1@ == ev[j].1->Some_0,
                    forall|j: int| 0 <= j < i ==> (#[trigger] ev[j]).1 is Some,
                decreases entries@.len() - i,
            {
                match &entries[i].1 {
                    Some(v) => {
                        let k = entries[i].0.clone();
                        let v2 = v.clone();
                        pairs.push((k, v2));
                        i = i + 1;
                    },
                    None => {
                        proof {
                            assert(ev[i as int].1 is None);
                            assert(!all_text(ev));
                        }
                        return Err(HeaderError::NonStringValue);
                    },
                }
            }
            let r: Result<Vec<(String, String)>, HeaderError> = Ok(pairs);
            proof {
                assert(all_text(ev));
                assert(pairs_view(r)->Ok_0 =~= ev.map_values(
                    |e: (Seq<char>, Option<Seq<char>>)| (e.0, e.1->Some_0),
                ));
            }
            r
        },
    }
}

/// Reads the handshake headers from their JSON text: text that is not JSON is
/// refused, and a JSON document gives what [`header_pairs`] gives for it.
pub fn parse_headers(text: &str) -> (r: Result<Vec<(String, String)>, HeaderError>)
    ensures
        header_doc_of(text@) is None ==> r == Err::<Vec<(String, String)>, HeaderError>(
            HeaderError::InvalidJson,
        ),
        header_doc_of(text@) matches Some(d) ==> pairs_view(r) == headers_of(d),
{
    match parse_header_doc(text) {
        None => Err(HeaderError::InvalidJson),
        Some(doc) => header_pairs(doc),
    }
}

} // verus!
