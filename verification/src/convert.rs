use vstd::prelude::*;
use vstd::string::StringExecFns;

verus! {

/// Why a conversion request failed.
#[derive(Debug)]
pub enum ConvError {
    /// The encoding label named no known encoding; carries the label as given.
    UnknownEncoding(String),
    /// Some byte sequence was invalid for the resolved encoding, so the
    /// strict decode rejected the whole input.
    DecodingError,
}

/// Whether an encoding label resolves, under the WHATWG label conventions
/// (case-insensitive, alias-tolerant), to a known encoding.
pub uninterp spec fn label_resolves(label: Seq<char>) -> bool;

/// What decoding `data` under the encoding that `label` resolves to yields:
/// the decoded text, and whether any malformed byte sequence had to be
/// replaced. A pure function of the label and the bytes.
pub uninterp spec fn decode_of(label: Seq<char>, data: Seq<u8>) -> (Seq<char>, bool);

/// Relies on encoding_rs::Encoding::for_label (the WHATWG label lookup, a
/// function of the label alone, `None` exactly when the label names no known
/// encoding) and on encoding_rs::Encoding::decode (whole-input, BOM-sniffing
/// decode, a function of the encoding and the bytes alone; its flag is true
/// exactly when a malformed sequence was replaced). `decode` panics only when
/// its output-size calculation overflows `usize`; the length bound rules that
/// out.
#[verifier::external_body]
fn decode_with_label(label: &str, data: &Vec<u8>) -> (r: Option<(String, bool)>)
    requires
        data@.len() <= usize::MAX / 8,
    ensures
        r is Some <==> label_resolves(label@),
        (r matches Some(p) ==> p.0@ == decode_of(label@, data@).0
            && p.1 == decode_of(label@, data@).1),
{
    match encoding_rs::Encoding::for_label(label.as_bytes()) {
        None => None,
        Some(enc) => {
            let (text, _, had_errors) = enc.decode(data.as_slice());
            Some((text.into_owned(), had_errors))
        },
    }
}

/// The all-or-nothing rule of the strict decode: a decode that needed any
/// replacement is discarded whole; only a replacement-free decode is returned.
pub fn strict_decode_result(decoded: String, had_errors: bool) -> (r: Result<String, ConvError>)
    ensures
        had_errors ==> r matches Err(ConvError::DecodingError),
        !had_errors ==> (r matches Ok(s) && s == decoded),
{
    if had_errors {
        Err(ConvError::DecodingError)
    } else {
        Ok(decoded)
    }
}

/// Decodes `data` to UTF-8 text under the encoding named by `encoding`.
///
/// Fails with `UnknownEncoding` exactly when the label resolves to no known
/// encoding, and with `DecodingError` exactly when the label resolves but some
/// byte sequence was invalid for that encoding; on success the result is the
/// complete decoded text, free of replacements. Lossy output is never
/// returned as success.
pub fn convert_to_utf8(data: Vec<u8>, encoding: String) -> (r: Result<String, ConvError>)
    requires
        data@.len() <= usize::MAX / 8,
    ensures
        r is Ok <==> (label_resolves(encoding@) && !decode_of(encoding@, data@).1),
        (r matches Ok(text) ==> text@ == decode_of(encoding@, data@).0),
        !label_resolves(encoding@) ==> (r matches Err(e)
            && e matches ConvError::UnknownEncoding(l) && l@ == encoding@),
        (label_resolves(encoding@) && decode_of(encoding@, data@).1) ==> r matches Err(
            ConvError::DecodingError,
        ),
{
    match decode_with_label(encoding.as_str(), &data) {
        None => Err(ConvError::UnknownEncoding(encoding)),
        Some((decoded, had_errors)) => strict_decode_result(decoded, had_errors),
    }
}

impl ConvError {
    /// The display string for this failure, as a caller sees it.
    pub open spec fn message_view(&self) -> Seq<char> {
        match self {
            ConvError::UnknownEncoding(l) => "Unknown encoding: "@ + l@,
            ConvError::DecodingError => "Decoding had errors"@,
        }
    }

    /// Renders the failure as its display string.
    pub fn message(&self) -> (r: String)
        ensures
            r@ == self.message_view(),
    {
        match self {
            ConvError::UnknownEncoding(l) => {
                let mut m = String::from_str("Unknown encoding: ");
                m.append(l.as_str());
                m
            },
            ConvError::DecodingError => String::from_str("Decoding had errors"),
        }
    }
}

/// An unresolved label is echoed verbatim: the unknown-encoding failure
/// message is a fixed prefix followed by exactly the label, so the message
/// always contains the label's own text.
pub proof fn lemma_unknown_message_carries_label(label: String)
    ensures
        ConvError::UnknownEncoding(label).message_view() == "Unknown encoding: "@ + label@,
        ConvError::UnknownEncoding(label).message_view().skip(
            ("Unknown encoding: "@).len() as int,
        ) == label@,
{
    assert(ConvError::UnknownEncoding(label).message_view().skip(
        ("Unknown encoding: "@).len() as int,
    ) =~= label@);
}

} // verus!
