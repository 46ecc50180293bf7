use vstd::prelude::*;

verus! {

/// The canonical name of the encoding that the statistical detector guesses
/// for a complete byte stream: a pure function of the bytes.
pub uninterp spec fn guessed_encoding(data: Seq<u8>) -> Seq<char>;

/// Relies on chardetng::EncodingDetector (`new`, one `feed` of the whole input
/// marked as final, `guess` with no TLD hint and UTF-8 permitted) and on
/// encoding_rs::Encoding::name. The guess depends on the fed bytes alone,
/// `guess` always returns some encoding (a fallback at worst), and every
/// canonical encoding name is a non-empty string.
#[verifier::external_body]
fn guess_encoding_name(data: &Vec<u8>) -> (name: String)
    ensures
        name@ == guessed_encoding(data@),
        name@.len() > 0,
{
    let mut detector = chardetng::EncodingDetector::new();
    detector.feed(data.as_slice(), true);
    let encoding = detector.guess(None, true);
    encoding.name().to_string()
}

/// Guesses the character encoding of `data` and returns its canonical label.
///
/// Never fails: even an empty buffer yields a (fallback) non-empty label. The
/// detector exposes no certainty measure, so a caller that wants the
/// conventional confidence score pairs the label with the fixed maximum.
pub fn detect_encoding(data: Vec<u8>) -> (label: String)
    ensures
        label@ == guessed_encoding(data@),
        label@.len() > 0,
{
    guess_encoding_name(&data)
}

} // verus!
