//! The statistical classifier, and the scan that decides which buffers it is
//! asked about.
//!
//! The classifier itself is the `chardet` crate. Its answer is not proved
//! here: it is given the name [`classifier_verdict`], and the contracts of
//! this library speak of that name. A buffer with an escape byte and no high
//! byte is handed to it only where it recognises an escape sequence in it.

use vstd::prelude::*;

verus! {

/// The ASCII escape byte, which opens the shift sequences of the 7-bit
/// encodings.
pub const ESCAPE_BYTE: u8 = 0x1B;

/// The no-break space of the Latin single-byte encodings. It does not count
/// as a high byte.
pub const NO_BREAK_SPACE: u8 = 0xA0;

/// A byte with its top bit set, other than the no-break space.
pub open spec fn is_high_byte(b: u8) -> bool {
    b >= 0x80 && b != NO_BREAK_SPACE
}

/// Some byte of `data` is a high byte.
pub open spec fn has_high_byte(data: Seq<u8>) -> bool {
    exists|i: int| 0 <= i < data.len() && is_high_byte(#[trigger] data[i])
}

/// Some byte of `data` is the escape byte.
pub open spec fn has_escape(data: Seq<u8>) -> bool {
    exists|i: int| 0 <= i < data.len() && #[trigger] data[i] == ESCAPE_BYTE
}

/// What kind of bytes a buffer holds, as far as the classifier's first pass
/// tells them apart.
#[derive(Clone, Copy, Debug, PartialEq, Eq, Structural)]
pub enum InputKind {
    /// No byte at all.
    Empty,
    /// At least one byte, no high byte and no escape byte.
    Plain,
    /// An escape byte and no high byte.
    Escaped,
    /// At least one high byte.
    HighByte,
}

/// The kind of `data`. A high byte decides first, then an escape byte.
pub open spec fn input_kind(data: Seq<u8>) -> InputKind {
    if data.len() == 0 {
        InputKind::Empty
    } else if has_high_byte(data) {
        InputKind::HighByte
    } else if has_escape(data) {
        InputKind::Escaped
    } else {
        InputKind::Plain
    }
}

/// Bit pattern of the single-precision number 1.0: full confidence.
pub const FULL_CONFIDENCE_BITS: u32 = 0x3F80_0000;

/// The high byte that is fed after an escape-coded buffer to close its
/// classification.
pub const CLOSING_BYTE: u8 = 0x80;

/// The one-byte chunk that holds [`CLOSING_BYTE`].
pub open spec fn closing_chunk() -> Seq<u8> {
    seq![CLOSING_BYTE]
}

/// The labels of the encodings that are told by their escape sequences.
pub open spec fn is_escape_charset(label: Seq<char>) -> bool {
    label == "HZ-GB-2312"@ || label == "ISO-2022-CN"@ || label == "ISO-2022-JP"@ || label
        == "ISO-2022-KR"@
}

/// What `chardet::detect` answers on `data`: the charset label, the bits of
/// the single-precision confidence, and the language.
pub uninterp spec fn classifier_verdict(data: Seq<u8>) -> (Seq<char>, u32, Seq<char>);

/// What a `chardet::UniversalDetector` answers at `close` after it was fed
/// `first` and then `second`: label, confidence bits and language.
pub uninterp spec fn detector_verdict(first: Seq<u8>, second: Seq<u8>) -> (
    Seq<char>,
    u32,
    Seq<char>,
);

/// The classifier recognises the escape sequences of `data`: fed `data` and
/// then the closing chunk, the detector answers with an escape encoding.
pub open spec fn recognises_escapes(data: Seq<u8>) -> bool {
    is_escape_charset(detector_verdict(data, closing_chunk()).0)
}

/// The buffers that the classifier has an answer for: all but those with an
/// escape byte, no high byte and no escape sequence that it recognises.
pub open spec fn classifier_accepts(data: Seq<u8>) -> bool {
    input_kind(data) != InputKind::Escaped || recognises_escapes(data)
}

/// The buffers on which the classifier is asked: the non-empty ones that it
/// accepts.
pub open spec fn is_classifiable(data: Seq<u8>) -> bool {
    data.len() > 0 && classifier_accepts(data)
}

/// Calls `chardet::detect` on `data`.
///
/// Trusted: the answer depends on the bytes of `data` alone, so it is
/// `classifier_verdict(data@)`, with the confidence handed on as its bit
/// pattern. On a buffer without a high byte and without an escape byte the
/// answer is `ascii`, confidence 1.0, no language; of other buffers nothing
/// is claimed of what the answer is.
///
/// Left out are the buffers on which `chardet` stops at an `unreachable!`:
/// those with an escape byte and no high byte on which none of its escape
/// machines matches. Only those machines give the label of an escape
/// encoding, so where the detector still reports one after a further chunk,
/// a machine had matched on `data` itself.
#[verifier::external_body]
pub(crate) fn classify(data: &[u8]) -> (res: (String, u32, String))
    requires
        classifier_accepts(data@),
    ensures
        (res.0@, res.1, res.2@) == classifier_verdict(data@),
        input_kind(data@) == InputKind::Plain ==> res.0@ == "ascii"@ && res.1
            == FULL_CONFIDENCE_BITS && res.2@.len() == 0,
{
    let (charset, confidence, language) = chardet::detect(data);
    (charset, confidence.to_bits(), language)
}

/// Feeds a new `chardet::UniversalDetector` the chunk `first`, then the chunk
/// `second`, and calls `close`.
///
/// Trusted: the answer depends on the two chunks alone, so it is
/// `detector_verdict(first@, second@)`. Nothing is claimed of what it is. The
/// second chunk is one high byte and the first holds none: the detector then
/// either has its answer after the first chunk, or ends in its high-byte
/// state, and `close` returns in both cases.
#[verifier::external_body]
pub(crate) fn classify_chunks(first: &[u8], second: &[u8]) -> (res: (String, u32, String))
    requires
        !has_high_byte(first@),
        second@.len() == 1,
        is_high_byte(second@[0]),
    ensures
        (res.0@, res.1, res.2@) == detector_verdict(first@, second@),
{
    let mut detector = chardet::UniversalDetector::new();
    detector.feed(first);
    detector.feed(second);
    let (charset, confidence, language) = detector.close();
    (charset, confidence.to_bits(), language)
}

/// Decides [`is_escape_charset`].
pub fn is_escape_label(label: &str) -> (res: bool)
    ensures
        res == is_escape_charset(label@),
{
    let label = label.to_owned();
    label == "HZ-GB-2312".to_owned() || label == "ISO-2022-CN".to_owned() || label
        == "ISO-2022-JP".to_owned() || label == "ISO-2022-KR".to_owned()
}

/// Whether `b` is a high byte.
fn high_byte(b: u8) -> (res: bool)
    ensures
        res == is_high_byte(b),
{
    b >= 0x80 && b != NO_BREAK_SPACE
}

/// Decides [`input_kind`] in one pass over `data`.
pub fn scan_input(data: &[u8]) -> (res: InputKind)
    ensures
        res == input_kind(data@),
{
    if data.len() == 0 {
        return InputKind::Empty;
    }
    let mut seen_escape = false;
    let mut i: usize = 0;
    while i < data.len()
        invariant
            i <= data.len(),
            forall|j: int| 0 <= j < i ==> !is_high_byte(#[trigger] data@[j]),
            seen_escape == (exists|j: int| 0 <= j < i && #[trigger] data@[j] == ESCAPE_BYTE),
        decreases data.len() - i,
    {
        let b = data[i];
        if high_byte(b) {
            return InputKind::HighByte;
        }
        if b == ESCAPE_BYTE {
            seen_escape = true;
        }
        i += 1;
    }
    if seen_escape {
        InputKind::Escaped
    } else {
        InputKind::Plain
    }
}

/// Decides [`recognises_escapes`] on a buffer without a high byte.
pub fn escapes_recognised(data: &[u8]) -> (res: bool)
    requires
        !has_high_byte(data@),
    ensures
        res == recognises_escapes(data@),
{
    let closing: [u8; 1] = [CLOSING_BYTE];
    assert(closing@ =~= closing_chunk());
    let trial = classify_chunks(data, closing.as_slice());
    is_escape_label(trial.0.as_str())
}

/// Decides [`is_classifiable`]: whether the classifier is asked about `data`.
pub fn classifiable(data: &[u8]) -> (res: bool)
    ensures
        res == is_classifiable(data@),
{
    match scan_input(data) {
        InputKind::Plain | InputKind::HighByte => true,
        InputKind::Escaped => escapes_recognised(data),
        InputKind::Empty => false,
    }
}

/// The classifier's answer on `data`, where it is asked: label, confidence
/// bits and language.
pub fn classified(data: &[u8]) -> (res: Option<(String, u32, String)>)
    ensures
        res is Some <==> is_classifiable(data@),
        res matches Some(v) ==> (v.0@, v.1, v.2@) == classifier_verdict(data@),
        res matches Some(v) ==> (input_kind(data@) == InputKind::Plain ==> v.0@ == "ascii"@ && v.1
            == FULL_CONFIDENCE_BITS && v.2@.len() == 0),
{
    if classifiable(data) {
        Some(classify(data))
    } else {
        None
    }
}

} // verus!
