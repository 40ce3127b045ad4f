//! The detection record and the functions that fill it.

use crate::classifier::{
    classified, classifier_verdict, input_kind, is_classifiable, InputKind, FULL_CONFIDENCE_BITS,
};
use crate::gbk::likely_gbk;
use crate::utf8::is_utf8;
use vstd::prelude::*;
use vstd::utf8::valid_utf8;

verus! {

/// Bit pattern of single-precision positive infinity. Patterns above it are
/// not-a-number or carry the sign bit.
pub const INFINITY_BITS: u32 = 0x7F80_0000;

/// What a detection found.
///
/// The confidence is held as the bit pattern of a single-precision number:
/// `confidence_bits` is what `to_bits` returns for it, and `from_bits` gives
/// the number back. On the patterns from zero to [`FULL_CONFIDENCE_BITS`] the
/// order of the patterns is the order of the numbers, from 0.0 to 1.0.
#[derive(Debug, Clone)]
pub struct EncodingResult {
    /// Label of the detected encoding; never empty.
    pub charset: String,
    /// Confidence between 0.0 and 1.0, as a bit pattern.
    pub confidence_bits: u32,
    /// Best guess of the text's language; empty when there is none.
    pub language: String,
    /// Whether the buffer is well-formed UTF-8, decided exactly.
    pub is_valid_utf8: bool,
}

/// The mathematical value of an [`EncodingResult`].
pub struct EncodingResultView {
    pub charset: Seq<char>,
    pub confidence_bits: u32,
    pub language: Seq<char>,
    pub is_valid_utf8: bool,
}

impl View for EncodingResult {
    type V = EncodingResultView;

    open spec fn view(&self) -> EncodingResultView {
        EncodingResultView {
            charset: self.charset@,
            confidence_bits: self.confidence_bits,
            language: self.language@,
            is_valid_utf8: self.is_valid_utf8,
        }
    }
}

impl EncodingResultView {
    /// The charset is named and the confidence lies between 0.0 and 1.0.
    pub open spec fn well_formed(self) -> bool {
        self.charset.len() > 0 && self.confidence_bits <= FULL_CONFIDENCE_BITS
    }
}

/// The label given where the classifier names no charset.
pub open spec fn fallback_charset() -> Seq<char> {
    "unknown"@
}

/// The charset label of a result: the classifier's, or the fallback where
/// the classifier's is empty.
pub open spec fn settled_charset(charset: Seq<char>) -> Seq<char> {
    if charset.len() == 0 {
        fallback_charset()
    } else {
        charset
    }
}

/// The confidence of a result, as a bit pattern: the classifier's where it
/// lies between 0.0 and 1.0; 1.0 where it is larger; 0.0 where it is negative
/// or not a number.
pub open spec fn settled_confidence(bits: u32) -> u32 {
    if bits <= FULL_CONFIDENCE_BITS {
        bits
    } else if bits <= INFINITY_BITS {
        FULL_CONFIDENCE_BITS
    } else {
        0
    }
}

/// The result for a classifier's answer and a validity flag.
pub open spec fn assembled(
    charset: Seq<char>,
    confidence_bits: u32,
    language: Seq<char>,
    is_valid_utf8: bool,
) -> EncodingResultView {
    EncodingResultView {
        charset: settled_charset(charset),
        confidence_bits: settled_confidence(confidence_bits),
        language,
        is_valid_utf8,
    }
}

/// The result where the classifier is not asked: the fallback charset, no
/// confidence, no language.
pub open spec fn fallback_result(is_valid_utf8: bool) -> EncodingResultView {
    EncodingResultView {
        charset: fallback_charset(),
        confidence_bits: 0,
        language: Seq::<char>::empty(),
        is_valid_utf8,
    }
}

/// What detection finds in `data`.
pub open spec fn detection(data: Seq<u8>) -> EncodingResultView {
    if is_classifiable(data) {
        let verdict = classifier_verdict(data);
        assembled(verdict.0, verdict.1, verdict.2, valid_utf8(data))
    } else {
        fallback_result(valid_utf8(data))
    }
}

/// The charset label that detection finds in `data`.
pub open spec fn detected_charset(data: Seq<u8>) -> Seq<char> {
    if is_classifiable(data) {
        settled_charset(classifier_verdict(data).0)
    } else {
        fallback_charset()
    }
}

/// The fallback label is not empty.
pub proof fn lemma_fallback_charset_named()
    ensures
        fallback_charset().len() > 0,
{
    reveal_strlit("unknown");
}

/// The classifier's label, or the fallback label where that is empty.
pub fn settle_charset(charset: String) -> (res: String)
    ensures
        res@ == settled_charset(charset@),
        res@.len() > 0,
{
    proof {
        lemma_fallback_charset_named();
    }
    if charset.as_str().is_empty() {
        "unknown".to_owned()
    } else {
        charset
    }
}

/// The classifier's confidence brought into the range from 0.0 to 1.0.
pub fn settle_confidence(bits: u32) -> (res: u32)
    ensures
        res == settled_confidence(bits),
        res <= FULL_CONFIDENCE_BITS,
{
    if bits <= FULL_CONFIDENCE_BITS {
        bits
    } else if bits <= INFINITY_BITS {
        FULL_CONFIDENCE_BITS
    } else {
        0
    }
}

impl EncodingResult {
    /// The result for a classifier's answer and a validity flag.
    pub fn from_verdict(
        charset: String,
        confidence_bits: u32,
        language: String,
        is_valid_utf8: bool,
    ) -> (res: EncodingResult)
        ensures
            res@ == assembled(charset@, confidence_bits, language@, is_valid_utf8),
            res@.well_formed(),
    {
        EncodingResult {
            charset: settle_charset(charset),
            confidence_bits: settle_confidence(confidence_bits),
            language,
            is_valid_utf8,
        }
    }

    /// The result where the classifier is not asked.
    pub fn fallback(is_valid_utf8: bool) -> (res: EncodingResult)
        ensures
            res@ == fallback_result(is_valid_utf8),
            res@.well_formed(),
    {
        proof {
            lemma_fallback_charset_named();
        }
        EncodingResult {
            charset: "unknown".to_owned(),
            confidence_bits: 0,
            language: String::new(),
            is_valid_utf8,
        }
    }
}

/// The result on a buffer of plain ASCII: that label, full confidence, no
/// language.
pub open spec fn ascii_result(is_valid_utf8: bool) -> EncodingResultView {
    EncodingResultView {
        charset: "ascii"@,
        confidence_bits: FULL_CONFIDENCE_BITS,
        language: Seq::<char>::empty(),
        is_valid_utf8,
    }
}

/// Detects the encoding of `data`.
///
/// The validity flag is decided exactly and on its own. Charset, confidence
/// and language are the classifier's answer on the whole buffer, settled,
/// where the classifier is asked: on a non-empty buffer that holds a high
/// byte, or no escape byte, or an escape sequence that the classifier
/// recognises. Elsewhere they are the fallback. On a buffer with neither a
/// high byte nor an escape byte the answer is known: ASCII.
pub fn detect_encoding_detailed(data: &[u8]) -> (res: EncodingResult)
    ensures
        res@ == detection(data@),
        res@.well_formed(),
        res.is_valid_utf8 == valid_utf8(data@),
        input_kind(data@) == InputKind::Plain ==> res@ == ascii_result(valid_utf8(data@)),
{
    let is_valid_utf8 = is_utf8(data);
    match classified(data) {
        Some((charset, confidence_bits, language)) => {
            proof {
                reveal_strlit("ascii");
            }
            let res = EncodingResult::from_verdict(charset, confidence_bits, language, is_valid_utf8);
            assert(input_kind(data@) == InputKind::Plain ==> res@.language =~= Seq::<char>::empty());
            res
        },
        None => EncodingResult::fallback(is_valid_utf8),
    }
}

/// Detects the encoding of `data` and returns its label alone.
pub fn detect_charset(data: &[u8]) -> (res: String)
    ensures
        res@ == detected_charset(data@),
        res@.len() > 0,
        input_kind(data@) == InputKind::Plain ==> res@ == "ascii"@,
{
    match classified(data) {
        Some((charset, _, _)) => {
            proof {
                reveal_strlit("ascii");
            }
            settle_charset(charset)
        },
        None => {
            proof {
                lemma_fallback_charset_named();
            }
            "unknown".to_owned()
        },
    }
}

/// The validity flag of a detection is exactly whether the buffer is
/// well-formed UTF-8, which is what [`is_utf8`] decides: on well-formed
/// UTF-8 both are true, on anything else both are false.
pub proof fn law_validity_flag_exact(data: Seq<u8>)
    ensures
        detection(data).is_valid_utf8 == valid_utf8(data),
        valid_utf8(data) ==> detection(data).is_valid_utf8,
{
}

/// The charset that [`detect_charset`] returns is the charset field of what
/// [`detect_encoding_detailed`] returns on the same buffer.
pub proof fn law_charset_is_projection(data: Seq<u8>)
    ensures
        detected_charset(data) == detection(data).charset,
{
}

/// Every detection names a charset and has a confidence between 0.0 and 1.0.
pub proof fn law_detection_well_formed(data: Seq<u8>)
    ensures
        detection(data).well_formed(),
{
    lemma_fallback_charset_named();
}

/// On the empty buffer detection gives the fallback result, flagged as
/// well-formed UTF-8, and the buffer is not likely GBK.
pub proof fn law_empty_buffer(data: Seq<u8>)
    requires
        data.len() == 0,
    ensures
        detection(data) == fallback_result(true),
        detected_charset(data) == fallback_charset(),
        !likely_gbk(data),
{
}

/// Results depend on the bytes alone: two buffers with the same bytes get the
/// same answer from every function of this library.
pub proof fn law_same_bytes_same_result(a: Seq<u8>, b: Seq<u8>)
    requires
        a =~= b,
    ensures
        detection(a) == detection(b),
        detected_charset(a) == detected_charset(b),
        valid_utf8(a) == valid_utf8(b),
        likely_gbk(a) == likely_gbk(b),
{
}

} // verus!
