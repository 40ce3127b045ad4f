//! Everything there is to say about one buffer: the detection, a short
//! sample of the text where the buffer is text, and the GBK test.

use crate::detect::{detect_encoding_detailed, detection, EncodingResult, EncodingResultView};
use crate::gbk::{is_likely_gbk, likely_gbk};
use vstd::prelude::*;
use vstd::string::StrSliceExecFns;
use vstd::string::StringSliceAdditionalSpecFns;
use vstd::utf8::{decode_utf8, encode_utf8_decode_utf8, valid_utf8};

verus! {

/// The longest sample, in characters.
pub const SAMPLE_CHARS: usize = 50;

/// A character with the Unicode property White_Space.
pub open spec fn is_white_space(c: char) -> bool {
    let u = c as u32;
    ||| 0x0009 <= u <= 0x000D
    ||| u == 0x0020
    ||| u == 0x0085
    ||| u == 0x00A0
    ||| u == 0x1680
    ||| 0x2000 <= u <= 0x200A
    ||| u == 0x2028
    ||| u == 0x2029
    ||| u == 0x202F
    ||| u == 0x205F
    ||| u == 0x3000
}

/// Text that holds nothing but white space, the empty text included.
pub open spec fn is_blank(text: Seq<char>) -> bool {
    forall|i: int| 0 <= i < text.len() ==> is_white_space(#[trigger] text[i])
}

/// `inner` is `text` from `from` up to `to`, with nothing but white space
/// before and after, and with no white space at either end.
pub open spec fn trims_to(text: Seq<char>, inner: Seq<char>, from: int, to: int) -> bool {
    &&& 0 <= from <= to <= text.len()
    &&& inner == text.subrange(from, to)
    &&& is_blank(text.subrange(0, from))
    &&& is_blank(text.subrange(to, text.len() as int))
    &&& from < to ==> !is_white_space(text[from]) && !is_white_space(text[to - 1])
}

/// `inner` is `text` without its leading and trailing white space.
pub open spec fn is_trim_of(inner: Seq<char>, text: Seq<char>) -> bool {
    exists|from: int, to: int| #[trigger] trims_to(text, inner, from, to)
}

/// `str::trim` returns the text without its leading and trailing white
/// space, where white space is what has the Unicode property White_Space.
pub assume_specification[ str::trim ](s: &str) -> (res: &str)
    ensures
        is_trim_of(res@, s@),
;

/// What is left of a text after trimming is empty exactly where the text is
/// blank.
pub proof fn lemma_trim_empty_iff_blank(inner: Seq<char>, text: Seq<char>)
    requires
        is_trim_of(inner, text),
    ensures
        inner.len() == 0 <==> is_blank(text),
{
    let (from, to) = choose|from: int, to: int| #[trigger] trims_to(text, inner, from, to);
    let head = text.subrange(0, from);
    let tail = text.subrange(to, text.len() as int);
    if from < to {
        assert(!is_white_space(text[from]));
    } else {
        assert forall|i: int| 0 <= i < text.len() implies is_white_space(#[trigger] text[i]) by {
            if i < from {
                assert(head[i] == text[i]);
            } else {
                assert(tail[i - to] == text[i]);
            }
        }
    }
}

/// The first [`SAMPLE_CHARS`] characters of `text`, or all of it where it is
/// shorter.
pub open spec fn leading_chars(text: Seq<char>) -> Seq<char> {
    if text.len() <= SAMPLE_CHARS {
        text
    } else {
        text.subrange(0, SAMPLE_CHARS as int)
    }
}

/// The sample of a text: none where the text is blank, else its leading
/// characters, white space and all.
pub open spec fn sample_of_text(text: Seq<char>) -> Option<Seq<char>> {
    if is_blank(text) {
        None
    } else {
        Some(leading_chars(text))
    }
}

/// The sample of a buffer: that of the text it encodes, and none where it is
/// not well-formed UTF-8.
pub open spec fn sample_of(data: Seq<u8>) -> Option<Seq<char>> {
    if valid_utf8(data) {
        sample_of_text(decode_utf8(data))
    } else {
        None
    }
}

/// A text with a character that is not white space has a sample: its
/// leading characters.
pub proof fn law_text_with_ink_has_sample(text: Seq<char>, i: int)
    requires
        0 <= i < text.len(),
        !is_white_space(text[i]),
    ensures
        sample_of_text(text) == Some(leading_chars(text)),
{
}

/// The characters of an optional string.
pub open spec fn text_of(sample: Option<String>) -> Option<Seq<char>> {
    match sample {
        Some(s) => Some(s@),
        None => None,
    }
}

/// The sample of `text`.
pub fn sample_text(text: &str) -> (res: Option<String>)
    ensures
        text_of(res) == sample_of_text(text@),
{
    let inner = text.trim();
    proof {
        lemma_trim_empty_iff_blank(inner@, text@);
    }
    if inner.is_empty() {
        return None;
    }
    let len = text.unicode_len();
    if len <= SAMPLE_CHARS {
        Some(text.to_owned())
    } else {
        Some(text.substring_char(0, SAMPLE_CHARS).to_owned())
    }
}

/// The sample of `data`.
pub fn sample(data: &[u8]) -> (res: Option<String>)
    ensures
        text_of(res) == sample_of(data@),
{
    match core::str::from_utf8(data) {
        Ok(text) => {
            proof {
                encode_utf8_decode_utf8(text@);
            }
            sample_text(text)
        },
        Err(_) => None,
    }
}

/// What was found in one buffer.
pub struct Findings {
    /// The detection.
    pub result: EncodingResult,
    /// A sample of the text, where the buffer is text and not blank.
    pub sample: Option<String>,
    /// Whether the buffer's byte pairs look like GBK.
    pub likely_gbk: bool,
}

/// The mathematical value of [`Findings`].
pub struct FindingsView {
    pub result: EncodingResultView,
    pub sample: Option<Seq<char>>,
    pub likely_gbk: bool,
}

impl View for Findings {
    type V = FindingsView;

    open spec fn view(&self) -> FindingsView {
        FindingsView {
            result: self.result@,
            sample: text_of(self.sample),
            likely_gbk: self.likely_gbk,
        }
    }
}

/// What is found in `data`: nothing in an empty buffer; else the detection,
/// the sample and the GBK test, each on the whole buffer.
pub open spec fn findings(data: Seq<u8>) -> Option<FindingsView> {
    if data.len() == 0 {
        None
    } else {
        Some(
            FindingsView {
                result: detection(data),
                sample: sample_of(data),
                likely_gbk: likely_gbk(data),
            },
        )
    }
}

/// The view of optional findings.
pub open spec fn findings_of(found: Option<Findings>) -> Option<FindingsView> {
    match found {
        Some(f) => Some(f@),
        None => None,
    }
}

/// Examines `data`. An empty buffer holds no data and gives `None`.
pub fn examine(data: &[u8]) -> (res: Option<Findings>)
    ensures
        findings_of(res) == findings(data@),
        res is None <==> data@.len() == 0,
{
    if data.len() == 0 {
        return None;
    }
    let result = detect_encoding_detailed(data);
    let sample = if result.is_valid_utf8 {
        sample(data)
    } else {
        None
    };
    let likely_gbk = is_likely_gbk(data);
    Some(Findings { result, sample, likely_gbk })
}

} // verus!
