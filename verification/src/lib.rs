//! Character encoding detection for byte buffers, with a focus on telling
//! UTF-8 from legacy Chinese encodings.
//!
//! Every function here is a pure function of the buffer it is given. The
//! contracts are stated over `Seq<u8>`: [`utf8::is_utf8`] decides
//! `vstd::utf8::valid_utf8` exactly, [`gbk::is_likely_gbk`] decides
//! [`gbk::likely_gbk`], [`detect::detect_encoding_detailed`] returns the
//! record that [`detect::detection`] describes, and [`findings::examine`]
//! gathers all of it for display.

pub mod classifier;
pub mod detect;
pub mod findings;
pub mod gbk;
pub mod utf8;

pub use crate::classifier::classifiable;
pub use crate::detect::detect_charset;
pub use crate::detect::detect_encoding_detailed;
pub use crate::detect::EncodingResult;
pub use crate::findings::examine;
pub use crate::findings::Findings;
pub use crate::gbk::is_likely_gbk;
pub use crate::utf8::is_utf8;
