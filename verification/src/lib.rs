//! Client-side logic for a translation service with two endpoints that ask
//! alike and answer differently: one request is encoded for either, and
//! either answer is read into the translated text or one classified failure.
//!
//! The library neither opens connections nor waits: `translator::prepare`
//! says what to fetch, and `translator::conclude` reads what came back.

pub mod classic;
pub mod compact;
pub mod encoder;
pub mod errors;
pub mod json;
pub mod normalizer;
pub mod options;
pub mod text;
pub mod translator;
pub mod variant;

pub use crate::encoder::{encode, Header, RequestTarget};
pub use crate::errors::TranslatorErrors;
pub use crate::normalizer::normalize;
pub use crate::options::TranslateOptions;
pub use crate::translator::{conclude, prepare, Reply};
pub use crate::variant::{Variant, API_URL};
