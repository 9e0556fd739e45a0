//! Choices of the speech-recognition benchmark: which language each backend
//! is asked for, and how a result is shown.

use vstd::prelude::*;
use vstd::string::StrSliceExecFns;
use crate::utils::chars::str_eq;
use crate::utils::text::{trim, trim_str};

verus! {

/// The language sent to the cloud recognizer: the configured API language,
/// unless it is blank, in which case the requested one.
pub fn cloud_language(api_language: &str, lang: &str) -> (r: String)
    ensures
        r@ == (if trim(api_language@).len() == 0 { lang@ } else { api_language@ }),
{
    let t = trim_str(api_language);
    if t.unicode_len() == 0 {
        lang.to_owned()
    } else {
        api_language.to_owned()
    }
}

/// The language the local model decodes in the benchmark: the requested one
/// on a multilingual model, the model's own language otherwise.
pub fn local_language(model_language: &str, lang: &str) -> (r: String)
    ensures
        r@ == (if model_language@ == "multilingual"@ { lang@ } else { model_language@ }),
{
    if str_eq(model_language, "multilingual") {
        lang.to_owned()
    } else {
        model_language.to_owned()
    }
}

/// How a recognized text is shown: `(empty)` for an empty one.
pub fn display(text: &str) -> (r: &str)
    ensures
        r@ == (if text@.len() == 0 { "(empty)"@ } else { text@ }),
{
    if text.unicode_len() == 0 {
        "(empty)"
    } else {
        text
    }
}

} // verus!
