//! The document's engine boundary and the text it shows for a screenshot.

use vstd::prelude::*;

verus! {

/// Runs a script in a new thread of the engine's script context, which does
/// nothing without an engine.
pub fn rbx_execute_in_new_thread(source: &str) {
}

/// The text posted with a screenshot: the data model's text when there is a
/// data model and its text is not empty, otherwise the empty text.
pub fn seo_text(data_model_seo: Option<String>) -> (r: String)
    ensures
        r@ == (match data_model_seo {
            Some(s) => s@,
            None => Seq::<char>::empty(),
        }),
{
    match data_model_seo {
        Some(s) => {
            if s.unicode_len() > 0 {
                s
            } else {
                String::new()
            }
        },
        None => String::new(),
    }
}

} // verus!
