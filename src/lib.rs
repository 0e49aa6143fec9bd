//! Content negotiation and resilient rendering for a small localized site:
//! `language` resolves the language of a response, `render` holds the
//! compiled templates, and `page` builds the landing page and the error pages.
use vstd::prelude::*;

pub mod language;
pub mod render;
pub mod page;

verus! {

} // verus!
