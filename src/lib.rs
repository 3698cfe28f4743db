//! Reshapes Arabic-script text into presentation-form glyphs, for renderers
//! that do not shape text themselves.
use vstd::prelude::*;

pub mod config;
pub mod font;
pub mod form;
pub mod laws;
pub mod letters;
pub mod ligatures;
pub mod reshaper;
pub mod shaping;

pub use config::{Language, ReshaperConfig};
pub use reshaper::ArabicReshaper;

verus! {

/// Reshape `text` with the default configuration. To reshape many lines,
/// build one `ArabicReshaper` and use it for all of them.
pub fn reshape_line(text: &str) -> (r: String)
    ensures
        exists|cfg: ReshaperConfig| config::default_config(cfg) && r@ == shaping::reshape_spec(cfg, text@),
{
    let reshaper = ArabicReshaper::default();
    reshaper.reshape(text)
}

} // verus!
