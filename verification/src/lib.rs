//! Classifies text by its Persian-script content.
//!
//! Three questions can be asked of a text: whether it holds any character of the
//! Persian/Arabic Unicode block, whether it reads as Persian, and what share of its
//! alphabetic characters lies in that block.

pub mod content;
pub mod laws;
pub mod matcher;
pub mod pattern;
pub mod script;

pub use content::PersianContent;
pub use matcher::{PersianCharMatcher, PersianStrMatcher};
