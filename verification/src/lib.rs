//! Value grammars of the CSS text properties.
//!
//! Each value is read from a `cssparser::Parser` and written in a canonical
//! form: the parts of a value may come in any order, each at most once, and
//! are written in one fixed order, those at their default left out.

pub mod align;
pub mod ascii;
pub mod breaking;
pub mod color;
pub mod cursor;
pub mod decoration_line;
pub mod keyword;
pub mod length;
pub mod printer;
pub mod spacing;
pub mod text_decoration;
pub mod text_indent;
pub mod text_transform;
pub mod traits;
