//! Decides whether the lines that a change touched are code, or only comments
//! and documentation, from each language's comment grammar.
pub mod changes;
pub mod classify;
pub mod pattern;
pub mod syntax;
pub mod text;

pub use changes::{any_code_changes, Changes, FileChanges};
pub use classify::{classify_line, line_is_code, ChangeError};
pub use pattern::build_patterns;
pub use syntax::LanguageSyntax;
pub use text::line_range;
