//! A one-page Markdown renderer for a book's table of contents.
//!
//! The library walks an ordered sequence of document-tree nodes once,
//! classifies each chapter against the classification of the node before it,
//! and emits Markdown lines: indented list items for numbered chapters,
//! verbatim content for front- and back-matter, horizontal rules and part
//! headings, with a blank line separating a numbered run from what follows.

pub mod laws;
pub mod model;
pub mod render;

pub use model::Class;
pub use model::ChapterNode;
pub use model::ChapterView;
pub use model::Node;
pub use model::NodeView;
pub use model::classify;
pub use render::chapter_step;
pub use render::join_path;
pub use render::render;
pub use render::step;
