//! A verified document aggregate for a word-processing markup format.
//!
//! A document is an ordered sequence of top-level nodes (paragraphs, tables,
//! bookmark and comment range markers), a section configuration, and a derived
//! flag that records whether any contained paragraph or table needs numbering
//! support.  The aggregate renders to the wire markup form and to a tagged
//! structural form; both renderings carry exact contracts.

pub mod document;
pub mod elements;
pub mod numeric;
pub mod section;

pub use document::{Document, DocumentChild};
pub use elements::{
    BookmarkEnd, BookmarkStart, Comment, CommentRangeEnd, CommentRangeStart, Paragraph, Run,
    Table, Text,
};
pub use section::{DocGrid, DocGridType, PageMargin, PageSize, SectionProperty};
