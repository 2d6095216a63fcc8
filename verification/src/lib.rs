//! Export pipeline of the PigNote note editor: Markdown rendering, image
//! inlining, page-box cropping and the bookkeeping around an external renderer.

pub mod cancel;
pub mod docx;
pub mod error;
pub mod export;
pub mod files;
pub mod images;
pub mod inline;
pub mod markdown;
pub mod page;
pub mod pdf;
pub mod session;
pub mod text;

pub use crate::error::ExportError;
pub use crate::export::ExportRequest;
pub use crate::files::{FileInfo, SaveFileRequest};
pub use crate::images::inline_or_fix_images_cancellable;
pub use crate::inline::process_inline_markdown;
pub use crate::markdown::markdown_to_html;
