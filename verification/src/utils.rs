//! Leaf utilities: password handling, Markdown rendering and slugs.

pub mod markdown;
pub mod password;
pub mod slug;

pub use markdown::markdown_to_html_safe;
pub use password::{hash_password, validate_password_strength, verify_password};
