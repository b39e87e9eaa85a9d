//! A theme store for a static-site build: resolves a named bundle of
//! asset buffers either from a theme directory layout or from a built-in
//! default bundle, and plans how that bundle is laid back out on disk.
//!
//! The store itself is pure: it computes paths, write plans and state
//! transitions over in-memory buffers. Reading and writing the actual
//! files is left to the surrounding program.

pub mod bundle;
pub mod files;
pub mod layout;
pub mod store;

pub use files::FileWrite;
pub use files::ThemeFiles;
pub use store::Theme;
pub use store::ThemeError;
