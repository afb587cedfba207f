//! Lookup tables between the representations of a language identifier:
//! its three-letter code, its optional two-letter code, its English name and
//! its optional autonym.
//!
//! A [`LanguageTable`] is built once from the rows of a tab-separated dataset
//! and never changes afterwards. A [`Language`] is one variant of the
//! enumeration that the table defines; the [`IsoCompat`] operations read its
//! attributes from a table and find it again from any of them.

pub mod dataset;
pub mod entry;
pub mod error;
pub mod identifier;
pub mod index;
pub mod iso_639;
pub mod iso_compat;
pub mod laws;
pub mod localized_string;
pub mod table;
pub mod text;

pub use error::BuildError;
pub use iso_639::Iso639 as Language;
pub use iso_compat::{IsoCompat, IsoErr};
pub use localized_string::{LocalizedString, String};
pub use table::LanguageTable;
