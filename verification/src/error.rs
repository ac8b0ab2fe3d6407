//! Errors of catalog and project operations.
use vstd::prelude::*;

verus! {

/// Why a catalog or project operation failed.
#[derive(Debug, Clone)]
pub enum CatalogError {
    /// The path has neither a `.po` nor a `.pot` extension.
    UnsupportedSource(String),
    /// The text could not be parsed, or a file operation failed; the message
    /// says which.
    Parse(String),
    /// No entry has the given key.
    EntryNotFound,
    /// Saving needs a destination and the catalog has none.
    MissingPoPath,
}

/// The message an error displays.
pub open spec fn catalog_error_message(e: CatalogError) -> Seq<char> {
    match e {
        CatalogError::UnsupportedSource(p) => "unsupported catalog extension for "@ + p@,
        CatalogError::Parse(m) => "failed to parse gettext catalog: "@ + m@,
        CatalogError::EntryNotFound => "entry not found"@,
        CatalogError::MissingPoPath => "catalog requires a PO destination path before saving"@,
    }
}

impl CatalogError {
    /// The message of the error, as `Display` shows it.
    pub fn message(&self) -> (r: String)
        ensures
            r@ == catalog_error_message(*self),
    {
        match self {
            CatalogError::UnsupportedSource(p) => {
                String::from_str("unsupported catalog extension for ").concat(p.as_str())
            },
            CatalogError::Parse(m) => {
                String::from_str("failed to parse gettext catalog: ").concat(m.as_str())
            },
            CatalogError::EntryNotFound => String::from_str("entry not found"),
            CatalogError::MissingPoPath => {
                String::from_str("catalog requires a PO destination path before saving")
            },
        }
    }
}

} // verus!
