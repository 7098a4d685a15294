use vstd::prelude::*;

verus! {

/// Why a load of an asset failed.
#[derive(Debug)]
pub enum AssetLoadError {
    /// Nothing was found at the path.
    NotFound(String),
    /// No loader is registered for the file's extension.
    MissingLoader { extension: String },
    /// The loader ran and reported an error.
    LoaderFailed { path: String, message: String },
    /// The file loaded but holds no sub-asset of the requested label.
    MissingLabel { label: String },
}

impl Clone for AssetLoadError {
    fn clone(&self) -> (r: Self)
        ensures
            r == *self,
    {
        match self {
            AssetLoadError::NotFound(p) => AssetLoadError::NotFound(p.clone()),
            AssetLoadError::MissingLoader { extension } => AssetLoadError::MissingLoader {
                extension: extension.clone(),
            },
            AssetLoadError::LoaderFailed { path, message } => AssetLoadError::LoaderFailed {
                path: path.clone(),
                message: message.clone(),
            },
            AssetLoadError::MissingLabel { label } => AssetLoadError::MissingLabel {
                label: label.clone(),
            },
        }
    }
}

impl PartialEq for AssetLoadError {
    fn eq(&self, other: &Self) -> (r: bool) {
        match (self, other) {
            (AssetLoadError::NotFound(a), AssetLoadError::NotFound(b)) => *a == *b,
            (
                AssetLoadError::MissingLoader { extension: a },
                AssetLoadError::MissingLoader { extension: b },
            ) => *a == *b,
            (
                AssetLoadError::LoaderFailed { path: p, message: m },
                AssetLoadError::LoaderFailed { path: q, message: n },
            ) => *p == *q && *m == *n,
            (
                AssetLoadError::MissingLabel { label: a },
                AssetLoadError::MissingLabel { label: b },
            ) => *a == *b,
            _ => false,
        }
    }
}

impl vstd::std_specs::cmp::PartialEqSpecImpl for AssetLoadError {
    open spec fn obeys_eq_spec() -> bool {
        true
    }

    open spec fn eq_spec(&self, other: &Self) -> bool {
        match (*self, *other) {
            (AssetLoadError::NotFound(a), AssetLoadError::NotFound(b)) => a@ == b@,
            (
                AssetLoadError::MissingLoader { extension: a },
                AssetLoadError::MissingLoader { extension: b },
            ) => a@ == b@,
            (
                AssetLoadError::LoaderFailed { path: p, message: m },
                AssetLoadError::LoaderFailed { path: q, message: n },
            ) => p@ == q@ && m@ == n@,
            (
                AssetLoadError::MissingLabel { label: a },
                AssetLoadError::MissingLabel { label: b },
            ) => a@ == b@,
            _ => false,
        }
    }
}

impl Eq for AssetLoadError {

}

} // verus!
