use vstd::prelude::*;

verus! {

/// Where an asset was read from: a path, and the label of a sub-asset inside it if there is one.
#[derive(Debug)]
pub struct AssetPath {
    pub path: String,
    pub label: Option<String>,
}

impl AssetPath {
    /// The path of a whole file.
    pub fn new(path: String) -> (r: Self)
        ensures
            r.path == path,
            r.label is None,
    {
        AssetPath { path, label: None }
    }

    /// The path of the sub-asset `label` inside the file `path`.
    pub fn with_label(path: String, label: String) -> (r: Self)
        ensures
            r.path == path,
            r.label == Some(label),
    {
        AssetPath { path, label: Some(label) }
    }
}

impl Clone for AssetPath {
    fn clone(&self) -> (r: Self)
        ensures
            r == *self,
    {
        let label = match &self.label {
            Some(l) => Some(l.clone()),
            None => None,
        };
        AssetPath { path: self.path.clone(), label }
    }
}

impl PartialEq for AssetPath {
    fn eq(&self, other: &Self) -> (r: bool) {
        let same_label = match (&self.label, &other.label) {
            (Some(a), Some(b)) => *a == *b,
            (None, None) => true,
            _ => false,
        };
        self.path == other.path && same_label
    }
}

impl vstd::std_specs::cmp::PartialEqSpecImpl for AssetPath {
    open spec fn obeys_eq_spec() -> bool {
        true
    }

    open spec fn eq_spec(&self, other: &Self) -> bool {
        self.path@ == other.path@ && match (self.label, other.label) {
            (Some(a), Some(b)) => a@ == b@,
            (None, None) => true,
            _ => false,
        }
    }
}

impl Eq for AssetPath {

}

} // verus!
