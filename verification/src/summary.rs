use vstd::prelude::*;

verus! {

/// What the application keeps of one crate of the registry: the fields that
/// filtering, sorting and the detail pane read.
#[derive(Debug, Clone)]
pub struct CrateSummary {
    pub name: String,
    pub description: Option<String>,
    pub downloads: u64,
    pub max_version: String,
}

impl CrateSummary {
    /// The description as text, the empty text where the crate has none.
    pub open spec fn description_text(self) -> Seq<char> {
        match self.description {
            Some(d) => d@,
            None => Seq::empty(),
        }
    }

    /// A field-by-field copy.
    pub fn duplicate(&self) -> (r: CrateSummary)
        ensures
            r == *self,
    {
        let description = match &self.description {
            Some(d) => Some(d.clone()),
            None => None,
        };
        CrateSummary {
            name: self.name.clone(),
            description,
            downloads: self.downloads,
            max_version: self.max_version.clone(),
        }
    }

    /// The description, or the empty string where there is none.
    pub fn description_or_empty(&self) -> (r: String)
        ensures
            r@ == self.description_text(),
    {
        match &self.description {
            Some(d) => d.clone(),
            None => String::new(),
        }
    }
}

} // verus!
