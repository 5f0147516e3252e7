//! The model listing the server reports under its tags endpoint.

use vstd::prelude::*;

use crate::text::str_eq;

verus! {

/// Details of one installed model.
#[derive(Debug, Clone)]
pub struct ModelDetails {
    pub format: Option<String>,
    pub family: Option<String>,
    pub families: Option<Vec<String>>,
    pub parameter_size: Option<String>,
    pub quantization_level: Option<String>,
}

/// One installed model as the tags listing reports it.
#[derive(Debug, Clone)]
pub struct Model {
    pub name: String,
    pub model: String,
    pub modified_at: Option<String>,
    pub size: Option<u64>,
    pub digest: Option<String>,
    pub details: Option<ModelDetails>,
}

/// The whole tags listing.
#[derive(Debug, Clone)]
pub struct Tags {
    pub models: Vec<Model>,
}

/// The names of the installed models: the `model` field of every entry of
/// the tags listing, in listing order.
pub fn installed_models(tags: &Tags) -> (models: Vec<String>)
    ensures
        models@.len() == tags.models@.len(),
        forall|i: int| 0 <= i < models@.len() ==> models@[i]@ == tags.models@[i].model@,
{
    let mut models: Vec<String> = Vec::new();
    let n = tags.models.len();
    let mut i: usize = 0;
    while i < n
        invariant
            n == tags.models@.len(),
            i <= n,
            models@.len() == i,
            forall|j: int| 0 <= j < i ==> models@[j]@ == tags.models@[j].model@,
        decreases n - i,
    {
        models.push(tags.models[i].model.clone());
        i = i + 1;
    }
    models
}

/// The position of the selected model in the listing: the first entry
/// spelling exactly `selected`, if any.
pub fn model_index(models: &Vec<String>, selected: &str) -> (r: Option<usize>)
    ensures
        match r {
            Some(i) => {
                &&& i < models@.len()
                &&& models@[i as int]@ == selected@
                &&& forall|j: int| 0 <= j < i ==> models@[j]@ != selected@
            },
            None => forall|j: int| 0 <= j < models@.len() ==> models@[j]@ != selected@,
        },
{
    let n = models.len();
    let mut i: usize = 0;
    while i < n
        invariant
            n == models@.len(),
            i <= n,
            forall|j: int| 0 <= j < i ==> models@[j]@ != selected@,
        decreases n - i,
    {
        if str_eq(models[i].as_str(), selected) {
            return Some(i);
        }
        i = i + 1;
    }
    None
}

} // verus!
