//! The model catalog's view of a loaded model: the configuration that names a
//! model in the catalog, and the pair of local file paths that loading it
//! yields. Fetching the files themselves is an external collaborator's job;
//! this module owns the data the rest of the core reads.
use vstd::prelude::*;

verus! {

/// One catalog entry: which repository to load a model from, an optional
/// revision, and the file names of the model weights and the tokenizer.
pub struct ModelConfig {
    pub repository: String,
    pub revision: Option<String>,
    pub model: String,
    pub tokenizer: String,
}

/// A loaded model: the local paths of its weight file and tokenizer file.
pub struct Model {
    model_path: String,
    tokenizer_path: String,
}

impl Model {
    pub closed spec fn spec_model_path(&self) -> Seq<char> {
        self.model_path@
    }

    pub closed spec fn spec_tokenizer_path(&self) -> Seq<char> {
        self.tokenizer_path@
    }

    /// Packs the two resolved paths of a loaded model.
    pub fn new(model_path: String, tokenizer_path: String) -> (r: Model)
        ensures
            r.spec_model_path() == model_path@,
            r.spec_tokenizer_path() == tokenizer_path@,
    {
        Model { model_path, tokenizer_path }
    }

    /// The path of the model weight file.
    pub fn model_path(&self) -> (r: &String)
        ensures
            r@ == self.spec_model_path(),
    {
        &self.model_path
    }

    /// The path of the tokenizer file.
    pub fn tokenizer_path(&self) -> (r: &String)
        ensures
            r@ == self.spec_tokenizer_path(),
    {
        &self.tokenizer_path
    }

    /// Consumes the model, returning the two paths as a tuple.
    pub fn into_inner(self) -> (r: (String, String))
        ensures
            r.0@ == self.spec_model_path(),
            r.1@ == self.spec_tokenizer_path(),
    {
        (self.model_path, self.tokenizer_path)
    }
}

} // verus!
