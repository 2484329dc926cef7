//! The model an adapter is bound to.

use vstd::prelude::*;

verus! {

/// Names the model that a backend is asked to run. An adapter is built with
/// one and never changes it.
#[derive(Debug, PartialEq, Eq)]
pub struct ModelConfig {
    pub model_name: String,
}

/// Mathematical model of a [`ModelConfig`].
pub struct ModelConfigView {
    pub model_name: Seq<char>,
}

impl View for ModelConfig {
    type V = ModelConfigView;

    open spec fn view(&self) -> ModelConfigView {
        ModelConfigView { model_name: self.model_name@ }
    }
}

impl Clone for ModelConfig {
    fn clone(&self) -> (copy: ModelConfig)
        ensures
            copy@ == self@,
    {
        ModelConfig { model_name: self.model_name.clone() }
    }
}

impl ModelConfig {
    /// A configuration for the model called `model_name`.
    pub fn new(model_name: String) -> (config: ModelConfig)
        ensures
            config@ == (ModelConfigView { model_name: model_name@ }),
    {
        ModelConfig { model_name }
    }
}

} // verus!
