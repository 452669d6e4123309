use vstd::prelude::*;

verus! {

/// The embedding models that the service can run.
#[derive(Clone, Copy, Debug, PartialEq, Eq, Structural)]
pub enum EmbeddingModel {
    E5MultilangualSmall,
    E5MultilangualBase,
    E5MultilangualLarge,
    BGESmall,
    BGEBase,
    BGELarge,
}

impl EmbeddingModel {
    /// The identifier by which the service knows the model.
    pub open spec fn spec_wire_name(&self) -> Seq<char> {
        match self {
            EmbeddingModel::E5MultilangualSmall => "E5MultilangualSmall"@,
            EmbeddingModel::E5MultilangualBase => "E5MultilangualBase"@,
            EmbeddingModel::E5MultilangualLarge => "E5MultilangualLarge"@,
            EmbeddingModel::BGESmall => "BGESmall"@,
            EmbeddingModel::BGEBase => "BGEBase"@,
            EmbeddingModel::BGELarge => "BGELarge"@,
        }
    }

    /// The identifier by which the service knows the model.
    pub fn wire_name(&self) -> (name: &'static str)
        ensures
            name@ == self.spec_wire_name(),
    {
        match self {
            EmbeddingModel::E5MultilangualSmall => "E5MultilangualSmall",
            EmbeddingModel::E5MultilangualBase => "E5MultilangualBase",
            EmbeddingModel::E5MultilangualLarge => "E5MultilangualLarge",
            EmbeddingModel::BGESmall => "BGESmall",
            EmbeddingModel::BGEBase => "BGEBase",
            EmbeddingModel::BGELarge => "BGELarge",
        }
    }
}

} // verus!
