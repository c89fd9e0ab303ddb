//! What stands about the course.

use vstd::prelude::*;

verus! {

/// The kinds of cactus.
#[derive(Clone, Copy, Debug, PartialEq, Eq, Structural)]
pub enum CactusType {
    Small,
    Large,
}

impl CactusType {
    /// The name of the file that holds the model of a cactus of this kind.
    pub open spec fn file_name(self) -> Seq<char> {
        match self {
            CactusType::Small => "cactus-small.obj"@,
            CactusType::Large => "cactus-large.obj"@,
        }
    }

    /// The name of the file that holds the model of a cactus of this kind.
    pub fn model_file(&self) -> (r: &'static str)
        ensures
            r@ == self.file_name(),
    {
        match self {
            CactusType::Small => "cactus-small.obj",
            CactusType::Large => "cactus-large.obj",
        }
    }
}

} // verus!
