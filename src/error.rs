use aseprite_loader::loader::LoadSpriteError;
use vstd::prelude::*;

verus! {

/// The animation names a tag that the sheet does not have.
#[derive(Clone, Debug, PartialEq, Eq)]
pub struct UnknownTagError {
    pub tag: String,
}

impl UnknownTagError {
    /// A message that names the missing tag.
    pub fn message(&self) -> (r: String)
        ensures
            r@ == seq!['u', 'n', 'k', 'n', 'o', 'w', 'n', ' ', 't', 'a', 'g', ' '] + self.tag@,
    {
        let prefix = String::from_str("unknown tag ");
        proof {
            reveal_strlit("unknown tag ");
        }
        prefix.concat(self.tag.as_str())
    }
}

#[verifier::external_type_specification]
#[verifier::external_body]
pub struct ExLoadSpriteError(LoadSpriteError);

/// Why a sprite sheet could not be turned into a frame table.
#[derive(Debug)]
pub enum AsepriteError {
    /// The file did not parse.
    LoadingError(LoadSpriteError),
    /// The bytes of the file could not be read.
    ReadError,
    /// The sheet has more frames than a `u16` index reaches.
    TooManyFrames,
    /// The named tag declares a direction that playback does not know.
    UnknownDirection(String),
    /// The named tag ends before it starts.
    InvalidRange(String),
}

} // verus!
