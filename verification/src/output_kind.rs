use crate::text::{contains_nul, has_nul, CText};
use vstd::pervasive::unreached;
use vstd::prelude::*;
use vstd::string::StringExecFns;

verus! {

/// Where the engine delivers the audio it synthesizes.
#[derive(Clone, Copy, Debug)]
pub enum FliteOutputKind<'a> {
    /// Play on the default audio device.
    Play,
    /// Write to the file at this path; the engine picks the format.
    File(&'a str),
    /// Synthesize, but deliver nothing.
    Discard,
}

impl<'a> FliteOutputKind<'a> {
    /// The token that the engine's output parameter expects for this sink.
    pub open spec fn token(self) -> Seq<char> {
        match self {
            FliteOutputKind::Play => "play"@,
            FliteOutputKind::File(path) => path@,
            FliteOutputKind::Discard => "none"@,
        }
    }

    /// Resolves the sink to the engine's token: `play`, `none`, or the path as
    /// it was given, character for character.
    pub fn resolve(&self) -> (token: String)
        ensures
            token@ == self.token(),
    {
        match self {
            FliteOutputKind::Play => String::from_str("play"),
            FliteOutputKind::File(path) => String::from_str(path),
            FliteOutputKind::Discard => String::from_str("none"),
        }
    }

    /// Tells whether the engine can be told of this sink: whether the token
    /// holds no NUL. The tokens of playback and of discarding never do.
    pub fn is_deliverable(&self) -> (deliverable: bool)
        ensures
            deliverable == !has_nul(self.token()),
            !(self is File) ==> deliverable,
    {
        match self {
            FliteOutputKind::Play => {
                proof {
                    lemma_fixed_tokens();
                }
                true
            },
            FliteOutputKind::File(path) => !contains_nul(path),
            FliteOutputKind::Discard => {
                proof {
                    lemma_fixed_tokens();
                }
                true
            },
        }
    }

    /// The token as the engine takes it. A path with a NUL in it names no
    /// file that the engine could be told of.
    pub fn to_c_string(&self) -> (token: CText)
        requires
            !has_nul(self.token()),
        ensures
            token@ == self.token(),
    {
        match CText::new(self.resolve()) {
            Ok(token) => token,
            Err(_) => unreached(),
        }
    }
}

/// The tokens of playback and of discarding hold no NUL.
pub proof fn lemma_fixed_tokens()
    ensures
        !has_nul(FliteOutputKind::Play.token()),
        !has_nul(FliteOutputKind::Discard.token()),
{
    reveal_strlit("play");
    reveal_strlit("none");
    if has_nul("play"@) {
        let i = choose|i: int| 0 <= i < "play"@.len() && "play"@[i] == '\0';
        assert("play"@[i] != '\0');
    }
    if has_nul("none"@) {
        let i = choose|i: int| 0 <= i < "none"@.len() && "none"@[i] == '\0';
        assert("none"@[i] != '\0');
    }
}

} // verus!
