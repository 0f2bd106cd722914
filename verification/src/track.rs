//! Audio track metadata: a named track with a fresh random identifier
//! and an optional backing file path.

use vstd::prelude::*;

verus! {

/// Relies on `nanoid::format` with the crate's URL-safe 64-character
/// alphabet, the default identifier length of 21, and its default OS
/// random source: the returned identifier is exactly 21 characters
/// long. Which characters come back depends on the random source, so
/// nothing more is stated.
#[verifier::external_body]
fn fresh_track_id() -> (r: String)
    ensures
        r@.len() == 21,
{
    nanoid::format(nanoid::rngs::default, &nanoid::alphabet::SAFE, 21)
}

/// One track: a fresh identifier, a display name, and the path of the
/// file backing it, if any.
pub struct AudioTrack {
    id: String,
    name: String,
    file_path: Option<String>,
}

impl AudioTrack {
    /// The track's identifier.
    pub closed spec fn spec_id(self) -> Seq<char> {
        self.id@
    }

    /// The track's display name.
    pub closed spec fn spec_name(self) -> Seq<char> {
        self.name@
    }

    /// The path of the backing file, if any.
    pub closed spec fn spec_file_path(self) -> Option<Seq<char>> {
        match self.file_path {
            Some(p) => Some(p@),
            None => None,
        }
    }

    /// A track with the given name and optional backing path and a
    /// fresh 21-character identifier.
    pub fn new(name: String, file_path: Option<String>) -> (r: AudioTrack)
        ensures
            r.spec_name() == name@,
            r.spec_file_path() == match file_path {
                Some(p) => Some(p@),
                None => None::<Seq<char>>,
            },
            r.spec_id().len() == 21,
    {
        AudioTrack { id: fresh_track_id(), name, file_path }
    }

    /// The track's identifier.
    pub fn id(&self) -> (r: &String)
        ensures
            r@ == self.spec_id(),
    {
        &self.id
    }

    /// The track's display name.
    pub fn name(&self) -> (r: &String)
        ensures
            r@ == self.spec_name(),
    {
        &self.name
    }

    /// The path of the backing file, if any.
    pub fn file_path(&self) -> (r: &Option<String>)
        ensures
            r is Some <==> self.spec_file_path() is Some,
            r is Some ==> r->0@ == self.spec_file_path()->0,
    {
        &self.file_path
    }
}

impl Default for AudioTrack {
    /// An unnamed track: the default display name, no backing file,
    /// and a fresh identifier.
    fn default() -> (r: AudioTrack)
        ensures
            r.spec_name() == "Audio Track"@,
            r.spec_file_path() is None,
            r.spec_id().len() == 21,
    {
        AudioTrack {
            id: fresh_track_id(),
            name: "Audio Track".to_string(),
            file_path: None,
        }
    }
}

} // verus!
