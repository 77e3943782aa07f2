//! Which files of a directory are tracks.

use crate::text::{chars_of, ends_with, extension, has_extension, texts};
use vstd::prelude::*;

verus! {

/// Why no list of tracks can be made.
#[derive(Clone, Copy, Debug, PartialEq, Eq, Structural)]
pub enum LoadError {
    /// None of the files is a track.
    NotFound,
}

impl LoadError {
    /// The error in words.
    pub fn message(&self) -> (text: &'static str)
        ensures
            text@ == "no music files found!"@,
    {
        "no music files found!"
    }
}

/// Whether the file called `name` is a track: its name ends with the extension, and
/// there is a name before it.
pub open spec fn is_track(name: Seq<char>) -> bool {
    name.len() > 4 && ends_with(name, extension())
}

/// The tracks among the files `names`, in the order of `names`.
pub open spec fn tracks_of(names: Seq<Seq<char>>) -> Seq<Seq<char>>
    decreases names.len(),
{
    if names.len() == 0 {
        Seq::empty()
    } else if is_track(names.last()) {
        tracks_of(names.drop_last()).push(names.last())
    } else {
        tracks_of(names.drop_last())
    }
}

/// Whether the file called `name` is a track.
pub fn is_music_file(name: &str) -> (yes: bool)
    ensures
        yes == is_track(name@),
{
    let v = chars_of(name);
    v.len() > 4 && has_extension(&v)
}

/// Makes the list of tracks from the names of the files of a directory: the tracks
/// among them, in the order in which they were given. With no track among them there
/// is no list.
pub fn create_music_list(entries: Vec<String>) -> (made: Result<Vec<String>, LoadError>)
    ensures
        match made {
            Ok(list) => texts(list@) == tracks_of(texts(entries@)) && list@.len() > 0,
            Err(e) => e == LoadError::NotFound && tracks_of(texts(entries@)).len() == 0,
        },
{
    let ghost names = texts(entries@);
    let mut list: Vec<String> = Vec::new();
    let mut i: usize = 0;
    assert(texts(list@) =~= tracks_of(names.take(0)));
    while i < entries.len()
        invariant
            i <= entries.len(),
            names == texts(entries@),
            texts(list@) == tracks_of(names.take(i as int)),
        decreases entries.len() - i,
    {
        proof {
            assert(names.take(i + 1).drop_last() =~= names.take(i as int));
            assert(names.take(i + 1).last() == names[i as int]);
        }
        if is_music_file(entries[i].as_str()) {
            let ghost before = texts(list@);
            list.push(entries[i].clone());
            assert(texts(list@) =~= before.push(names[i as int]));
        }
        i += 1;
    }
    assert(names.take(entries.len() as int) =~= names);
    if list.len() == 0 {
        return Err(LoadError::NotFound);
    }
    Ok(list)
}

} // verus!
