//! A track of the local music directory.

use vstd::prelude::*;

verus! {

/// A local track: the name of its file and its length in whole seconds.
#[derive(Debug, PartialEq, Eq)]
pub struct Song {
    pub title: String,
    pub duration: u64,
}

/// What a [`Song`] holds, as mathematical values.
pub struct SongView {
    pub title: Seq<char>,
    pub duration: nat,
}

impl View for Song {
    type V = SongView;

    open spec fn view(&self) -> SongView {
        SongView { title: self.title@, duration: self.duration as nat }
    }
}

impl DeepView for Song {
    type V = SongView;

    open spec fn deep_view(&self) -> SongView {
        self@
    }
}

impl Clone for Song {
    fn clone(&self) -> (copy: Self)
        ensures
            copy == *self,
    {
        Song { title: self.title.clone(), duration: self.duration }
    }
}

} // verus!
