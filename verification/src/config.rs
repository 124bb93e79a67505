//! The configuration of a run, as the program that loads it hands it over.

use std::time::Duration;
use vstd::prelude::*;

verus! {

/// Where the service is and how this application identifies itself to it.
#[derive(Debug, PartialEq, Eq)]
pub struct ApiConfig {
    pub url: String,
    pub key: String,
    pub secret: String,
}

/// One track of the playlist.
#[derive(Debug, PartialEq, Eq)]
pub struct SongConfig {
    pub artist: String,
    pub title: String,
}

/// What to scrobble and how long to pause between two submissions.
#[derive(Debug, PartialEq, Eq)]
pub struct ScrobblerConfig {
    pub cooldown: Duration,
    pub songs: Vec<SongConfig>,
}

/// The whole configuration.
#[derive(Debug, PartialEq, Eq)]
pub struct Config {
    pub api: ApiConfig,
    pub scrobbler: ScrobblerConfig,
}

impl View for SongConfig {
    type V = (Seq<char>, Seq<char>);

    open spec fn view(&self) -> (Seq<char>, Seq<char>) {
        (self.artist@, self.title@)
    }
}

impl DeepView for SongConfig {
    type V = (Seq<char>, Seq<char>);

    open spec fn deep_view(&self) -> (Seq<char>, Seq<char>) {
        (self.artist@, self.title@)
    }
}

impl Clone for SongConfig {
    fn clone(&self) -> (copy: Self)
        ensures
            copy == *self,
    {
        SongConfig { artist: self.artist.clone(), title: self.title.clone() }
    }
}

} // verus!
