//! Library entities and a read-only snapshot of the user's library.
//!
//! Entities are identified by a stable numeric identifier; membership in the
//! user's library is always decided by identifier equality alone, never by
//! deep value equality, so a stale cached copy of an entity is still
//! classified correctly as long as its identifier is current.

use vstd::prelude::*;

verus! {

/// A track, identified by a stable identifier.
#[derive(Debug, Clone, Copy, PartialEq, Eq)]
pub struct Track {
    pub id: u64,
}

/// An album, identified by a stable identifier.
#[derive(Debug, Clone, Copy, PartialEq, Eq)]
pub struct Album {
    pub id: u64,
}

/// An artist, identified by a stable identifier.
#[derive(Debug, Clone, Copy, PartialEq, Eq)]
pub struct Artist {
    pub id: u64,
}

/// A playlist, identified by a stable identifier.
#[derive(Debug, Clone, Copy, PartialEq, Eq)]
pub struct Playlist {
    pub id: u64,
}

/// A read-only snapshot of the user's library: the tracks the user has
/// liked, and the albums, artists and playlists currently saved or followed.
#[derive(Debug, Clone, PartialEq, Eq)]
pub struct LibrarySnapshot {
    pub saved_tracks: Vec<Track>,
    pub saved_albums: Vec<Album>,
    pub followed_artists: Vec<Artist>,
    pub playlists: Vec<Playlist>,
}

impl LibrarySnapshot {
    /// The given identifier belongs to a liked track.
    pub open spec fn spec_is_liked_track(&self, id: u64) -> bool {
        exists|i: int| 0 <= i < self.saved_tracks@.len() && self.saved_tracks@[i].id == id
    }

    /// The given identifier belongs to a saved album.
    pub open spec fn spec_has_saved_album(&self, id: u64) -> bool {
        exists|i: int| 0 <= i < self.saved_albums@.len() && self.saved_albums@[i].id == id
    }

    /// The given identifier belongs to a followed artist.
    pub open spec fn spec_follows_artist(&self, id: u64) -> bool {
        exists|i: int| 0 <= i < self.followed_artists@.len() && self.followed_artists@[i].id == id
    }

    /// The given identifier belongs to one of the user's playlists.
    pub open spec fn spec_has_playlist(&self, id: u64) -> bool {
        exists|i: int| 0 <= i < self.playlists@.len() && self.playlists@[i].id == id
    }

    /// Whether the given track is a liked track, decided by identifier only.
    pub fn is_liked_track(&self, track: &Track) -> (r: bool)
        ensures
            r == self.spec_is_liked_track(track.id),
    {
        let mut i: usize = 0;
        while i < self.saved_tracks.len()
            invariant
                0 <= i <= self.saved_tracks@.len(),
                forall|j: int| 0 <= j < i ==> self.saved_tracks@[j].id != track.id,
            decreases self.saved_tracks@.len() - i,
        {
            if self.saved_tracks[i].id == track.id {
                return true;
            }
            i += 1;
        }
        false
    }

    /// Whether the given album is saved in the library, decided by identifier only.
    pub fn has_saved_album(&self, album: &Album) -> (r: bool)
        ensures
            r == self.spec_has_saved_album(album.id),
    {
        let mut i: usize = 0;
        while i < self.saved_albums.len()
            invariant
                0 <= i <= self.saved_albums@.len(),
                forall|j: int| 0 <= j < i ==> self.saved_albums@[j].id != album.id,
            decreases self.saved_albums@.len() - i,
        {
            if self.saved_albums[i].id == album.id {
                return true;
            }
            i += 1;
        }
        false
    }

    /// Whether the given artist is followed, decided by identifier only.
    pub fn follows_artist(&self, artist: &Artist) -> (r: bool)
        ensures
            r == self.spec_follows_artist(artist.id),
    {
        let mut i: usize = 0;
        while i < self.followed_artists.len()
            invariant
                0 <= i <= self.followed_artists@.len(),
                forall|j: int| 0 <= j < i ==> self.followed_artists@[j].id != artist.id,
            decreases self.followed_artists@.len() - i,
        {
            if self.followed_artists[i].id == artist.id {
                return true;
            }
            i += 1;
        }
        false
    }

    /// Whether the given playlist is one of the user's playlists, decided by
    /// identifier only.
    pub fn has_playlist(&self, playlist: &Playlist) -> (r: bool)
        ensures
            r == self.spec_has_playlist(playlist.id),
    {
        let mut i: usize = 0;
        while i < self.playlists.len()
            invariant
                0 <= i <= self.playlists@.len(),
                forall|j: int| 0 <= j < i ==> self.playlists@[j].id != playlist.id,
            decreases self.playlists@.len() - i,
        {
            if self.playlists[i].id == playlist.id {
                return true;
            }
            i += 1;
        }
        false
    }
}

} // verus!
