use spotify_player::command::{
    construct_album_actions, construct_artist_actions, construct_playlist_actions,
    construct_track_actions, AlbumAction, ArtistAction, PlaylistAction, TrackAction,
};
use spotify_player::state::{Album, Artist, LibrarySnapshot, Playlist, Track};

fn snapshot() -> LibrarySnapshot {
    LibrarySnapshot {
        saved_tracks: vec![Track { id: 1 }, Track { id: 2 }],
        saved_albums: vec![Album { id: 10 }],
        followed_artists: vec![Artist { id: 20 }],
        playlists: vec![Playlist { id: 30 }, Playlist { id: 31 }],
    }
}

#[test]
fn liked_track_gets_remove_toggle_after_base_actions() {
    let actions = construct_track_actions(&Track { id: 2 }, &snapshot());
    assert_eq!(
        actions,
        vec![
            TrackAction::GoToArtist,
            TrackAction::GoToAlbum,
            TrackAction::GoToTrackRadio,
            TrackAction::ShowActionsOnAlbum,
            TrackAction::ShowActionsOnArtist,
            TrackAction::CopyTrackLink,
            TrackAction::AddToPlaylist,
            TrackAction::AddToQueue,
            TrackAction::DeleteFromLikedTracks,
        ]
    );
}

#[test]
fn unliked_track_gets_add_toggle() {
    let actions = construct_track_actions(&Track { id: 3 }, &snapshot());
    assert_eq!(actions.len(), 9);
    assert_eq!(actions[8], TrackAction::AddToLikedTracks);
}

#[test]
fn saved_album_gets_remove_toggle() {
    let actions = construct_album_actions(&Album { id: 10 }, &snapshot());
    assert_eq!(
        actions,
        vec![
            AlbumAction::GoToArtist,
            AlbumAction::GoToAlbumRadio,
            AlbumAction::ShowActionsOnArtist,
            AlbumAction::CopyAlbumLink,
            AlbumAction::DeleteFromLibrary,
        ]
    );
}

#[test]
fn unsaved_album_gets_add_toggle() {
    let actions = construct_album_actions(&Album { id: 11 }, &snapshot());
    assert_eq!(actions[4], AlbumAction::AddToLibrary);
    assert_eq!(actions.len(), 5);
}

#[test]
fn followed_artist_gets_unfollow_toggle() {
    let actions = construct_artist_actions(&Artist { id: 20 }, &snapshot());
    assert_eq!(
        actions,
        vec![
            ArtistAction::GoToArtistRadio,
            ArtistAction::CopyArtistLink,
            ArtistAction::Unfollow,
        ]
    );
}

#[test]
fn unfollowed_artist_gets_follow_toggle() {
    let actions = construct_artist_actions(&Artist { id: 21 }, &snapshot());
    assert_eq!(
        actions,
        vec![
            ArtistAction::GoToArtistRadio,
            ArtistAction::CopyArtistLink,
            ArtistAction::Follow,
        ]
    );
}

#[test]
fn saved_playlist_gets_remove_toggle() {
    let actions = construct_playlist_actions(&Playlist { id: 31 }, &snapshot());
    assert_eq!(
        actions,
        vec![
            PlaylistAction::GoToPlaylistRadio,
            PlaylistAction::CopyPlaylistLink,
            PlaylistAction::DeleteFromLibrary,
        ]
    );
}

#[test]
fn unsaved_playlist_gets_add_toggle() {
    let actions = construct_playlist_actions(&Playlist { id: 99 }, &snapshot());
    assert_eq!(
        actions,
        vec![
            PlaylistAction::GoToPlaylistRadio,
            PlaylistAction::CopyPlaylistLink,
            PlaylistAction::AddToLibrary,
        ]
    );
}

#[test]
fn catalogs_are_deterministic_for_identical_inputs() {
    let data = snapshot();
    let track = Track { id: 1 };
    assert_eq!(
        construct_track_actions(&track, &data),
        construct_track_actions(&track, &data)
    );
    let album = Album { id: 10 };
    assert_eq!(
        construct_album_actions(&album, &data),
        construct_album_actions(&album, &data)
    );
    let artist = Artist { id: 77 };
    assert_eq!(
        construct_artist_actions(&artist, &data),
        construct_artist_actions(&artist, &data)
    );
    let playlist = Playlist { id: 30 };
    assert_eq!(
        construct_playlist_actions(&playlist, &data),
        construct_playlist_actions(&playlist, &data)
    );
}

#[test]
fn membership_is_by_identifier_only_with_empty_snapshot() {
    let empty = LibrarySnapshot {
        saved_tracks: Vec::new(),
        saved_albums: Vec::new(),
        followed_artists: Vec::new(),
        playlists: Vec::new(),
    };
    let actions = construct_track_actions(&Track { id: 1 }, &empty);
    assert_eq!(actions[8], TrackAction::AddToLikedTracks);
    assert!(!empty.is_liked_track(&Track { id: 1 }));
    assert!(!empty.has_saved_album(&Album { id: 10 }));
    assert!(!empty.follows_artist(&Artist { id: 20 }));
    assert!(!empty.has_playlist(&Playlist { id: 30 }));
}

#[test]
fn membership_queries_match_snapshot_contents() {
    let data = snapshot();
    assert!(data.is_liked_track(&Track { id: 1 }));
    assert!(!data.is_liked_track(&Track { id: 10 }));
    assert!(data.has_saved_album(&Album { id: 10 }));
    assert!(!data.has_saved_album(&Album { id: 1 }));
    assert!(data.follows_artist(&Artist { id: 20 }));
    assert!(!data.follows_artist(&Artist { id: 30 }));
    assert!(data.has_playlist(&Playlist { id: 30 }));
    assert!(!data.has_playlist(&Playlist { id: 20 }));
}
