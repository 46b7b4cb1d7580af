//! The client's command set and the context-menu action catalogs.
//!
//! Each entity kind (track, album, artist, playlist) has a closed set of
//! actions: a fixed base list, in display order, plus exactly one toggle
//! action appended at the end, chosen by testing the entity's identifier
//! against the user's library snapshot.

use vstd::prelude::*;

use crate::state::{Album, Artist, LibrarySnapshot, Playlist, Track};

verus! {

/// Application's command
#[derive(Debug, Clone, Copy, PartialEq, Eq, PartialOrd, Ord)]
pub enum Command {
    DoNothing,
    NextTrack,
    PreviousTrack,
    ResumePause,
    PlayRandom,
    Repeat,
    Shuffle,
    VolumeUp,
    VolumeDown,
    Mute,
    SeekForward,
    SeekBackward,
    Quit,
    OpenCommandHelp,
    ClosePopup,
    SelectNextOrScrollDown,
    SelectPreviousOrScrollUp,
    PageSelectNextOrScrollDown,
    PageSelectPreviousOrScrollUp,
    SelectFirstOrScrollToTop,
    SelectLastOrScrollToBottom,
    ChooseSelected,
    RefreshPlayback,
    RestartIntegratedClient,
    FocusNextWindow,
    FocusPreviousWindow,
    SwitchTheme,
    SwitchDevice,
    Search,
    Queue,
    ShowActionsOnSelectedItem,
    ShowActionsOnCurrentTrack,
    AddSelectedItemToQueue,
    BrowseUserPlaylists,
    BrowseUserFollowedArtists,
    BrowseUserSavedAlbums,
    CurrentlyPlayingContextPage,
    TopTrackPage,
    RecentlyPlayedTrackPage,
    LikedTrackPage,
    LyricPage,
    LibraryPage,
    SearchPage,
    BrowsePage,
    PreviousPage,
    OpenSpotifyLinkFromClipboard,
    SortTrackByTitle,
    SortTrackByArtists,
    SortTrackByAlbum,
    SortTrackByDuration,
    SortTrackByAddedDate,
    ReverseTrackOrder,
    MovePlaylistItemUp,
    MovePlaylistItemDown,
}

impl Command {
    /// The help text of each command, as a sequence of characters.
    pub open spec fn spec_desc(self) -> Seq<char> {
        match self {
            Self::DoNothing => "do nothing"@,
            Self::NextTrack => "next track"@,
            Self::PreviousTrack => "previous track"@,
            Self::ResumePause => "resume/pause based on the current playback"@,
            Self::PlayRandom => "play a random track in the current context"@,
            Self::Repeat => "cycle the repeat mode"@,
            Self::Shuffle => "toggle the shuffle mode"@,
            Self::VolumeUp => "increase playback volume by 5%"@,
            Self::VolumeDown => "decrease playback volume by 5%"@,
            Self::Mute => "toggle playback volume between 0% and previous level"@,
            Self::SeekForward => "seek forward by 5s"@,
            Self::SeekBackward => "seek backward by 5s"@,
            Self::Quit => "quit the application"@,
            Self::OpenCommandHelp => "open a command help popup"@,
            Self::ClosePopup => "close a popup"@,
            Self::RestartIntegratedClient => "restart the integrated librespot client"@,
            Self::SelectNextOrScrollDown => "select the next item in a list/table or scroll down"@,
            Self::SelectPreviousOrScrollUp => "select the previous item in a list/table or scroll up"@,
            Self::PageSelectNextOrScrollDown => "select the next page item in a list/table or scroll a page down"@,
            Self::PageSelectPreviousOrScrollUp => "select the previous page item in a list/table or scroll a page up"@,
            Self::SelectFirstOrScrollToTop => "select the first item in a list/table or scroll to the top"@,
            Self::SelectLastOrScrollToBottom => "select the last item in a list/table or scroll to the bottom"@,
            Self::ChooseSelected => "choose the selected item and act on it"@,
            Self::RefreshPlayback => "manually refresh the current playback"@,
            Self::ShowActionsOnSelectedItem => "open a popup showing actions on a selected item"@,
            Self::ShowActionsOnCurrentTrack => "open a popup showing actions on the current track"@,
            Self::AddSelectedItemToQueue => "add the selected item to queue"@,
            Self::FocusNextWindow => "focus the next focusable window (if any)"@,
            Self::FocusPreviousWindow => "focus the previous focusable window (if any)"@,
            Self::SwitchTheme => "open a popup for switching theme"@,
            Self::SwitchDevice => "open a popup for switching device"@,
            Self::Search => "open a popup for searching in the current page"@,
            Self::Queue => "open a popup for showing the current queue"@,
            Self::BrowseUserPlaylists => "open a popup for browsing user's playlists"@,
            Self::BrowseUserFollowedArtists => "open a popup for browsing user's followed artists"@,
            Self::BrowseUserSavedAlbums => "open a popup for browsing user's saved albums"@,
            Self::CurrentlyPlayingContextPage => "go to the currently playing context page"@,
            Self::TopTrackPage => "go to the user top track page"@,
            Self::RecentlyPlayedTrackPage => "go to the user recently played track page"@,
            Self::LikedTrackPage => "go to the user liked track page"@,
            Self::LyricPage => "go to the lyric page of the current track"@,
            Self::LibraryPage => "go to the user library page"@,
            Self::SearchPage => "go to the search page"@,
            Self::BrowsePage => "go to the browse page"@,
            Self::PreviousPage => "go to the previous page"@,
            Self::OpenSpotifyLinkFromClipboard => "open a Spotify link from clipboard"@,
            Self::SortTrackByTitle => "sort the track table (if any) by track's title"@,
            Self::SortTrackByArtists => "sort the track table (if any) by track's artists"@,
            Self::SortTrackByAlbum => "sort the track table (if any) by track's album"@,
            Self::SortTrackByDuration => "sort the track table (if any) by track's duration"@,
            Self::SortTrackByAddedDate => "sort the track table (if any) by track's added date"@,
            Self::ReverseTrackOrder => "reverse the order of the track table (if any)"@,
            Self::MovePlaylistItemUp => "move playlist item up one position"@,
            Self::MovePlaylistItemDown => "move playlist item down one position"@,
        }
    }

    /// A short description of the command for the command-help popup.
    pub fn desc(&self) -> (r: &'static str)
        ensures
            r@ == self.spec_desc(),
    {
        match self {
            Self::DoNothing => "do nothing",
            Self::NextTrack => "next track",
            Self::PreviousTrack => "previous track",
            Self::ResumePause => "resume/pause based on the current playback",
            Self::PlayRandom => "play a random track in the current context",
            Self::Repeat => "cycle the repeat mode",
            Self::Shuffle => "toggle the shuffle mode",
            Self::VolumeUp => "increase playback volume by 5%",
            Self::VolumeDown => "decrease playback volume by 5%",
            Self::Mute => "toggle playback volume between 0% and previous level",
            Self::SeekForward => "seek forward by 5s",
            Self::SeekBackward => "seek backward by 5s",
            Self::Quit => "quit the application",
            Self::OpenCommandHelp => "open a command help popup",
            Self::ClosePopup => "close a popup",
            Self::RestartIntegratedClient => "restart the integrated librespot client",
            Self::SelectNextOrScrollDown => "select the next item in a list/table or scroll down",
            Self::SelectPreviousOrScrollUp => "select the previous item in a list/table or scroll up",
            Self::PageSelectNextOrScrollDown => "select the next page item in a list/table or scroll a page down",
            Self::PageSelectPreviousOrScrollUp => "select the previous page item in a list/table or scroll a page up",
            Self::SelectFirstOrScrollToTop => "select the first item in a list/table or scroll to the top",
            Self::SelectLastOrScrollToBottom => "select the last item in a list/table or scroll to the bottom",
            Self::ChooseSelected => "choose the selected item and act on it",
            Self::RefreshPlayback => "manually refresh the current playback",
            Self::ShowActionsOnSelectedItem => "open a popup showing actions on a selected item",
            Self::ShowActionsOnCurrentTrack => "open a popup showing actions on the current track",
            Self::AddSelectedItemToQueue => "add the selected item to queue",
            Self::FocusNextWindow => "focus the next focusable window (if any)",
            Self::FocusPreviousWindow => "focus the previous focusable window (if any)",
            Self::SwitchTheme => "open a popup for switching theme",
            Self::SwitchDevice => "open a popup for switching device",
            Self::Search => "open a popup for searching in the current page",
            Self::Queue => "open a popup for showing the current queue",
            Self::BrowseUserPlaylists => "open a popup for browsing user's playlists",
            Self::BrowseUserFollowedArtists => "open a popup for browsing user's followed artists",
            Self::BrowseUserSavedAlbums => "open a popup for browsing user's saved albums",
            Self::CurrentlyPlayingContextPage => "go to the currently playing context page",
            Self::TopTrackPage => "go to the user top track page",
            Self::RecentlyPlayedTrackPage => "go to the user recently played track page",
            Self::LikedTrackPage => "go to the user liked track page",
            Self::LyricPage => "go to the lyric page of the current track",
            Self::LibraryPage => "go to the user library page",
            Self::SearchPage => "go to the search page",
            Self::BrowsePage => "go to the browse page",
            Self::PreviousPage => "go to the previous page",
            Self::OpenSpotifyLinkFromClipboard => "open a Spotify link from clipboard",
            Self::SortTrackByTitle => "sort the track table (if any) by track's title",
            Self::SortTrackByArtists => "sort the track table (if any) by track's artists",
            Self::SortTrackByAlbum => "sort the track table (if any) by track's album",
            Self::SortTrackByDuration => "sort the track table (if any) by track's duration",
            Self::SortTrackByAddedDate => "sort the track table (if any) by track's added date",
            Self::ReverseTrackOrder => "reverse the order of the track table (if any)",
            Self::MovePlaylistItemUp => "move playlist item up one position",
            Self::MovePlaylistItemDown => "move playlist item down one position",
        }
    }
}

/// An action offered on a track.
#[derive(Debug, Clone, Copy, PartialEq, Eq)]
pub enum TrackAction {
    GoToArtist,
    GoToAlbum,
    GoToTrackRadio,
    ShowActionsOnAlbum,
    ShowActionsOnArtist,
    AddToQueue,
    AddToPlaylist,
    DeleteFromCurrentPlaylist,
    AddToLikedTracks,
    DeleteFromLikedTracks,
    CopyTrackLink,
}

/// An action offered on an album.
#[derive(Debug, Clone, Copy, PartialEq, Eq)]
pub enum AlbumAction {
    GoToArtist,
    GoToAlbumRadio,
    ShowActionsOnArtist,
    AddToLibrary,
    DeleteFromLibrary,
    CopyAlbumLink,
}

/// An action offered on an artist.
#[derive(Debug, Clone, Copy, PartialEq, Eq)]
pub enum ArtistAction {
    GoToArtistRadio,
    Follow,
    Unfollow,
    CopyArtistLink,
}

/// An action offered on a playlist.
#[derive(Debug, Clone, Copy, PartialEq, Eq)]
pub enum PlaylistAction {
    GoToPlaylistRadio,
    AddToLibrary,
    DeleteFromLibrary,
    CopyPlaylistLink,
}

/// The fixed base actions of a track's menu, in display order.
pub open spec fn track_base_actions() -> Seq<TrackAction> {
    seq![
        TrackAction::GoToArtist,
        TrackAction::GoToAlbum,
        TrackAction::GoToTrackRadio,
        TrackAction::ShowActionsOnAlbum,
        TrackAction::ShowActionsOnArtist,
        TrackAction::CopyTrackLink,
        TrackAction::AddToPlaylist,
        TrackAction::AddToQueue,
    ]
}

/// The full track menu: the base actions and then the liked-tracks toggle,
/// keyed on the "is liked" predicate of the snapshot.
pub open spec fn track_actions_spec(track: Track, data: LibrarySnapshot) -> Seq<TrackAction> {
    track_base_actions().push(
        if data.spec_is_liked_track(track.id) {
            TrackAction::DeleteFromLikedTracks
        } else {
            TrackAction::AddToLikedTracks
        },
    )
}

/// The fixed base actions of an album's menu, in display order.
pub open spec fn album_base_actions() -> Seq<AlbumAction> {
    seq![
        AlbumAction::GoToArtist,
        AlbumAction::GoToAlbumRadio,
        AlbumAction::ShowActionsOnArtist,
        AlbumAction::CopyAlbumLink,
    ]
}

/// The full album menu: the base actions and then the library toggle, keyed
/// on saved-albums membership.
pub open spec fn album_actions_spec(album: Album, data: LibrarySnapshot) -> Seq<AlbumAction> {
    album_base_actions().push(
        if data.spec_has_saved_album(album.id) {
            AlbumAction::DeleteFromLibrary
        } else {
            AlbumAction::AddToLibrary
        },
    )
}

/// The fixed base actions of an artist's menu, in display order.
pub open spec fn artist_base_actions() -> Seq<ArtistAction> {
    seq![ArtistAction::GoToArtistRadio, ArtistAction::CopyArtistLink]
}

/// The full artist menu: the base actions and then the follow toggle, keyed
/// on followed-artists membership.
pub open spec fn artist_actions_spec(artist: Artist, data: LibrarySnapshot) -> Seq<ArtistAction> {
    artist_base_actions().push(
        if data.spec_follows_artist(artist.id) {
            ArtistAction::Unfollow
        } else {
            ArtistAction::Follow
        },
    )
}

/// The fixed base actions of a playlist's menu, in display order.
pub open spec fn playlist_base_actions() -> Seq<PlaylistAction> {
    seq![PlaylistAction::GoToPlaylistRadio, PlaylistAction::CopyPlaylistLink]
}

/// The full playlist menu: the base actions and then the library toggle,
/// keyed on user-playlists membership.
pub open spec fn playlist_actions_spec(
    playlist: Playlist,
    data: LibrarySnapshot,
) -> Seq<PlaylistAction> {
    playlist_base_actions().push(
        if data.spec_has_playlist(playlist.id) {
            PlaylistAction::DeleteFromLibrary
        } else {
            PlaylistAction::AddToLibrary
        },
    )
}

/// constructs a list of actions on a track
pub fn construct_track_actions(track: &Track, data: &LibrarySnapshot) -> (r: Vec<TrackAction>)
    ensures
        r@ == track_actions_spec(*track, *data),
{
    let mut actions: Vec<TrackAction> = Vec::new();
    actions.push(TrackAction::GoToArtist);
    actions.push(TrackAction::GoToAlbum);
    actions.push(TrackAction::GoToTrackRadio);
    actions.push(TrackAction::ShowActionsOnAlbum);
    actions.push(TrackAction::ShowActionsOnArtist);
    actions.push(TrackAction::CopyTrackLink);
    actions.push(TrackAction::AddToPlaylist);
    actions.push(TrackAction::AddToQueue);
    // check if the track is a liked track
    if data.is_liked_track(track) {
        actions.push(TrackAction::DeleteFromLikedTracks);
    } else {
        actions.push(TrackAction::AddToLikedTracks);
    }
    proof {
        assert(actions@ =~= track_actions_spec(*track, *data));
    }
    actions
}

/// constructs a list of actions on an album
pub fn construct_album_actions(album: &Album, data: &LibrarySnapshot) -> (r: Vec<AlbumAction>)
    ensures
        r@ == album_actions_spec(*album, *data),
{
    let mut actions: Vec<AlbumAction> = Vec::new();
    actions.push(AlbumAction::GoToArtist);
    actions.push(AlbumAction::GoToAlbumRadio);
    actions.push(AlbumAction::ShowActionsOnArtist);
    actions.push(AlbumAction::CopyAlbumLink);
    if data.has_saved_album(album) {
        actions.push(AlbumAction::DeleteFromLibrary);
    } else {
        actions.push(AlbumAction::AddToLibrary);
    }
    proof {
        assert(actions@ =~= album_actions_spec(*album, *data));
    }
    actions
}

/// constructs a list of actions on an artist
pub fn construct_artist_actions(artist: &Artist, data: &LibrarySnapshot) -> (r: Vec<ArtistAction>)
    ensures
        r@ == artist_actions_spec(*artist, *data),
{
    let mut actions: Vec<ArtistAction> = Vec::new();
    actions.push(ArtistAction::GoToArtistRadio);
    actions.push(ArtistAction::CopyArtistLink);
    if data.follows_artist(artist) {
        actions.push(ArtistAction::Unfollow);
    } else {
        actions.push(ArtistAction::Follow);
    }
    proof {
        assert(actions@ =~= artist_actions_spec(*artist, *data));
    }
    actions
}

/// constructs a list of actions on an playlist
pub fn construct_playlist_actions(playlist: &Playlist, data: &LibrarySnapshot) -> (r: Vec<
    PlaylistAction,
>)
    ensures
        r@ == playlist_actions_spec(*playlist, *data),
{
    let mut actions: Vec<PlaylistAction> = Vec::new();
    actions.push(PlaylistAction::GoToPlaylistRadio);
    actions.push(PlaylistAction::CopyPlaylistLink);
    if data.has_playlist(playlist) {
        actions.push(PlaylistAction::DeleteFromLibrary);
    } else {
        actions.push(PlaylistAction::AddToLibrary);
    }
    proof {
        assert(actions@ =~= playlist_actions_spec(*playlist, *data));
    }
    actions
}

/// Determinism of the track catalog: two action lists built for the same
/// track and the same snapshot are identical.
pub proof fn lemma_track_actions_deterministic(
    track: Track,
    data: LibrarySnapshot,
    first: Seq<TrackAction>,
    second: Seq<TrackAction>,
)
    requires
        first == track_actions_spec(track, data),
        second == track_actions_spec(track, data),
    ensures
        first == second,
{
}

/// Determinism of the album catalog: two action lists built for the same
/// album and the same snapshot are identical.
pub proof fn lemma_album_actions_deterministic(
    album: Album,
    data: LibrarySnapshot,
    first: Seq<AlbumAction>,
    second: Seq<AlbumAction>,
)
    requires
        first == album_actions_spec(album, data),
        second == album_actions_spec(album, data),
    ensures
        first == second,
{
}

/// Determinism of the artist catalog: two action lists built for the same
/// artist and the same snapshot are identical.
pub proof fn lemma_artist_actions_deterministic(
    artist: Artist,
    data: LibrarySnapshot,
    first: Seq<ArtistAction>,
    second: Seq<ArtistAction>,
)
    requires
        first == artist_actions_spec(artist, data),
        second == artist_actions_spec(artist, data),
    ensures
        first == second,
{
}

/// Determinism of the playlist catalog: two action lists built for the same
/// playlist and the same snapshot are identical.
pub proof fn lemma_playlist_actions_deterministic(
    playlist: Playlist,
    data: LibrarySnapshot,
    first: Seq<PlaylistAction>,
    second: Seq<PlaylistAction>,
)
    requires
        first == playlist_actions_spec(playlist, data),
        second == playlist_actions_spec(playlist, data),
    ensures
        first == second,
{
}

/// Toggle correctness of the track catalog: the menu is the base list with
/// exactly one action appended — remove-from-liked when the track's
/// identifier is liked, add-to-liked otherwise — and every base action
/// precedes it in the fixed order.
pub proof fn lemma_track_toggle_action(track: Track, data: LibrarySnapshot)
    ensures
        track_actions_spec(track, data).len() == track_base_actions().len() + 1,
        track_actions_spec(track, data).subrange(0, track_base_actions().len() as int)
            == track_base_actions(),
        track_actions_spec(track, data).last() == (if data.spec_is_liked_track(track.id) {
            TrackAction::DeleteFromLikedTracks
        } else {
            TrackAction::AddToLikedTracks
        }),
{
    assert(track_actions_spec(track, data).subrange(0, track_base_actions().len() as int)
        =~= track_base_actions());
}

} // verus!
