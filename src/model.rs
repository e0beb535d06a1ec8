use vstd::prelude::*;

use crate::line_input::LineInput;

verus! {

/// A key code, without modifiers.
#[derive(Clone, Copy, Debug, PartialEq, Eq, Structural)]
pub enum KeyCode {
    Char(char),
    Enter,
    Tab,
    BackTab,
    Backspace,
    Delete,
    Left,
    Right,
    Home,
    End,
    Esc,
    Other,
}

/// One key press with its modifiers.
#[derive(Clone, Copy, Debug, PartialEq, Eq, Structural)]
pub enum Key {
    Plain(KeyCode),
    Ctrl(KeyCode),
    Alt(KeyCode),
    CtrlAlt(KeyCode),
}

/// An ordered list of one or more key presses.
#[derive(Clone, Debug, PartialEq, Eq)]
pub struct KeySequence {
    pub keys: Vec<Key>,
}

/// The commands of the keymap that list popups react to; every other
/// command is `Other`.
#[derive(Clone, Copy, Debug, PartialEq, Eq, Structural)]
pub enum Command {
    SelectPreviousOrScrollUp,
    SelectNextOrScrollDown,
    ChooseSelected,
    ClosePopup,
    Other,
}

#[derive(Clone, Debug, PartialEq, Eq)]
pub struct Artist {
    pub id: String,
    pub name: String,
}

#[derive(Clone, Debug, PartialEq, Eq)]
pub struct Album {
    pub id: String,
    pub name: String,
    pub artists: Vec<Artist>,
}

#[derive(Clone, Debug, PartialEq, Eq)]
pub struct Track {
    pub id: String,
    pub name: String,
    pub album: Option<Album>,
    pub artists: Vec<Artist>,
}

#[derive(Clone, Debug, PartialEq, Eq)]
pub struct Playlist {
    pub id: String,
    pub name: String,
}

#[derive(Clone, Debug, PartialEq, Eq)]
pub struct Device {
    pub id: String,
    pub name: String,
}

#[derive(Clone, Debug, PartialEq, Eq)]
pub struct Theme {
    pub name: String,
}

#[derive(Clone, Copy, Debug, PartialEq, Eq, Structural)]
pub enum TrackAction {
    GoToAlbum,
    GoToArtist,
    AddToQueue,
    CopyTrackLink,
    AddToPlaylist,
    AddToLikedTracks,
    GoToTrackRadio,
    ShowActionsOnArtist,
    ShowActionsOnAlbum,
    DeleteFromLikedTracks,
    DeleteFromCurrentPlaylist,
}

#[derive(Clone, Copy, Debug, PartialEq, Eq, Structural)]
pub enum AlbumAction {
    GoToArtist,
    GoToAlbumRadio,
    ShowActionsOnArtist,
    CopyAlbumLink,
    AddToLibrary,
    DeleteFromLibrary,
    AddToQueue,
}

#[derive(Clone, Copy, Debug, PartialEq, Eq, Structural)]
pub enum ArtistAction {
    Follow,
    GoToArtistRadio,
    CopyArtistLink,
    Unfollow,
}

#[derive(Clone, Copy, Debug, PartialEq, Eq, Structural)]
pub enum PlaylistAction {
    AddToLibrary,
    GoToPlaylistRadio,
    CopyPlaylistLink,
    DeleteFromLibrary,
}

/// An entity together with the actions offered for it.
#[derive(Clone, Debug, PartialEq, Eq)]
pub enum ActionListItem {
    Track(Track, Vec<TrackAction>),
    Album(Album, Vec<AlbumAction>),
    Artist(Artist, Vec<ArtistAction>),
    Playlist(Playlist, Vec<PlaylistAction>),
}

impl ActionListItem {
    pub open spec fn spec_n_actions(&self) -> nat {
        match self {
            ActionListItem::Track(_, a) => a@.len(),
            ActionListItem::Album(_, a) => a@.len(),
            ActionListItem::Artist(_, a) => a@.len(),
            ActionListItem::Playlist(_, a) => a@.len(),
        }
    }

    pub fn n_actions(&self) -> (r: usize)
        ensures
            r == self.spec_n_actions(),
    {
        match self {
            ActionListItem::Track(_, a) => a.len(),
            ActionListItem::Album(_, a) => a.len(),
            ActionListItem::Artist(_, a) => a.len(),
            ActionListItem::Playlist(_, a) => a.len(),
        }
    }
}

#[derive(Clone, Copy, Debug, PartialEq, Eq, Structural)]
pub enum ArtistPopupAction {
    Browse,
    ShowActions,
}

#[derive(Clone, Debug, PartialEq, Eq)]
pub enum PlaylistPopupAction {
    Browse,
    AddTrack(String),
}

#[derive(Clone, Copy, Debug, PartialEq, Eq, Structural)]
pub enum PlaylistCreateCurrentField {
    Name,
    Desc,
}

/// The active popup. The `Option<usize>` of a list popup is its selection.
#[derive(Clone, Debug, PartialEq, Eq)]
pub enum PopupState {
    Search { query: String },
    PlaylistCreate { name: LineInput, desc: LineInput, current_field: PlaylistCreateCurrentField },
    ActionList(ActionListItem, Option<usize>),
    ArtistList(ArtistPopupAction, Vec<Artist>, Option<usize>),
    UserPlaylistList(PlaylistPopupAction, Option<usize>),
    UserFollowedArtistList(Option<usize>),
    UserSavedAlbumList(Option<usize>),
    ThemeList(Vec<Theme>, Option<usize>),
    DeviceList(Option<usize>),
}

impl PopupState {
    pub open spec fn spec_list_selected(&self) -> Option<usize> {
        match self {
            PopupState::Search { .. } => None,
            PopupState::PlaylistCreate { .. } => None,
            PopupState::ActionList(_, s) => *s,
            PopupState::ArtistList(_, _, s) => *s,
            PopupState::UserPlaylistList(_, s) => *s,
            PopupState::UserFollowedArtistList(s) => *s,
            PopupState::UserSavedAlbumList(s) => *s,
            PopupState::ThemeList(_, s) => *s,
            PopupState::DeviceList(s) => *s,
        }
    }

    /// The popup with its selection set to `s`; popups without a
    /// selection are unchanged.
    pub open spec fn spec_with_selected(self, s: Option<usize>) -> PopupState {
        match self {
            PopupState::ActionList(i, _) => PopupState::ActionList(i, s),
            PopupState::ArtistList(a, l, _) => PopupState::ArtistList(a, l, s),
            PopupState::UserPlaylistList(a, _) => PopupState::UserPlaylistList(a, s),
            PopupState::UserFollowedArtistList(_) => PopupState::UserFollowedArtistList(s),
            PopupState::UserSavedAlbumList(_) => PopupState::UserSavedAlbumList(s),
            PopupState::ThemeList(t, _) => PopupState::ThemeList(t, s),
            PopupState::DeviceList(_) => PopupState::DeviceList(s),
            other => other,
        }
    }

    pub fn list_selected(&self) -> (r: Option<usize>)
        ensures
            r == self.spec_list_selected(),
    {
        match self {
            PopupState::Search { .. } => None,
            PopupState::PlaylistCreate { .. } => None,
            PopupState::ActionList(_, s) => *s,
            PopupState::ArtistList(_, _, s) => *s,
            PopupState::UserPlaylistList(_, s) => *s,
            PopupState::UserFollowedArtistList(s) => *s,
            PopupState::UserSavedAlbumList(s) => *s,
            PopupState::ThemeList(_, s) => *s,
            PopupState::DeviceList(s) => *s,
        }
    }

    pub fn list_select(&mut self, s: Option<usize>)
        ensures
            *final(self) == old(self).spec_with_selected(s),
    {
        match self {
            PopupState::ActionList(_, sel) => *sel = s,
            PopupState::ArtistList(_, _, sel) => *sel = s,
            PopupState::UserPlaylistList(_, sel) => *sel = s,
            PopupState::UserFollowedArtistList(sel) => *sel = s,
            PopupState::UserSavedAlbumList(sel) => *sel = s,
            PopupState::ThemeList(_, sel) => *sel = s,
            PopupState::DeviceList(sel) => *sel = s,
            _ => {},
        }
    }
}

/// The selection of a freshly opened list popup.
pub fn new_list_state() -> (r: Option<usize>)
    ensures
        r == Some(0usize),
{
    Some(0)
}

/// A typed identifier of a browsable context.
#[derive(Clone, Debug, PartialEq, Eq)]
pub enum ContextId {
    Playlist(String),
    Album(String),
    Artist(String),
}

/// The kind of entity that a shared link points to.
#[derive(Clone, Copy, Debug, PartialEq, Eq, Structural)]
pub enum LinkKind {
    Track,
    Album,
    Artist,
    Playlist,
}

/// A web link to an entity, given by its kind and its id.
#[derive(Clone, Debug, PartialEq, Eq)]
pub struct Link {
    pub kind: LinkKind,
    pub id: String,
}

pub open spec fn link_kind_path(kind: LinkKind) -> Seq<char> {
    match kind {
        LinkKind::Track => seq!['t', 'r', 'a', 'c', 'k'],
        LinkKind::Album => seq!['a', 'l', 'b', 'u', 'm'],
        LinkKind::Artist => seq!['a', 'r', 't', 'i', 's', 't'],
        LinkKind::Playlist => seq!['p', 'l', 'a', 'y', 'l', 'i', 's', 't'],
    }
}

/// `https://open.spotify.com/<kind>/<id>`
pub open spec fn link_url(kind: LinkKind, id: Seq<char>) -> Seq<char> {
    "https://open.spotify.com/"@ + link_kind_path(kind) + seq!['/'] + id
}

impl Link {
    /// The canonical web URL of the linked entity.
    pub fn url(&self) -> (r: String)
        ensures
            r@ == link_url(self.kind, self.id@),
    {
        let mut s = String::from_str("https://open.spotify.com/");
        let path = match self.kind {
            LinkKind::Track => "track/",
            LinkKind::Album => "album/",
            LinkKind::Artist => "artist/",
            LinkKind::Playlist => "playlist/",
        };
        proof {
            reveal_strlit("track/");
            reveal_strlit("album/");
            reveal_strlit("artist/");
            reveal_strlit("playlist/");
        }
        s.append(path);
        s.append(self.id.as_str());
        assert(path@ == link_kind_path(self.kind) + seq!['/']);
        assert(s@ =~= link_url(self.kind, self.id@));
        s
    }
}

/// `spotify`
pub open spec fn spotify_word() -> Seq<char> {
    seq!['s', 'p', 'o', 't', 'i', 'f', 'y']
}

/// `spotify:<kind>:<id>`
pub open spec fn uri_of(kind: LinkKind, id: Seq<char>) -> Seq<char> {
    spotify_word() + seq![':'] + link_kind_path(kind) + seq![':'] + id
}

/// The URI of the entity of this kind with this id.
pub fn spotify_uri(kind: LinkKind, id: &String) -> (r: String)
    ensures
        r@ == uri_of(kind, id@),
{
    let mut s = String::from_str("spotify:");
    let path = match kind {
        LinkKind::Track => "track:",
        LinkKind::Album => "album:",
        LinkKind::Artist => "artist:",
        LinkKind::Playlist => "playlist:",
    };
    proof {
        reveal_strlit("spotify:");
        reveal_strlit("track:");
        reveal_strlit("album:");
        reveal_strlit("artist:");
        reveal_strlit("playlist:");
    }
    s.append(path);
    s.append(id.as_str());
    assert(path@ == link_kind_path(kind) + seq![':']);
    assert(s@ =~= uri_of(kind, id@));
    s
}

/// An item of the user's library.
#[derive(Clone, Debug, PartialEq, Eq)]
pub enum Item {
    Track(Track),
    Album(Album),
    Artist(Artist),
    Playlist(Playlist),
}

/// The id of an item of the user's library.
#[derive(Clone, Debug, PartialEq, Eq)]
pub enum ItemId {
    Track(String),
    Album(String),
    Artist(String),
    Playlist(String),
}

/// A request to the backend client.
#[derive(Clone, Debug, PartialEq, Eq)]
pub enum ClientRequest {
    CreatePlaylist { playlist_name: Vec<char>, public: bool, collab: bool, desc: Vec<char> },
    AddTrackToPlaylist(String, String),
    DeleteTrackFromPlaylist(String, String),
    AddToLibrary(Item),
    DeleteFromLibrary(ItemId),
    AddTrackToQueue(String),
    AddAlbumToQueue(String),
    GetUserPlaylists,
    GetRadioTracks { seed_uri: String, seed_name: String },
    TransferPlayback(String, bool),
}

/// What a transition asks of the world around the popup, in order.
#[derive(Clone, Debug, PartialEq, Eq)]
pub enum Effect {
    /// Enqueue a request to the backend client.
    Send(ClientRequest),
    /// Open a page browsing the context.
    OpenContextPage(ContextId),
    /// Open a radio page seeded by the URI.
    OpenRadioPage(String),
    /// Put the link's URL on the clipboard.
    CopyToClipboard(Link),
    /// Move the selection cursor of the current page to its first item.
    ResetPageSelection,
    /// Hand the key sequence to the current page's own handler.
    ForwardToPage,
}

/// A snapshot of the library and player data that popups read.
pub struct LibrarySnapshot {
    pub playlists: Vec<Playlist>,
    pub modifiable_playlist_ids: Vec<String>,
    pub followed_artists: Vec<Artist>,
    pub saved_albums: Vec<Album>,
    pub devices: Vec<Device>,
    pub is_playing: bool,
    /// The playlist that the current page shows, if it shows one.
    pub current_playlist_id: Option<String>,
}

/// The part of the UI state that popups change.
#[derive(Clone, Debug, PartialEq, Eq)]
pub struct UIState {
    pub popup: Option<PopupState>,
    pub theme: Theme,
}

/// Errors of a popup transition.
#[derive(Clone, Copy, Debug, PartialEq, Eq, Structural)]
pub enum PopupError {
    /// A handler ran while another popup, or none, was active.
    InvariantViolation,
    /// An identifier could not be parsed.
    MalformedIdentifier,
}

/// The result of a handled or unhandled key sequence.
pub struct Response {
    pub handled: bool,
    pub effects: Vec<Effect>,
}

} // verus!
