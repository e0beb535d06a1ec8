use vstd::prelude::*;

use crate::actions::{
    artist_actions, construct_artist_actions, handle_item_action, is_followed, item_action_done,
    item_action_fails, single,
};
use crate::create_playlist::{
    create_playlist_done, field_ok, handle_key_sequence_for_create_playlist_popup,
};
use crate::ids::{album_id_from_uri, artist_id_from_uri, id_of_uri, playlist_id_from_uri};
use crate::list::{
    ListEvent, current_index, handle_command_for_list_popup, is_list_popup, list_event,
};
use crate::model::{
    ActionListItem, Album, Artist, ArtistPopupAction, ClientRequest, Command, ContextId, Effect,
    Key, KeyCode, KeySequence, LibrarySnapshot, Playlist, PlaylistPopupAction, PopupError,
    PopupState, Response, Theme, UIState, new_list_state, spotify_uri, uri_of, LinkKind,
};
use crate::search::{handle_key_sequence_for_search_popup, search_done};

verus! {

/// The kind of context that a browsing list popup lists.
#[derive(Clone, Copy, Debug, PartialEq, Eq, Structural)]
pub enum ContextType {
    Playlist,
    Artist,
    Album,
}

/// The value of a decimal digit.
pub open spec fn digit_of(c: char) -> Option<nat> {
    if '0' <= c && c <= '9' {
        Some((c as u32 - '0' as u32) as nat)
    } else {
        None
    }
}

/// The digit of a sequence that is a single digit key, if it is one.
pub open spec fn digit_shortcut(keys: Seq<Key>) -> Option<nat> {
    if keys.len() == 1 {
        match keys[0] {
            Key::Plain(KeyCode::Char(c)) => digit_of(c),
            _ => None,
        }
    } else {
        None
    }
}

/// `r` is a success with these `handled` and `effects`.
pub open spec fn ok_with(r: Result<Response, PopupError>, handled: bool, effects: Seq<Effect>) -> bool {
    r is Ok && r->Ok_0.handled == handled && r->Ok_0.effects@ == effects
}

/// The number of items of a list popup.
pub open spec fn list_len(p: PopupState, data: LibrarySnapshot) -> usize {
    match p {
        PopupState::ActionList(item, _) => item.spec_n_actions() as usize,
        PopupState::ArtistList(_, artists, _) => artists@.len() as usize,
        PopupState::UserPlaylistList(PlaylistPopupAction::Browse, _) => data.playlists@.len() as usize,
        PopupState::UserPlaylistList(PlaylistPopupAction::AddTrack(_), _) => data.modifiable_playlist_ids@.len() as usize,
        PopupState::UserFollowedArtistList(_) => data.followed_artists@.len() as usize,
        PopupState::UserSavedAlbumList(_) => data.saved_albums@.len() as usize,
        PopupState::ThemeList(themes, _) => themes@.len() as usize,
        PopupState::DeviceList(_) => data.devices@.len() as usize,
        _ => 0,
    }
}

pub open spec fn playlist_uris(data: LibrarySnapshot) -> Seq<Seq<char>> {
    data.playlists@.map_values(|p: Playlist| uri_of(LinkKind::Playlist, p.id@))
}

pub open spec fn followed_artist_uris(data: LibrarySnapshot) -> Seq<Seq<char>> {
    data.followed_artists@.map_values(|a: Artist| uri_of(LinkKind::Artist, a.id@))
}

pub open spec fn saved_album_uris(data: LibrarySnapshot) -> Seq<Seq<char>> {
    data.saved_albums@.map_values(|a: Album| uri_of(LinkKind::Album, a.id@))
}

/// The views of a list of strings.
pub open spec fn views(uris: Seq<String>) -> Seq<Seq<char>> {
    uris.map_values(|u: String| u@)
}

/// The id that the parser of `ty` reads from `uri`.
pub open spec fn context_id_of_uri(ty: ContextType, uri: Seq<char>) -> Option<Seq<char>> {
    match ty {
        ContextType::Playlist => id_of_uri(LinkKind::Playlist, uri),
        ContextType::Artist => id_of_uri(LinkKind::Artist, uri),
        ContextType::Album => id_of_uri(LinkKind::Album, uri),
    }
}

/// Whether `c` is a context of kind `ty` with this id.
pub open spec fn context_is(c: ContextId, ty: ContextType, id: Seq<char>) -> bool {
    match c {
        ContextId::Playlist(s) => ty == ContextType::Playlist && s@ == id,
        ContextId::Artist(s) => ty == ContextType::Artist && s@ == id,
        ContextId::Album(s) => ty == ContextType::Album && s@ == id,
    }
}

/// The outcome of the events that every list popup treats alike: no
/// command, an unknown one, an absorbed move, a move and a close (the
/// theme list's callbacks aside).
pub open spec fn common_event_done(
    old: UIState,
    p: PopupState,
    ev: ListEvent,
    new: UIState,
    r: Result<Response, PopupError>,
) -> bool {
    match ev {
        ListEvent::Unhandled => ok_with(r, false, Seq::empty()) && new == old,
        ListEvent::Absorbed => ok_with(r, true, Seq::empty()) && new == old,
        ListEvent::Selected(i) => ok_with(r, true, Seq::empty()) && new.popup == Some(
            p.spec_with_selected(Some(i)),
        ) && new.theme == match p {
            PopupState::ThemeList(themes, _) => if i < themes@.len() {
                themes@[i as int]
            } else {
                old.theme
            },
            _ => old.theme,
        },
        ListEvent::Closed => ok_with(r, true, Seq::empty()) && new.popup is None && new.theme
            == match p {
            PopupState::ThemeList(themes, _) => if themes@.len() > 0 {
                themes@[0]
            } else {
                old.theme
            },
            _ => old.theme,
        },
        ListEvent::Chosen(_) => true,
    }
}

/// The outcome of `command` on a list popup whose items are contexts
/// given by their URIs.
pub open spec fn context_browse_done(
    old: UIState,
    command: Command,
    uris: Seq<Seq<char>>,
    ty: ContextType,
    new: UIState,
    r: Result<Response, PopupError>,
) -> bool {
    match old.popup {
        Some(p) => {
            let ev = list_event(command, current_index(p), uris.len() as usize);
            &&& common_event_done(old, p, ev, new, r)
            &&& ev matches ListEvent::Chosen(i) ==> match context_id_of_uri(ty, uris[i as int]) {
                None => r == Err::<Response, PopupError>(PopupError::MalformedIdentifier) && new
                    == old,
                Some(id) => {
                    &&& r is Ok && r->Ok_0.handled && r->Ok_0.effects@.len() == 1
                    &&& r->Ok_0.effects@[0] matches Effect::OpenContextPage(c) && context_is(
                        c,
                        ty,
                        id,
                    )
                    &&& new.popup is None && new.theme == old.theme
                },
            }
        },
        None => r == Err::<Response, PopupError>(PopupError::InvariantViolation) && new == old,
    }
}

/// The outcome of choosing item `i` of a list popup `p` that lists no
/// contexts by URI.
pub open spec fn chosen_done(
    old: UIState,
    p: PopupState,
    i: int,
    data: LibrarySnapshot,
    new: UIState,
    r: Result<Response, PopupError>,
) -> bool {
    new.theme == old.theme && match p {
        PopupState::ArtistList(ArtistPopupAction::Browse, artists, _) => ok_with(
            r,
            true,
            seq![Effect::OpenContextPage(ContextId::Artist(artists@[i].id))],
        ) && new.popup is None,
        PopupState::ArtistList(ArtistPopupAction::ShowActions, artists, _) => ok_with(
            r,
            true,
            Seq::empty(),
        ) && match new.popup {
            Some(PopupState::ActionList(ActionListItem::Artist(a, acts), s)) => a == artists@[i]
                && acts@ == artist_actions(is_followed(a, data)) && s == Some(0usize),
            _ => false,
        },
        PopupState::UserPlaylistList(PlaylistPopupAction::AddTrack(track_id), _) => ok_with(
            r,
            true,
            seq![
                Effect::Send(
                    ClientRequest::AddTrackToPlaylist(data.modifiable_playlist_ids@[i], track_id),
                ),
            ],
        ) && new.popup is None,
        PopupState::ThemeList(_, _) => ok_with(r, true, Seq::empty()) && new.popup is None,
        PopupState::DeviceList(_) => ok_with(
            r,
            true,
            seq![
                Effect::Send(ClientRequest::TransferPlayback(data.devices@[i].id, data.is_playing)),
            ],
        ) && new.popup is None,
        _ => false,
    }
}

/// The outcome of `command` on a list popup other than the action list.
pub open spec fn list_popup_done(
    old: UIState,
    command: Command,
    data: LibrarySnapshot,
    new: UIState,
    r: Result<Response, PopupError>,
) -> bool {
    match old.popup {
        Some(PopupState::UserPlaylistList(PlaylistPopupAction::Browse, _)) => context_browse_done(
            old,
            command,
            playlist_uris(data),
            ContextType::Playlist,
            new,
            r,
        ),
        Some(PopupState::UserFollowedArtistList(_)) => context_browse_done(
            old,
            command,
            followed_artist_uris(data),
            ContextType::Artist,
            new,
            r,
        ),
        Some(PopupState::UserSavedAlbumList(_)) => context_browse_done(
            old,
            command,
            saved_album_uris(data),
            ContextType::Album,
            new,
            r,
        ),
        Some(p) => {
            let ev = list_event(command, current_index(p), list_len(p, data));
            &&& common_event_done(old, p, ev, new, r)
            &&& ev matches ListEvent::Chosen(i) ==> chosen_done(old, p, i as int, data, new, r)
        },
        None => false,
    }
}

/// The outcome of carrying out action `n` of an action list popup.
pub open spec fn item_outcome(
    old: UIState,
    item: ActionListItem,
    sel: Option<usize>,
    n: int,
    data: LibrarySnapshot,
    new: UIState,
    r: Result<Response, PopupError>,
) -> bool {
    if item_action_fails(item, n) {
        r == Err::<Response, PopupError>(PopupError::MalformedIdentifier) && new == old
    } else {
        &&& r is Ok && r->Ok_0.handled && new.theme == old.theme
        &&& item_action_done(item, sel, n, data, new.popup, r->Ok_0.effects@)
    }
}

/// The outcome of a key sequence, and the command that the keymap gives
/// for it, on an action list popup.
pub open spec fn action_list_done(
    old: UIState,
    keys: Seq<Key>,
    command: Option<Command>,
    data: LibrarySnapshot,
    new: UIState,
    r: Result<Response, PopupError>,
) -> bool {
    match old.popup {
        Some(PopupState::ActionList(item, sel)) => {
            let n = item.spec_n_actions();
            match command {
                None => match digit_shortcut(keys) {
                    Some(d) if d < n => item_outcome(old, item, sel, d as int, data, new, r),
                    _ => ok_with(r, false, Seq::empty()) && new == old,
                },
                Some(c) => {
                    let p = PopupState::ActionList(item, sel);
                    let ev = list_event(c, current_index(p), n as usize);
                    &&& common_event_done(old, p, ev, new, r)
                    &&& ev matches ListEvent::Chosen(i) ==> item_outcome(
                        old,
                        item,
                        sel,
                        i as int,
                        data,
                        new,
                        r,
                    )
                },
            }
        },
        _ => r == Err::<Response, PopupError>(PopupError::InvariantViolation) && new == old,
    }
}

/// Whether the popup's text fields can take one more key.
pub open spec fn popup_ok(ui: UIState) -> bool {
    ui.popup matches Some(PopupState::PlaylistCreate { name, desc, .. }) ==> field_ok(name)
        && field_ok(desc)
}

fn copy_theme(t: &Theme) -> (r: Theme)
    ensures
        r == *t,
{
    Theme { name: t.name.clone() }
}

fn copy_artist(a: &Artist) -> (r: Artist)
    ensures
        r == *a,
{
    Artist { id: a.id.clone(), name: a.name.clone() }
}

fn response(handled: bool, effects: Vec<Effect>) -> (r: Result<Response, PopupError>)
    ensures
        ok_with(r, handled, effects@),
{
    Ok(Response { handled, effects })
}

/// The URIs of `data.playlists`, built from their ids.
fn collect_playlist_uris(data: &LibrarySnapshot) -> (r: Vec<String>)
    ensures
        views(r@) == playlist_uris(*data),
{
    let mut r: Vec<String> = Vec::new();
    let mut i: usize = 0;
    while i < data.playlists.len()
        invariant
            i <= data.playlists@.len(),
            views(r@) == data.playlists@.subrange(0, i as int).map_values(
                |p: Playlist| uri_of(LinkKind::Playlist, p.id@),
            ),
        decreases data.playlists@.len() - i,
    {
        let uri = spotify_uri(LinkKind::Playlist, &data.playlists[i].id);
        let ghost prev = r@;
        r.push(uri);
        assert(views(r@) =~= views(prev).push(uri@));
        i = i + 1;
        assert(views(r@) =~= data.playlists@.subrange(0, i as int).map_values(
            |p: Playlist| uri_of(LinkKind::Playlist, p.id@),
        ));
    }
    assert(data.playlists@.subrange(0, i as int) =~= data.playlists@);
    r
}

/// The URIs of `data.followed_artists`, built from their ids.
fn collect_followed_artist_uris(data: &LibrarySnapshot) -> (r: Vec<String>)
    ensures
        views(r@) == followed_artist_uris(*data),
{
    let mut r: Vec<String> = Vec::new();
    let mut i: usize = 0;
    while i < data.followed_artists.len()
        invariant
            i <= data.followed_artists@.len(),
            views(r@) == data.followed_artists@.subrange(0, i as int).map_values(
                |a: Artist| uri_of(LinkKind::Artist, a.id@),
            ),
        decreases data.followed_artists@.len() - i,
    {
        let uri = spotify_uri(LinkKind::Artist, &data.followed_artists[i].id);
        let ghost prev = r@;
        r.push(uri);
        assert(views(r@) =~= views(prev).push(uri@));
        i = i + 1;
        assert(views(r@) =~= data.followed_artists@.subrange(0, i as int).map_values(
            |a: Artist| uri_of(LinkKind::Artist, a.id@),
        ));
    }
    assert(data.followed_artists@.subrange(0, i as int) =~= data.followed_artists@);
    r
}

/// The URIs of `data.saved_albums`, built from their ids.
fn collect_saved_album_uris(data: &LibrarySnapshot) -> (r: Vec<String>)
    ensures
        views(r@) == saved_album_uris(*data),
{
    let mut r: Vec<String> = Vec::new();
    let mut i: usize = 0;
    while i < data.saved_albums.len()
        invariant
            i <= data.saved_albums@.len(),
            views(r@) == data.saved_albums@.subrange(0, i as int).map_values(
                |a: Album| uri_of(LinkKind::Album, a.id@),
            ),
        decreases data.saved_albums@.len() - i,
    {
        let uri = spotify_uri(LinkKind::Album, &data.saved_albums[i].id);
        let ghost prev = r@;
        r.push(uri);
        assert(views(r@) =~= views(prev).push(uri@));
        i = i + 1;
        assert(views(r@) =~= data.saved_albums@.subrange(0, i as int).map_values(
            |a: Album| uri_of(LinkKind::Album, a.id@),
        ));
    }
    assert(data.saved_albums@.subrange(0, i as int) =~= data.saved_albums@);
    r
}

/// Finishes a list command that chose nothing: `before` is the UI state
/// before the list protocol ran, `ui` the state after it.
fn apply_common_event(ui: &mut UIState, ev: ListEvent, Ghost(before): Ghost<UIState>) -> (r: Result<
    Response,
    PopupError,
>)
    requires
        before.popup is Some,
        !(ev is Chosen),
        ev matches ListEvent::Selected(i) ==> old(ui).popup == Some(
            before.popup->Some_0.spec_with_selected(Some(i)),
        ) && old(ui).theme == before.theme,
        !(ev is Selected) ==> *old(ui) == before,
    ensures
        common_event_done(before, before.popup->Some_0, ev, *final(ui), r),
{
    match ev {
        ListEvent::Unhandled => response(false, Vec::new()),
        ListEvent::Selected(i) => {
            let theme = match &ui.popup {
                Some(PopupState::ThemeList(themes, _)) => if i < themes.len() {
                    Some(copy_theme(&themes[i]))
                } else {
                    None
                },
                _ => None,
            };
            match theme {
                Some(t) => {
                    ui.theme = t;
                },
                None => {},
            }
            response(true, Vec::new())
        },
        ListEvent::Closed => {
            let theme = match &ui.popup {
                Some(PopupState::ThemeList(themes, _)) => if themes.len() > 0 {
                    Some(copy_theme(&themes[0]))
                } else {
                    None
                },
                _ => None,
            };
            match theme {
                Some(t) => {
                    ui.theme = t;
                },
                None => {},
            }
            ui.popup = None;
            response(true, Vec::new())
        },
        _ => response(true, Vec::new()),
    }
}

/// Handles a command on a list popup whose items are contexts given by
/// their URIs: choosing one opens a page browsing it. The URIs are those
/// that `spotify_uri` builds, `spotify:<kind>:<id>`, and are parsed as
/// they stand.
pub fn handle_command_for_context_browsing_list_popup(
    command: Command,
    ui: &mut UIState,
    uris: &Vec<String>,
    context_type: ContextType,
) -> (r: Result<Response, PopupError>)
    ensures
        context_browse_done(*old(ui), command, views(uris@), context_type, *final(ui), r),
{
    let ghost before = *ui;
    let ev = match &mut ui.popup {
        Some(p) => handle_command_for_list_popup(command, p, uris.len()),
        None => {
            return Err(PopupError::InvariantViolation);
        },
    };
    match ev {
        ListEvent::Chosen(i) => {
            let uri = uris[i].as_str();
            let parsed = match context_type {
                ContextType::Playlist => match playlist_id_from_uri(uri) {
                    Ok(id) => Some(ContextId::Playlist(id)),
                    Err(_) => None,
                },
                ContextType::Artist => match artist_id_from_uri(uri) {
                    Ok(id) => Some(ContextId::Artist(id)),
                    Err(_) => None,
                },
                ContextType::Album => match album_id_from_uri(uri) {
                    Ok(id) => Some(ContextId::Album(id)),
                    Err(_) => None,
                },
            };
            match parsed {
                Some(context_id) => {
                    ui.popup = None;
                    response(true, single(Effect::OpenContextPage(context_id)))
                },
                None => Err(PopupError::MalformedIdentifier),
            }
        },
        _ => apply_common_event(ui, ev, Ghost(before)),
    }
}

/// Handles a command on the artist, playlist, theme and device list
/// popups.
fn handle_command_for_other_list_popup(
    command: Command,
    data: &LibrarySnapshot,
    ui: &mut UIState,
) -> (r: Result<Response, PopupError>)
    requires
        old(ui).popup matches Some(p) && is_list_popup(p) && !(p is ActionList),
    ensures
        list_popup_done(*old(ui), command, *data, *final(ui), r),
{
    match &ui.popup {
        Some(PopupState::UserPlaylistList(PlaylistPopupAction::Browse, _)) => {
            let uris = collect_playlist_uris(data);
            return handle_command_for_context_browsing_list_popup(
                command,
                ui,
                &uris,
                ContextType::Playlist,
            );
        },
        Some(PopupState::UserFollowedArtistList(_)) => {
            let uris = collect_followed_artist_uris(data);
            return handle_command_for_context_browsing_list_popup(
                command,
                ui,
                &uris,
                ContextType::Artist,
            );
        },
        Some(PopupState::UserSavedAlbumList(_)) => {
            let uris = collect_saved_album_uris(data);
            return handle_command_for_context_browsing_list_popup(
                command,
                ui,
                &uris,
                ContextType::Album,
            );
        },
        _ => {},
    }
    let ghost before = *ui;
    let n_items = match &ui.popup {
        Some(PopupState::ArtistList(_, artists, _)) => artists.len(),
        Some(PopupState::UserPlaylistList(PlaylistPopupAction::AddTrack(_), _)) => data.modifiable_playlist_ids.len(),
        Some(PopupState::ThemeList(themes, _)) => themes.len(),
        Some(PopupState::DeviceList(_)) => data.devices.len(),
        _ => 0,
    };
    let ev = match &mut ui.popup {
        Some(p) => handle_command_for_list_popup(command, p, n_items),
        None => {
            return Err(PopupError::InvariantViolation);
        },
    };
    assert(n_items == list_len(before.popup->Some_0, *data));
    match ev {
        ListEvent::Chosen(i) => {
            let popup = ui.popup.take();
            match popup {
                Some(PopupState::ArtistList(ArtistPopupAction::Browse, artists, _)) => {
                    let id = artists[i].id.clone();
                    response(true, single(Effect::OpenContextPage(ContextId::Artist(id))))
                },
                Some(PopupState::ArtistList(ArtistPopupAction::ShowActions, artists, _)) => {
                    let artist = copy_artist(&artists[i]);
                    let actions = construct_artist_actions(&artist, data);
                    ui.popup = Some(
                        PopupState::ActionList(ActionListItem::Artist(artist, actions), new_list_state()),
                    );
                    response(true, Vec::new())
                },
                Some(PopupState::UserPlaylistList(PlaylistPopupAction::AddTrack(track_id), _)) => {
                    let playlist_id = data.modifiable_playlist_ids[i].clone();
                    let request = ClientRequest::AddTrackToPlaylist(playlist_id, track_id);
                    response(true, single(Effect::Send(request)))
                },
                Some(PopupState::DeviceList(_)) => {
                    let request = ClientRequest::TransferPlayback(
                        data.devices[i].id.clone(),
                        data.is_playing,
                    );
                    response(true, single(Effect::Send(request)))
                },
                other => {
                    let is_theme_list = matches!(other, Some(PopupState::ThemeList(..)));
                    if is_theme_list {
                        response(true, Vec::new())
                    } else {
                        ui.popup = other;
                        Err(PopupError::InvariantViolation)
                    }
                },
            }
        },
        _ => apply_common_event(ui, ev, Ghost(before)),
    }
}

/// Handles a key sequence on the action list popup: a command of the
/// keymap first, and else a digit that picks an action directly.
fn handle_key_sequence_for_action_list_popup(
    n_actions: usize,
    key_sequence: &KeySequence,
    command: Option<Command>,
    data: &LibrarySnapshot,
    ui: &mut UIState,
) -> (r: Result<Response, PopupError>)
    requires
        old(ui).popup matches Some(PopupState::ActionList(item, sel)) && n_actions
            == item.spec_n_actions(),
    ensures
        action_list_done(*old(ui), key_sequence.keys@, command, *data, *final(ui), r),
{
    let ghost before = *ui;
    let command = match command {
        Some(c) => c,
        None => {
            if key_sequence.keys.len() == 1 {
                if let Key::Plain(KeyCode::Char(c)) = key_sequence.keys[0] {
                    if '0' <= c && c <= '9' {
                        let id = (c as u32 - '0' as u32) as usize;
                        if id < n_actions {
                            let effects = handle_item_action(id, data, ui)?;
                            return response(true, effects);
                        }
                    }
                }
            }
            return response(false, Vec::new());
        },
    };
    let ev = match &mut ui.popup {
        Some(p) => handle_command_for_list_popup(command, p, n_actions),
        None => {
            return Err(PopupError::InvariantViolation);
        },
    };
    match ev {
        ListEvent::Chosen(i) => {
            let effects = handle_item_action(i, data, ui)?;
            response(true, effects)
        },
        _ => apply_common_event(ui, ev, Ghost(before)),
    }
}

/// The outcome of a key sequence, and of the command that the keymap
/// gives for it, on the popup of `old`.
pub open spec fn popup_done(
    old: UIState,
    keys: Seq<Key>,
    command: Option<Command>,
    data: LibrarySnapshot,
    new: UIState,
    r: Result<Response, PopupError>,
) -> bool {
    match old.popup {
        None => r == Err::<Response, PopupError>(PopupError::InvariantViolation) && new == old,
        Some(PopupState::Search { .. }) => search_done(old, keys, new, r),
        Some(PopupState::PlaylistCreate { .. }) => create_playlist_done(old, keys, new, r),
        Some(PopupState::ActionList(..)) => action_list_done(old, keys, command, data, new, r),
        Some(_) => match command {
            None => ok_with(r, false, Seq::empty()) && new == old,
            Some(c) => list_popup_done(old, c, data, new, r),
        },
    }
}

/// Handles a key sequence on the active popup. `command` is what the
/// keymap gives for the sequence, if anything. The search and
/// create-playlist popups read the keys themselves; the action list tries
/// the command first and a digit shortcut second; the other popups run
/// the command through the list protocol.
pub fn handle_key_sequence_for_popup(
    key_sequence: &KeySequence,
    command: Option<Command>,
    data: &LibrarySnapshot,
    ui: &mut UIState,
) -> (r: Result<Response, PopupError>)
    requires
        popup_ok(*old(ui)),
    ensures
        popup_done(*old(ui), key_sequence.keys@, command, *data, *final(ui), r),
        old(ui).popup matches Some(p) ==> (command == Some(Command::ClosePopup) && is_list_popup(p)
            ==> r is Ok && final(ui).popup is None),
        old(ui).popup matches Some(PopupState::ActionList(item, _)) ==> (command is None && !(
        digit_shortcut(key_sequence.keys@) is Some && digit_shortcut(key_sequence.keys@)->Some_0
            < item.spec_n_actions()) ==> ok_with(r, false, Seq::empty()) && *final(ui) == *old(ui)),
{
    let n_actions = match &ui.popup {
        None => {
            return Err(PopupError::InvariantViolation);
        },
        Some(PopupState::Search { .. }) => {
            return handle_key_sequence_for_search_popup(key_sequence, ui);
        },
        Some(PopupState::PlaylistCreate { .. }) => {
            return handle_key_sequence_for_create_playlist_popup(key_sequence, ui);
        },
        Some(PopupState::ActionList(item, _)) => item.n_actions(),
        Some(_) => {
            return match command {
                Some(c) => handle_command_for_other_list_popup(c, data, ui),
                None => response(false, Vec::new()),
            };
        },
    };
    handle_key_sequence_for_action_list_popup(n_actions, key_sequence, command, data, ui)
}

/// Whether `handle_key_sequence_for_popup` may be called on this state:
/// the text fields of a create-playlist popup can take one more key.
pub fn popup_ready(ui: &UIState) -> (r: bool)
    ensures
        r == popup_ok(*ui),
{
    match &ui.popup {
        Some(PopupState::PlaylistCreate { name, desc, .. }) => {
            name.cursor <= name.line.len() && name.line.len() < usize::MAX && desc.cursor
                <= desc.line.len() && desc.line.len() < usize::MAX
        },
        _ => true,
    }
}

} // verus!
