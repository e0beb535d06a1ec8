use vstd::prelude::*;

use crate::ids::{album_id_from_uri, id_of_uri};
use crate::model::{
    ActionListItem, Album, AlbumAction, Artist, ArtistAction, ArtistPopupAction, ClientRequest,
    ContextId, Effect, Item, ItemId, LibrarySnapshot, Link, LinkKind, PlaylistAction,
    PlaylistPopupAction, PopupError, PopupState, Track, TrackAction, UIState, new_list_state,
    spotify_uri, uri_of,
};

verus! {

/// Whether the user follows the artist.
pub open spec fn is_followed(artist: Artist, data: LibrarySnapshot) -> bool {
    exists|i: int|
        0 <= i < data.followed_artists@.len() && #[trigger] data.followed_artists@[i].id@
            == artist.id@
}

/// Whether the album is in the user's library.
pub open spec fn is_saved(album: Album, data: LibrarySnapshot) -> bool {
    exists|i: int|
        0 <= i < data.saved_albums@.len() && #[trigger] data.saved_albums@[i].id@ == album.id@
}

pub open spec fn artist_actions(followed: bool) -> Seq<ArtistAction> {
    seq![
        ArtistAction::GoToArtistRadio,
        ArtistAction::CopyArtistLink,
        if followed {
            ArtistAction::Unfollow
        } else {
            ArtistAction::Follow
        },
    ]
}

pub open spec fn album_actions(saved: bool) -> Seq<AlbumAction> {
    seq![
        AlbumAction::GoToArtist,
        AlbumAction::GoToAlbumRadio,
        AlbumAction::ShowActionsOnArtist,
        AlbumAction::CopyAlbumLink,
        AlbumAction::AddToQueue,
        if saved {
            AlbumAction::DeleteFromLibrary
        } else {
            AlbumAction::AddToLibrary
        },
    ]
}

/// The actions offered for an artist: radio, link, and follow or
/// unfollow depending on whether the user follows it.
pub fn construct_artist_actions(artist: &Artist, data: &LibrarySnapshot) -> (r: Vec<ArtistAction>)
    ensures
        r@ == artist_actions(is_followed(*artist, *data)),
{
    let mut followed = false;
    let mut i: usize = 0;
    while i < data.followed_artists.len()
        invariant
            i <= data.followed_artists@.len(),
            followed == exists|j: int|
                0 <= j < i && #[trigger] data.followed_artists@[j].id@ == artist.id@,
        decreases data.followed_artists@.len() - i,
    {
        if data.followed_artists[i].id == artist.id {
            followed = true;
        }
        i = i + 1;
    }
    let last = if followed {
        ArtistAction::Unfollow
    } else {
        ArtistAction::Follow
    };
    let r = vec![ArtistAction::GoToArtistRadio, ArtistAction::CopyArtistLink, last];
    assert(r@ =~= artist_actions(is_followed(*artist, *data)));
    r
}

/// The actions offered for an album: artists, radio, link, queue, and
/// save or remove depending on whether it is in the user's library.
pub fn construct_album_actions(album: &Album, data: &LibrarySnapshot) -> (r: Vec<AlbumAction>)
    ensures
        r@ == album_actions(is_saved(*album, *data)),
{
    let mut saved = false;
    let mut i: usize = 0;
    while i < data.saved_albums.len()
        invariant
            i <= data.saved_albums@.len(),
            saved == exists|j: int|
                0 <= j < i && #[trigger] data.saved_albums@[j].id@ == album.id@,
        decreases data.saved_albums@.len() - i,
    {
        if data.saved_albums[i].id == album.id {
            saved = true;
        }
        i = i + 1;
    }
    let last = if saved {
        AlbumAction::DeleteFromLibrary
    } else {
        AlbumAction::AddToLibrary
    };
    let r = vec![
        AlbumAction::GoToArtist,
        AlbumAction::GoToAlbumRadio,
        AlbumAction::ShowActionsOnArtist,
        AlbumAction::CopyAlbumLink,
        AlbumAction::AddToQueue,
        last,
    ];
    assert(r@ =~= album_actions(is_saved(*album, *data)));
    r
}

/// Appends the request to copy the link's URL to the clipboard.
pub fn execute_copy_command(link: Link, effects: &mut Vec<Effect>)
    ensures
        final(effects)@ == old(effects)@.push(Effect::CopyToClipboard(link)),
{
    effects.push(Effect::CopyToClipboard(link));
}

/// Whether `effects` open a radio page seeded by the entity of this kind
/// and id, then ask for its tracks under the entity's name.
pub open spec fn radio_effects(effects: Seq<Effect>, kind: LinkKind, id: Seq<char>, name: String) -> bool {
    &&& effects.len() == 2
    &&& effects[0] matches Effect::OpenRadioPage(u) && u@ == uri_of(kind, id)
    &&& effects[1] matches Effect::Send(ClientRequest::GetRadioTracks { seed_uri, seed_name })
        && seed_uri@ == uri_of(kind, id) && seed_name == name
}

/// Whether choosing action `n` of `item` fails: only going to a track's
/// album can, when the album's URI does not parse.
pub open spec fn item_action_fails(item: ActionListItem, n: int) -> bool {
    match item {
        ActionListItem::Track(t, acts) => acts@[n] == TrackAction::GoToAlbum && (t.album matches Some(
            al,
        ) && id_of_uri(LinkKind::Album, uri_of(LinkKind::Album, al.id@)) is None),
        _ => false,
    }
}

/// Whether `popup` and `effects` are the outcome of choosing action `n`
/// of `item`, whose popup had selection `sel`, when it does not fail.
pub open spec fn item_action_done(
    item: ActionListItem,
    sel: Option<usize>,
    n: int,
    data: LibrarySnapshot,
    popup: Option<PopupState>,
    effects: Seq<Effect>,
) -> bool {
    let keep = Some(PopupState::ActionList(item, sel));
    match item {
        ActionListItem::Track(t, acts) => match acts@[n] {
            TrackAction::GoToAlbum => match t.album {
                Some(al) => popup is None && effects.len() == 1 && match effects[0] {
                    Effect::OpenContextPage(ContextId::Album(id)) => id_of_uri(
                        LinkKind::Album,
                        uri_of(LinkKind::Album, al.id@),
                    )
                        == Some(id@),
                    _ => false,
                },
                None => popup == keep && effects == Seq::<Effect>::empty(),
            },
            TrackAction::GoToArtist => popup == Some(
                PopupState::ArtistList(ArtistPopupAction::Browse, t.artists, Some(0usize)),
            ) && effects == Seq::<Effect>::empty(),
            TrackAction::AddToQueue => popup is None && effects == seq![
                Effect::Send(ClientRequest::AddTrackToQueue(t.id)),
            ],
            TrackAction::CopyTrackLink => popup is None && effects == seq![
                Effect::CopyToClipboard(Link { kind: LinkKind::Track, id: t.id }),
            ],
            TrackAction::AddToPlaylist => popup == Some(
                PopupState::UserPlaylistList(PlaylistPopupAction::AddTrack(t.id), Some(0usize)),
            ) && effects == seq![Effect::Send(ClientRequest::GetUserPlaylists)],
            TrackAction::AddToLikedTracks => popup is None && effects == seq![
                Effect::Send(ClientRequest::AddToLibrary(Item::Track(t))),
            ],
            TrackAction::GoToTrackRadio => popup is None && radio_effects(effects, LinkKind::Track, t.id@, t.name),
            TrackAction::ShowActionsOnArtist => popup == Some(
                PopupState::ArtistList(ArtistPopupAction::ShowActions, t.artists, Some(0usize)),
            ) && effects == Seq::<Effect>::empty(),
            TrackAction::ShowActionsOnAlbum => effects == Seq::<Effect>::empty() && match t.album {
                Some(al) => match popup {
                    Some(PopupState::ActionList(ActionListItem::Album(al2, acts2), s)) => al2 == al
                        && acts2@ == album_actions(is_saved(al, data)) && s == Some(0usize),
                    _ => false,
                },
                None => popup == keep,
            },
            TrackAction::DeleteFromLikedTracks => popup is None && effects == seq![
                Effect::Send(ClientRequest::DeleteFromLibrary(ItemId::Track(t.id))),
            ],
            TrackAction::DeleteFromCurrentPlaylist => popup is None && match data.current_playlist_id {
                Some(pid) => effects == seq![
                    Effect::Send(ClientRequest::DeleteTrackFromPlaylist(pid, t.id)),
                ],
                None => effects == Seq::<Effect>::empty(),
            },
        },
        ActionListItem::Album(al, acts) => match acts@[n] {
            AlbumAction::GoToArtist => popup == Some(
                PopupState::ArtistList(ArtistPopupAction::Browse, al.artists, Some(0usize)),
            ) && effects == Seq::<Effect>::empty(),
            AlbumAction::GoToAlbumRadio => popup is None && radio_effects(effects, LinkKind::Album, al.id@, al.name),
            AlbumAction::ShowActionsOnArtist => popup == Some(
                PopupState::ArtistList(ArtistPopupAction::ShowActions, al.artists, Some(0usize)),
            ) && effects == Seq::<Effect>::empty(),
            AlbumAction::CopyAlbumLink => popup is None && effects == seq![
                Effect::CopyToClipboard(Link { kind: LinkKind::Album, id: al.id }),
            ],
            AlbumAction::AddToLibrary => popup is None && effects == seq![
                Effect::Send(ClientRequest::AddToLibrary(Item::Album(al))),
            ],
            AlbumAction::DeleteFromLibrary => popup is None && effects == seq![
                Effect::Send(ClientRequest::DeleteFromLibrary(ItemId::Album(al.id))),
            ],
            AlbumAction::AddToQueue => popup is None && effects == seq![
                Effect::Send(ClientRequest::AddAlbumToQueue(al.id)),
            ],
        },
        ActionListItem::Artist(a, acts) => match acts@[n] {
            ArtistAction::Follow => popup is None && effects == seq![
                Effect::Send(ClientRequest::AddToLibrary(Item::Artist(a))),
            ],
            ArtistAction::GoToArtistRadio => popup is None && radio_effects(effects, LinkKind::Artist, a.id@, a.name),
            ArtistAction::CopyArtistLink => popup is None && effects == seq![
                Effect::CopyToClipboard(Link { kind: LinkKind::Artist, id: a.id }),
            ],
            ArtistAction::Unfollow => popup is None && effects == seq![
                Effect::Send(ClientRequest::DeleteFromLibrary(ItemId::Artist(a.id))),
            ],
        },
        ActionListItem::Playlist(p, acts) => match acts@[n] {
            PlaylistAction::AddToLibrary => popup is None && effects == seq![
                Effect::Send(ClientRequest::AddToLibrary(Item::Playlist(p))),
            ],
            PlaylistAction::GoToPlaylistRadio => popup is None && radio_effects(effects, LinkKind::Playlist, p.id@, p.name),
            PlaylistAction::CopyPlaylistLink => popup is None && effects == seq![
                Effect::CopyToClipboard(Link { kind: LinkKind::Playlist, id: p.id }),
            ],
            PlaylistAction::DeleteFromLibrary => popup is None && effects == seq![
                Effect::Send(ClientRequest::DeleteFromLibrary(ItemId::Playlist(p.id))),
            ],
        },
    }
}

/// The effects of opening a radio page and asking for its tracks.
fn radio(kind: LinkKind, id: &String, name: String) -> (r: Vec<Effect>)
    ensures
        radio_effects(r@, kind, id@, name),
{
    let uri = spotify_uri(kind, id);
    let page_uri = uri.clone();
    vec![
        Effect::OpenRadioPage(page_uri),
        Effect::Send(ClientRequest::GetRadioTracks { seed_uri: uri, seed_name: name }),
    ]
}

pub(crate) fn single(e: Effect) -> (r: Vec<Effect>)
    ensures
        r@ == seq![e],
{
    let r = vec![e];
    assert(r@ =~= seq![e]);
    r
}

fn none() -> (r: Vec<Effect>)
    ensures
        r@ == Seq::<Effect>::empty(),
{
    Vec::new()
}

fn handle_track_action(
    track: Track,
    actions: Vec<TrackAction>,
    sel: Option<usize>,
    n: usize,
    data: &LibrarySnapshot,
    ui: &mut UIState,
) -> (r: Result<Vec<Effect>, PopupError>)
    requires
        n < actions@.len(),
        old(ui).popup is None,
    ensures
        final(ui).theme == old(ui).theme,
        ({
            let item = ActionListItem::Track(track, actions);
            &&& r is Ok <==> !item_action_fails(item, n as int)
            &&& r is Ok ==> item_action_done(item, sel, n as int, *data, final(ui).popup, r->Ok_0@)
            &&& r is Err ==> r == Err::<Vec<Effect>, PopupError>(PopupError::MalformedIdentifier)
                && final(ui).popup == Some(PopupState::ActionList(item, sel))
        }),
{
    let ghost item = ActionListItem::Track(track, actions);
    let action = actions[n];
    let Track { id, name, album, artists } = track;
    match action {
        TrackAction::GoToAlbum => {
            match album {
                Some(al) => {
                    let album_uri = spotify_uri(LinkKind::Album, &al.id);
                    match album_id_from_uri(album_uri.as_str()) {
                        Ok(aid) => Ok(single(Effect::OpenContextPage(ContextId::Album(aid)))),
                        Err(_) => {
                            let t = Track { id, name, album: Some(al), artists };
                            ui.popup = Some(PopupState::ActionList(ActionListItem::Track(t, actions), sel));
                            Err(PopupError::MalformedIdentifier)
                        },
                    }
                },
                None => {
                    let t = Track { id, name, album: None, artists };
                    ui.popup = Some(PopupState::ActionList(ActionListItem::Track(t, actions), sel));
                    Ok(none())
                },
            }
        },
        TrackAction::GoToArtist => {
            ui.popup = Some(PopupState::ArtistList(ArtistPopupAction::Browse, artists, new_list_state()));
            Ok(none())
        },
        TrackAction::AddToQueue => Ok(single(Effect::Send(ClientRequest::AddTrackToQueue(id)))),
        TrackAction::CopyTrackLink => {
            let mut effects = none();
            execute_copy_command(Link { kind: LinkKind::Track, id }, &mut effects);
            assert(effects@ =~= seq![Effect::CopyToClipboard(Link { kind: LinkKind::Track, id })]);
            Ok(effects)
        },
        TrackAction::AddToPlaylist => {
            ui.popup = Some(
                PopupState::UserPlaylistList(PlaylistPopupAction::AddTrack(id), new_list_state()),
            );
            Ok(single(Effect::Send(ClientRequest::GetUserPlaylists)))
        },
        TrackAction::AddToLikedTracks => {
            let t = Track { id, name, album, artists };
            Ok(single(Effect::Send(ClientRequest::AddToLibrary(Item::Track(t)))))
        },
        TrackAction::GoToTrackRadio => Ok(radio(LinkKind::Track, &id, name)),
        TrackAction::ShowActionsOnArtist => {
            ui.popup = Some(
                PopupState::ArtistList(ArtistPopupAction::ShowActions, artists, new_list_state()),
            );
            Ok(none())
        },
        TrackAction::ShowActionsOnAlbum => {
            match album {
                Some(al) => {
                    let album_actions = construct_album_actions(&al, data);
                    ui.popup = Some(
                        PopupState::ActionList(ActionListItem::Album(al, album_actions), new_list_state()),
                    );
                },
                None => {
                    let t = Track { id, name, album: None, artists };
                    ui.popup = Some(PopupState::ActionList(ActionListItem::Track(t, actions), sel));
                },
            }
            Ok(none())
        },
        TrackAction::DeleteFromLikedTracks => Ok(
            single(Effect::Send(ClientRequest::DeleteFromLibrary(ItemId::Track(id)))),
        ),
        TrackAction::DeleteFromCurrentPlaylist => {
            match &data.current_playlist_id {
                Some(pid) => Ok(
                    single(
                        Effect::Send(ClientRequest::DeleteTrackFromPlaylist(pid.clone(), id)),
                    ),
                ),
                None => Ok(none()),
            }
        },
    }
}

/// Carries out action `n` of the active action list popup: sets the
/// popup that follows and returns the effects, in order.
pub fn handle_item_action(n: usize, data: &LibrarySnapshot, ui: &mut UIState) -> (r: Result<
    Vec<Effect>,
    PopupError,
>)
    requires
        old(ui).popup matches Some(PopupState::ActionList(item, _)) ==> n < item.spec_n_actions(),
    ensures
        final(ui).theme == old(ui).theme,
        match old(ui).popup {
            Some(PopupState::ActionList(item, sel)) => {
                &&& r is Ok <==> !item_action_fails(item, n as int)
                &&& r is Ok ==> item_action_done(
                    item,
                    sel,
                    n as int,
                    *data,
                    final(ui).popup,
                    r->Ok_0@,
                )
                &&& r is Err ==> r == Err::<Vec<Effect>, PopupError>(
                    PopupError::MalformedIdentifier,
                ) && *final(ui) == *old(ui)
            },
            _ => r == Err::<Vec<Effect>, PopupError>(PopupError::InvariantViolation) && *final(ui)
                == *old(ui),
        },
{
    let popup = ui.popup.take();
    match popup {
        Some(PopupState::ActionList(item, sel)) => {
            match item {
                ActionListItem::Track(track, actions) => handle_track_action(
                    track,
                    actions,
                    sel,
                    n,
                    data,
                    ui,
                ),
                ActionListItem::Album(al, actions) => {
                    let Album { id, name, artists } = al;
                    match actions[n] {
                        AlbumAction::GoToArtist => {
                            ui.popup = Some(
                                PopupState::ArtistList(ArtistPopupAction::Browse, artists, new_list_state()),
                            );
                            Ok(none())
                        },
                        AlbumAction::GoToAlbumRadio => Ok(radio(LinkKind::Album, &id, name)),
                        AlbumAction::ShowActionsOnArtist => {
                            ui.popup = Some(
                                PopupState::ArtistList(
                                    ArtistPopupAction::ShowActions,
                                    artists,
                                    new_list_state(),
                                ),
                            );
                            Ok(none())
                        },
                        AlbumAction::CopyAlbumLink => {
                            let mut effects = none();
                            execute_copy_command(Link { kind: LinkKind::Album, id }, &mut effects);
                            assert(effects@ =~= seq![
                                Effect::CopyToClipboard(Link { kind: LinkKind::Album, id }),
                            ]);
                            Ok(effects)
                        },
                        AlbumAction::AddToLibrary => {
                            let al = Album { id, name, artists };
                            Ok(single(Effect::Send(ClientRequest::AddToLibrary(Item::Album(al)))))
                        },
                        AlbumAction::DeleteFromLibrary => Ok(
                            single(Effect::Send(ClientRequest::DeleteFromLibrary(ItemId::Album(id)))),
                        ),
                        AlbumAction::AddToQueue => Ok(
                            single(Effect::Send(ClientRequest::AddAlbumToQueue(id))),
                        ),
                    }
                },
                ActionListItem::Artist(a, actions) => {
                    match actions[n] {
                        ArtistAction::Follow => Ok(
                            single(Effect::Send(ClientRequest::AddToLibrary(Item::Artist(a)))),
                        ),
                        ArtistAction::GoToArtistRadio => Ok(radio(LinkKind::Artist, &a.id, a.name)),
                        ArtistAction::CopyArtistLink => {
                            let mut effects = none();
                            execute_copy_command(
                                Link { kind: LinkKind::Artist, id: a.id },
                                &mut effects,
                            );
                            assert(effects@ =~= seq![
                                Effect::CopyToClipboard(Link { kind: LinkKind::Artist, id: a.id }),
                            ]);
                            Ok(effects)
                        },
                        ArtistAction::Unfollow => Ok(
                            single(
                                Effect::Send(ClientRequest::DeleteFromLibrary(ItemId::Artist(a.id))),
                            ),
                        ),
                    }
                },
                ActionListItem::Playlist(p, actions) => {
                    match actions[n] {
                        PlaylistAction::AddToLibrary => Ok(
                            single(Effect::Send(ClientRequest::AddToLibrary(Item::Playlist(p)))),
                        ),
                        PlaylistAction::GoToPlaylistRadio => Ok(radio(LinkKind::Playlist, &p.id, p.name)),
                        PlaylistAction::CopyPlaylistLink => {
                            let mut effects = none();
                            execute_copy_command(
                                Link { kind: LinkKind::Playlist, id: p.id },
                                &mut effects,
                            );
                            assert(effects@ =~= seq![
                                Effect::CopyToClipboard(Link { kind: LinkKind::Playlist, id: p.id }),
                            ]);
                            Ok(effects)
                        },
                        PlaylistAction::DeleteFromLibrary => Ok(
                            single(
                                Effect::Send(
                                    ClientRequest::DeleteFromLibrary(ItemId::Playlist(p.id)),
                                ),
                            ),
                        ),
                    }
                },
            }
        },
        other => {
            ui.popup = other;
            Err(PopupError::InvariantViolation)
        },
    }
}

/// Among the actions derived for an artist, "unfollow" is offered only
/// when the user follows the artist; choosing it sends exactly one request,
/// to remove the artist from the library, closes the popup and opens no
/// page.
pub proof fn unfollow_from_derived_actions(
    artist: Artist,
    data: LibrarySnapshot,
    acts: Vec<ArtistAction>,
    sel: Option<usize>,
    n: int,
    popup: Option<PopupState>,
    effects: Seq<Effect>,
)
    requires
        acts@ == artist_actions(is_followed(artist, data)),
        0 <= n < acts@.len(),
        acts@[n] == ArtistAction::Unfollow,
        item_action_done(ActionListItem::Artist(artist, acts), sel, n, data, popup, effects),
    ensures
        is_followed(artist, data),
        !item_action_fails(ActionListItem::Artist(artist, acts), n),
        popup is None,
        effects == seq![Effect::Send(ClientRequest::DeleteFromLibrary(ItemId::Artist(artist.id)))],
        forall|i: int|
            0 <= i < effects.len() ==> !(effects[i] is OpenContextPage) && !(
            effects[i] is OpenRadioPage),
{
}

} // verus!
