use player_popup::actions::{construct_album_actions, construct_artist_actions, handle_item_action};
use player_popup::line_input::LineInput;
use player_popup::list::{handle_command_for_list_popup, ListEvent};
use player_popup::model::{
    ActionListItem, Album, AlbumAction, Artist, ArtistAction, ArtistPopupAction, ClientRequest,
    Command, ContextId, Device, Effect, Item, ItemId, Key, KeyCode, KeySequence, LibrarySnapshot,
    Link, LinkKind, Playlist, PlaylistAction, PlaylistCreateCurrentField, PlaylistPopupAction,
    PopupError, PopupState, Theme, TrackAction, Track, UIState,
};
use player_popup::model::spotify_uri;
use player_popup::popup::handle_key_sequence_for_popup;

fn s(x: &str) -> String {
    x.to_string()
}

fn artist(id: &str) -> Artist {
    Artist { id: s(id), name: format!("artist {}", id) }
}

fn album(id: &str) -> Album {
    Album {
        id: s(id),
        name: format!("album {}", id),
        artists: vec![artist("ar1")],
    }
}

fn track(id: &str) -> Track {
    Track {
        id: s(id),
        name: format!("track {}", id),
        album: Some(album("al1")),
        artists: vec![artist("ar1"), artist("ar2")],
    }
}

fn playlist(id: &str) -> Playlist {
    Playlist { id: s(id), name: format!("pl {}", id) }
}

fn empty_data() -> LibrarySnapshot {
    LibrarySnapshot {
        playlists: vec![],
        modifiable_playlist_ids: vec![],
        followed_artists: vec![],
        saved_albums: vec![],
        devices: vec![],
        is_playing: false,
        current_playlist_id: None,
    }
}

fn theme(name: &str) -> Theme {
    Theme { name: s(name) }
}

fn ui_with(popup: PopupState) -> UIState {
    UIState { popup: Some(popup), theme: theme("default") }
}

fn keys(k: &[Key]) -> KeySequence {
    KeySequence { keys: k.to_vec() }
}

fn ch(c: char) -> KeySequence {
    keys(&[Key::Plain(KeyCode::Char(c))])
}

fn no_keys() -> KeySequence {
    keys(&[Key::Plain(KeyCode::Other)])
}

fn run(ui: &mut UIState, k: &KeySequence, command: Option<Command>, data: &LibrarySnapshot) -> (bool, Vec<Effect>) {
    let r = handle_key_sequence_for_popup(k, command, data, ui).unwrap();
    (r.handled, r.effects)
}

fn selection(ui: &UIState) -> Option<usize> {
    ui.popup.as_ref().unwrap().list_selected()
}

#[test]
fn digit_shortcut_adds_track_to_queue() {
    let t = track("t1");
    let item = ActionListItem::Track(
        t.clone(),
        vec![TrackAction::GoToAlbum, TrackAction::AddToQueue, TrackAction::CopyTrackLink],
    );
    let mut ui = ui_with(PopupState::ActionList(item, Some(0)));
    let (handled, effects) = run(&mut ui, &ch('1'), None, &empty_data());
    assert!(handled);
    assert_eq!(effects, vec![Effect::Send(ClientRequest::AddTrackToQueue(s("t1")))]);
    assert!(ui.popup.is_none());
}

#[test]
fn digit_shortcut_out_of_range_is_unhandled() {
    let item = ActionListItem::Track(track("t1"), vec![TrackAction::AddToQueue]);
    let mut ui = ui_with(PopupState::ActionList(item.clone(), Some(0)));
    let (handled, effects) = run(&mut ui, &ch('3'), None, &empty_data());
    assert!(!handled);
    assert!(effects.is_empty());
    assert_eq!(ui.popup, Some(PopupState::ActionList(item, Some(0))));
}

#[test]
fn keymap_command_wins_over_digit() {
    let item = ActionListItem::Track(track("t1"), vec![TrackAction::AddToQueue, TrackAction::CopyTrackLink]);
    let mut ui = ui_with(PopupState::ActionList(item, Some(0)));
    let (handled, effects) = run(&mut ui, &ch('1'), Some(Command::SelectNextOrScrollDown), &empty_data());
    assert!(handled);
    assert!(effects.is_empty());
    assert_eq!(selection(&ui), Some(1));
}

#[test]
fn search_typing_appends_and_resets_page() {
    let mut ui = ui_with(PopupState::Search { query: String::new() });
    let data = empty_data();
    let (h1, e1) = run(&mut ui, &ch('a'), None, &data);
    let (h2, e2) = run(&mut ui, &ch('b'), None, &data);
    assert!(h1 && h2);
    assert_eq!(e1, vec![Effect::ResetPageSelection]);
    assert_eq!(e2, vec![Effect::ResetPageSelection]);
    assert_eq!(ui.popup, Some(PopupState::Search { query: s("ab") }));
}

#[test]
fn search_backspace_and_forwarding() {
    let mut ui = ui_with(PopupState::Search { query: s("ab") });
    let data = empty_data();
    let (h, e) = run(&mut ui, &keys(&[Key::Plain(KeyCode::Backspace)]), None, &data);
    assert!(h);
    assert_eq!(e, vec![Effect::ResetPageSelection]);
    assert_eq!(ui.popup, Some(PopupState::Search { query: s("a") }));
    let mut empty = ui_with(PopupState::Search { query: String::new() });
    let (h, e) = run(&mut empty, &keys(&[Key::Plain(KeyCode::Backspace)]), None, &data);
    assert!(h);
    assert!(e.is_empty());
    let (h, e) = run(&mut ui, &keys(&[Key::Plain(KeyCode::Esc)]), Some(Command::ClosePopup), &data);
    assert!(!h);
    assert_eq!(e, vec![Effect::ForwardToPage]);
    assert_eq!(ui.popup, Some(PopupState::Search { query: s("a") }));
}

#[test]
fn create_playlist_tab_type_enter() {
    let mut ui = ui_with(PopupState::PlaylistCreate {
        name: LineInput::new(),
        desc: LineInput::new(),
        current_field: PlaylistCreateCurrentField::Name,
    });
    let data = empty_data();
    let (h, _) = run(&mut ui, &keys(&[Key::Plain(KeyCode::Tab)]), None, &data);
    assert!(h);
    let (h, _) = run(&mut ui, &ch('x'), None, &data);
    assert!(h);
    match &ui.popup {
        Some(PopupState::PlaylistCreate { name, desc, current_field }) => {
            assert_eq!(*current_field, PlaylistCreateCurrentField::Desc);
            assert!(name.line.is_empty());
            assert_eq!(desc.line, vec!['x']);
        }
        _ => panic!("expected the create-playlist popup"),
    }
    let (h, effects) = run(&mut ui, &keys(&[Key::Plain(KeyCode::Enter)]), None, &data);
    assert!(h);
    assert_eq!(
        effects,
        vec![Effect::Send(ClientRequest::CreatePlaylist {
            playlist_name: vec![],
            public: false,
            collab: false,
            desc: vec!['x'],
        })]
    );
    assert!(ui.popup.is_none());
}

#[test]
fn create_playlist_ignores_non_editing_keys() {
    let mut ui = ui_with(PopupState::PlaylistCreate {
        name: LineInput::new(),
        desc: LineInput::new(),
        current_field: PlaylistCreateCurrentField::Name,
    });
    let (h, e) = run(&mut ui, &keys(&[Key::Alt(KeyCode::Char('q'))]), None, &empty_data());
    assert!(!h);
    assert!(e.is_empty());
    let (h, _) = run(&mut ui, &keys(&[Key::Plain(KeyCode::BackTab)]), None, &empty_data());
    assert!(h);
    match &ui.popup {
        Some(PopupState::PlaylistCreate { current_field, .. }) => {
            assert_eq!(*current_field, PlaylistCreateCurrentField::Desc)
        }
        _ => panic!("expected the create-playlist popup"),
    }
}

#[test]
fn line_input_edits() {
    let mut f = LineInput::new();
    assert!(f.input(&Key::Plain(KeyCode::Char('a'))));
    assert!(f.input(&Key::Plain(KeyCode::Char('c'))));
    assert!(f.input(&Key::Plain(KeyCode::Left)));
    assert!(f.input(&Key::Plain(KeyCode::Char('b'))));
    assert_eq!(f.get_text(), vec!['a', 'b', 'c']);
    assert!(f.input(&Key::Plain(KeyCode::Home)));
    assert!(f.input(&Key::Plain(KeyCode::Delete)));
    assert_eq!(f.line, vec!['b', 'c']);
    assert!(f.input(&Key::Ctrl(KeyCode::Char('e'))));
    assert!(f.input(&Key::Plain(KeyCode::Backspace)));
    assert_eq!(f.line, vec!['b']);
    assert_eq!(f.cursor, 1);
    assert!(!f.input(&Key::Plain(KeyCode::Esc)));
}

#[test]
fn theme_list_previews_and_reverts() {
    let themes = vec![theme("A"), theme("B"), theme("C")];
    let mut ui = ui_with(PopupState::ThemeList(themes, Some(0)));
    let data = empty_data();
    let (h, _) = run(&mut ui, &no_keys(), Some(Command::SelectNextOrScrollDown), &data);
    assert!(h);
    assert_eq!(ui.theme, theme("B"));
    assert_eq!(selection(&ui), Some(1));
    let (h, _) = run(&mut ui, &no_keys(), Some(Command::ClosePopup), &data);
    assert!(h);
    assert_eq!(ui.theme, theme("A"));
    assert!(ui.popup.is_none());
}

#[test]
fn theme_list_choose_keeps_preview() {
    let themes = vec![theme("A"), theme("B")];
    let mut ui = ui_with(PopupState::ThemeList(themes, Some(0)));
    let data = empty_data();
    run(&mut ui, &no_keys(), Some(Command::SelectNextOrScrollDown), &data);
    let (h, e) = run(&mut ui, &no_keys(), Some(Command::ChooseSelected), &data);
    assert!(h);
    assert!(e.is_empty());
    assert_eq!(ui.theme, theme("B"));
    assert!(ui.popup.is_none());
}

#[test]
fn select_next_reaches_last_then_stops() {
    let artists = vec![artist("a"), artist("b"), artist("c"), artist("d")];
    let mut ui = ui_with(PopupState::ArtistList(ArtistPopupAction::Browse, artists, Some(0)));
    let data = empty_data();
    for _ in 0..3 {
        run(&mut ui, &no_keys(), Some(Command::SelectNextOrScrollDown), &data);
    }
    assert_eq!(selection(&ui), Some(3));
    let before = ui.clone();
    let (h, e) = run(&mut ui, &no_keys(), Some(Command::SelectNextOrScrollDown), &data);
    assert!(h);
    assert!(e.is_empty());
    assert_eq!(ui, before);
}

#[test]
fn select_previous_at_first_is_noop() {
    let mut p = PopupState::ThemeList(vec![theme("A"), theme("B")], Some(0));
    let ev = handle_command_for_list_popup(Command::SelectPreviousOrScrollUp, &mut p, 2);
    assert_eq!(ev, ListEvent::Absorbed);
    assert_eq!(p.list_selected(), Some(0));
    let mut ui = ui_with(PopupState::ThemeList(vec![theme("A"), theme("B")], Some(0)));
    let (h, _) = run(&mut ui, &no_keys(), Some(Command::SelectPreviousOrScrollUp), &empty_data());
    assert!(h);
    assert_eq!(ui.theme, theme("default"));
}

#[test]
fn list_protocol_events() {
    let mut p = PopupState::DeviceList(Some(1));
    assert_eq!(handle_command_for_list_popup(Command::SelectPreviousOrScrollUp, &mut p, 3), ListEvent::Selected(0));
    assert_eq!(handle_command_for_list_popup(Command::ChooseSelected, &mut p, 3), ListEvent::Chosen(0));
    assert_eq!(handle_command_for_list_popup(Command::ClosePopup, &mut p, 3), ListEvent::Closed);
    assert_eq!(handle_command_for_list_popup(Command::Other, &mut p, 3), ListEvent::Unhandled);
    let mut empty = PopupState::DeviceList(Some(0));
    assert_eq!(handle_command_for_list_popup(Command::ChooseSelected, &mut empty, 0), ListEvent::Absorbed);
}

#[test]
fn close_clears_every_list_popup() {
    let data = LibrarySnapshot { devices: vec![Device { id: s("d"), name: s("dev") }], ..empty_data() };
    let popups = vec![
        PopupState::ActionList(ActionListItem::Artist(artist("a"), vec![ArtistAction::Follow]), Some(0)),
        PopupState::ArtistList(ArtistPopupAction::ShowActions, vec![artist("a")], Some(0)),
        PopupState::UserPlaylistList(PlaylistPopupAction::Browse, Some(0)),
        PopupState::UserPlaylistList(PlaylistPopupAction::AddTrack(s("t")), Some(0)),
        PopupState::UserFollowedArtistList(Some(0)),
        PopupState::UserSavedAlbumList(Some(0)),
        PopupState::ThemeList(vec![theme("A")], Some(0)),
        PopupState::DeviceList(Some(0)),
    ];
    for p in popups {
        let mut ui = ui_with(p);
        let (h, e) = run(&mut ui, &no_keys(), Some(Command::ClosePopup), &data);
        assert!(h);
        assert!(e.is_empty());
        assert!(ui.popup.is_none());
    }
}

#[test]
fn unfollow_from_derived_artist_actions() {
    let a = artist("ar9");
    let data = LibrarySnapshot { followed_artists: vec![artist("ar9")], ..empty_data() };
    let actions = construct_artist_actions(&a, &data);
    assert_eq!(actions, vec![ArtistAction::GoToArtistRadio, ArtistAction::CopyArtistLink, ArtistAction::Unfollow]);
    let mut ui = ui_with(PopupState::ActionList(ActionListItem::Artist(a, actions), Some(0)));
    let effects = handle_item_action(2, &data, &mut ui).unwrap();
    assert_eq!(effects, vec![Effect::Send(ClientRequest::DeleteFromLibrary(ItemId::Artist(s("ar9"))))]);
    assert!(ui.popup.is_none());
}

#[test]
fn derived_actions_for_unfollowed_artist_and_unsaved_album() {
    let data = empty_data();
    assert_eq!(
        construct_artist_actions(&artist("x"), &data),
        vec![ArtistAction::GoToArtistRadio, ArtistAction::CopyArtistLink, ArtistAction::Follow]
    );
    assert_eq!(*construct_album_actions(&album("y"), &data).last().unwrap(), AlbumAction::AddToLibrary);
    let saved = LibrarySnapshot { saved_albums: vec![album("y")], ..empty_data() };
    assert_eq!(*construct_album_actions(&album("y"), &saved).last().unwrap(), AlbumAction::DeleteFromLibrary);
}

#[test]
fn links_have_canonical_urls() {
    assert_eq!(Link { kind: LinkKind::Track, id: s("abc") }.url(), "https://open.spotify.com/track/abc");
    assert_eq!(Link { kind: LinkKind::Album, id: s("x1") }.url(), "https://open.spotify.com/album/x1");
    assert_eq!(Link { kind: LinkKind::Artist, id: s("q") }.url(), "https://open.spotify.com/artist/q");
    assert_eq!(Link { kind: LinkKind::Playlist, id: s("p") }.url(), "https://open.spotify.com/playlist/p");
}

#[test]
fn copy_link_actions() {
    let item = ActionListItem::Playlist(playlist("plb"), vec![PlaylistAction::CopyPlaylistLink]);
    let mut ui = ui_with(PopupState::ActionList(item, Some(0)));
    let effects = handle_item_action(0, &empty_data(), &mut ui).unwrap();
    assert_eq!(effects, vec![Effect::CopyToClipboard(Link { kind: LinkKind::Playlist, id: s("plb") })]);
    assert!(ui.popup.is_none());
}

#[test]
fn go_to_album_parses_album_uri() {
    let item = ActionListItem::Track(track("t1"), vec![TrackAction::GoToAlbum]);
    let mut ui = ui_with(PopupState::ActionList(item, Some(0)));
    let effects = handle_item_action(0, &empty_data(), &mut ui).unwrap();
    assert_eq!(effects, vec![Effect::OpenContextPage(ContextId::Album(s("al1")))]);
    assert!(ui.popup.is_none());
}

#[test]
fn go_to_album_with_malformed_uri_fails_and_keeps_popup() {
    let mut t = track("t1");
    t.album.as_mut().unwrap().id = s("not an id");
    let item = ActionListItem::Track(t, vec![TrackAction::GoToAlbum]);
    let mut ui = ui_with(PopupState::ActionList(item, Some(0)));
    let before = ui.clone();
    let r = handle_item_action(0, &empty_data(), &mut ui);
    assert_eq!(r.err(), Some(PopupError::MalformedIdentifier));
    assert_eq!(ui, before);
}

#[test]
fn no_popup_is_an_invariant_violation() {
    let mut ui = UIState { popup: None, theme: theme("default") };
    let r = handle_key_sequence_for_popup(&ch('a'), None, &empty_data(), &mut ui);
    assert_eq!(r.err(), Some(PopupError::InvariantViolation));
    let r = handle_item_action(0, &empty_data(), &mut ui);
    assert_eq!(r.err(), Some(PopupError::InvariantViolation));
}

#[test]
fn browsing_followed_artist_opens_its_page() {
    let data = LibrarySnapshot { followed_artists: vec![artist("a1"), artist("a2")], ..empty_data() };
    let mut ui = ui_with(PopupState::UserFollowedArtistList(Some(1)));
    let (h, effects) = run(&mut ui, &no_keys(), Some(Command::ChooseSelected), &data);
    assert!(h);
    assert_eq!(effects, vec![Effect::OpenContextPage(ContextId::Artist(s("a2")))]);
    assert!(ui.popup.is_none());
}

#[test]
fn browsing_playlist_and_album_lists() {
    let data = LibrarySnapshot {
        playlists: vec![playlist("pla")],
        saved_albums: vec![album("b2")],
        ..empty_data()
    };
    let mut ui = ui_with(PopupState::UserPlaylistList(PlaylistPopupAction::Browse, Some(0)));
    let (_, effects) = run(&mut ui, &no_keys(), Some(Command::ChooseSelected), &data);
    assert_eq!(effects, vec![Effect::OpenContextPage(ContextId::Playlist(s("pla")))]);
    let mut ui = ui_with(PopupState::UserSavedAlbumList(Some(0)));
    let (_, effects) = run(&mut ui, &no_keys(), Some(Command::ChooseSelected), &data);
    assert_eq!(effects, vec![Effect::OpenContextPage(ContextId::Album(s("b2")))]);
}

#[test]
fn browsing_malformed_playlist_uri_fails() {
    let bad = playlist("pl-a");
    let data = LibrarySnapshot { playlists: vec![bad], ..empty_data() };
    let mut ui = ui_with(PopupState::UserPlaylistList(PlaylistPopupAction::Browse, Some(0)));
    let r = handle_key_sequence_for_popup(&no_keys(), Some(Command::ChooseSelected), &data, &mut ui);
    assert_eq!(r.err(), Some(PopupError::MalformedIdentifier));
    assert!(ui.popup.is_some());
}

#[test]
fn add_track_to_chosen_playlist() {
    let data = LibrarySnapshot { modifiable_playlist_ids: vec![s("m0"), s("m1")], ..empty_data() };
    let mut ui = ui_with(PopupState::UserPlaylistList(PlaylistPopupAction::AddTrack(s("t5")), Some(1)));
    let (h, effects) = run(&mut ui, &no_keys(), Some(Command::ChooseSelected), &data);
    assert!(h);
    assert_eq!(effects, vec![Effect::Send(ClientRequest::AddTrackToPlaylist(s("m1"), s("t5")))]);
    assert!(ui.popup.is_none());
}

#[test]
fn device_choice_transfers_playback() {
    let data = LibrarySnapshot {
        devices: vec![Device { id: s("d0"), name: s("a") }, Device { id: s("d1"), name: s("b") }],
        is_playing: true,
        ..empty_data()
    };
    let mut ui = ui_with(PopupState::DeviceList(Some(0)));
    run(&mut ui, &no_keys(), Some(Command::SelectNextOrScrollDown), &data);
    let (_, effects) = run(&mut ui, &no_keys(), Some(Command::ChooseSelected), &data);
    assert_eq!(effects, vec![Effect::Send(ClientRequest::TransferPlayback(s("d1"), true))]);
    assert!(ui.popup.is_none());
}

#[test]
fn artist_list_show_actions_opens_action_list() {
    let data = LibrarySnapshot { followed_artists: vec![artist("b")], ..empty_data() };
    let mut ui = ui_with(PopupState::ArtistList(ArtistPopupAction::ShowActions, vec![artist("a"), artist("b")], Some(1)));
    let (h, effects) = run(&mut ui, &no_keys(), Some(Command::ChooseSelected), &data);
    assert!(h);
    assert!(effects.is_empty());
    assert_eq!(
        ui.popup,
        Some(PopupState::ActionList(
            ActionListItem::Artist(artist("b"), vec![ArtistAction::GoToArtistRadio, ArtistAction::CopyArtistLink, ArtistAction::Unfollow]),
            Some(0)
        ))
    );
}

#[test]
fn track_actions_outcomes() {
    let data = LibrarySnapshot { current_playlist_id: Some(s("cur")), ..empty_data() };
    let t = track("t1");
    let all = vec![
        TrackAction::GoToArtist,
        TrackAction::AddToPlaylist,
        TrackAction::AddToLikedTracks,
        TrackAction::GoToTrackRadio,
        TrackAction::DeleteFromLikedTracks,
        TrackAction::DeleteFromCurrentPlaylist,
        TrackAction::ShowActionsOnAlbum,
    ];
    let mut outs = vec![];
    for n in 0..all.len() {
        let mut ui = ui_with(PopupState::ActionList(ActionListItem::Track(t.clone(), all.clone()), Some(0)));
        let effects = handle_item_action(n, &data, &mut ui).unwrap();
        outs.push((effects, ui.popup));
    }
    assert_eq!(outs[0].1, Some(PopupState::ArtistList(ArtistPopupAction::Browse, t.artists.clone(), Some(0))));
    assert_eq!(outs[1].0, vec![Effect::Send(ClientRequest::GetUserPlaylists)]);
    assert_eq!(outs[1].1, Some(PopupState::UserPlaylistList(PlaylistPopupAction::AddTrack(s("t1")), Some(0))));
    assert_eq!(outs[2].0, vec![Effect::Send(ClientRequest::AddToLibrary(Item::Track(t.clone())))]);
    assert_eq!(
        outs[3].0,
        vec![
            Effect::OpenRadioPage(s("spotify:track:t1")),
            Effect::Send(ClientRequest::GetRadioTracks { seed_uri: s("spotify:track:t1"), seed_name: s("track t1") }),
        ]
    );
    assert_eq!(outs[4].0, vec![Effect::Send(ClientRequest::DeleteFromLibrary(ItemId::Track(s("t1"))))]);
    assert_eq!(outs[5].0, vec![Effect::Send(ClientRequest::DeleteTrackFromPlaylist(s("cur"), s("t1")))]);
    assert!(outs[5].1.is_none());
    match &outs[6].1 {
        Some(PopupState::ActionList(ActionListItem::Album(al, acts), Some(0))) => {
            assert_eq!(al.id, "al1");
            assert_eq!(acts.len(), 6);
        }
        _ => panic!("expected an album action list"),
    }
}

#[test]
fn album_actions_outcomes() {
    let al = album("b1");
    let acts = vec![AlbumAction::AddToQueue, AlbumAction::AddToLibrary, AlbumAction::DeleteFromLibrary, AlbumAction::ShowActionsOnArtist];
    let expected = vec![
        vec![Effect::Send(ClientRequest::AddAlbumToQueue(s("b1")))],
        vec![Effect::Send(ClientRequest::AddToLibrary(Item::Album(al.clone())))],
        vec![Effect::Send(ClientRequest::DeleteFromLibrary(ItemId::Album(s("b1"))))],
        vec![],
    ];
    for n in 0..acts.len() {
        let mut ui = ui_with(PopupState::ActionList(ActionListItem::Album(al.clone(), acts.clone()), Some(0)));
        let effects = handle_item_action(n, &empty_data(), &mut ui).unwrap();
        assert_eq!(effects, expected[n]);
    }
}

#[test]
fn digit_followed_by_another_key_is_no_shortcut() {
    let item = ActionListItem::Track(track("t1"), vec![TrackAction::AddToQueue, TrackAction::CopyTrackLink]);
    let mut ui = ui_with(PopupState::ActionList(item.clone(), Some(0)));
    let k = keys(&[Key::Plain(KeyCode::Char('1')), Key::Plain(KeyCode::Char('x'))]);
    let (handled, effects) = run(&mut ui, &k, None, &empty_data());
    assert!(!handled);
    assert!(effects.is_empty());
    assert_eq!(ui.popup, Some(PopupState::ActionList(item, Some(0))));
}

#[test]
fn uris_are_built_from_ids() {
    assert_eq!(spotify_uri(LinkKind::Track, &s("abc")), "spotify:track:abc");
    assert_eq!(spotify_uri(LinkKind::Album, &s("x1")), "spotify:album:x1");
    assert_eq!(spotify_uri(LinkKind::Artist, &s("q")), "spotify:artist:q");
    assert_eq!(spotify_uri(LinkKind::Playlist, &s("p")), "spotify:playlist:p");
}

#[test]
fn radio_seed_comes_from_the_id() {
    let item = ActionListItem::Artist(artist("ar7"), vec![ArtistAction::GoToArtistRadio]);
    let mut ui = ui_with(PopupState::ActionList(item, Some(0)));
    let effects = handle_item_action(0, &empty_data(), &mut ui).unwrap();
    assert_eq!(
        effects,
        vec![
            Effect::OpenRadioPage(s("spotify:artist:ar7")),
            Effect::Send(ClientRequest::GetRadioTracks { seed_uri: s("spotify:artist:ar7"), seed_name: s("artist ar7") }),
        ]
    );
    assert!(ui.popup.is_none());
}
