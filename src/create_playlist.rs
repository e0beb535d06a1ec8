use vstd::prelude::*;

use crate::line_input::{LineInput, input_step};
use crate::model::{
    ClientRequest, Effect, Key, KeyCode, KeySequence, PlaylistCreateCurrentField, PopupError,
    PopupState, Response, UIState,
};

verus! {

/// Whether a text field can take one more key.
pub open spec fn field_ok(f: LineInput) -> bool {
    f.wf() && f.line@.len() < usize::MAX
}

pub open spec fn toggled(f: PlaylistCreateCurrentField) -> PlaylistCreateCurrentField {
    match f {
        PlaylistCreateCurrentField::Name => PlaylistCreateCurrentField::Desc,
        PlaylistCreateCurrentField::Desc => PlaylistCreateCurrentField::Name,
    }
}

/// Whether field `after` is field `before` edited by `key`, or unchanged
/// where `key` is no editing key; `consumed` says which.
pub open spec fn field_edited(before: LineInput, key: Key, after: LineInput, consumed: bool) -> bool {
    &&& after.wf()
    &&& consumed == input_step(before.line@, before.cursor as int, key) is Some
    &&& consumed ==> input_step(before.line@, before.cursor as int, key) == Some(
        (after.line@, after.cursor as int),
    )
    &&& !consumed ==> after == before
}

/// Whether `new` and `r` are the outcome of `keys` on the create-playlist
/// popup of `old`.
pub open spec fn create_playlist_done(
    old: UIState,
    keys: Seq<Key>,
    new: UIState,
    r: Result<Response, PopupError>,
) -> bool {
    match old.popup {
        Some(PopupState::PlaylistCreate { name, desc, current_field }) => r is Ok && new.theme
            == old.theme && if keys.len() != 1 {
            !r->Ok_0.handled && r->Ok_0.effects@ == Seq::<Effect>::empty() && new == old
        } else if keys[0] == Key::Plain(KeyCode::Enter) {
            &&& r->Ok_0.handled
            &&& new.popup is None
            &&& r->Ok_0.effects@.len() == 1
            &&& match r->Ok_0.effects@[0] {
                Effect::Send(
                    ClientRequest::CreatePlaylist { playlist_name, public, collab, desc: d },
                ) => playlist_name@ == name.line@ && d@ == desc.line@ && !public && !collab,
                _ => false,
            }
        } else if keys[0] == Key::Plain(KeyCode::Tab) || keys[0] == Key::Plain(KeyCode::BackTab) {
            &&& r->Ok_0.handled
            &&& r->Ok_0.effects@ == Seq::<Effect>::empty()
            &&& new.popup == Some(
                PopupState::PlaylistCreate { name, desc, current_field: toggled(current_field) },
            )
        } else {
            &&& r->Ok_0.effects@ == Seq::<Effect>::empty()
            &&& match new.popup {
                Some(PopupState::PlaylistCreate { name: n2, desc: d2, current_field: f2 }) => {
                    &&& f2 == current_field
                    &&& current_field == PlaylistCreateCurrentField::Name ==> d2 == desc
                        && field_edited(name, keys[0], n2, r->Ok_0.handled)
                    &&& current_field == PlaylistCreateCurrentField::Desc ==> n2 == name
                        && field_edited(desc, keys[0], d2, r->Ok_0.handled)
                },
                _ => false,
            }
        },
        _ => r == Err::<Response, PopupError>(PopupError::InvariantViolation) && new == old,
    }
}

/// Enter submits the new playlist, Tab and BackTab switch between the
/// name and description fields, and other keys edit the focused field.
pub fn handle_key_sequence_for_create_playlist_popup(key_sequence: &KeySequence, ui: &mut UIState) -> (r:
    Result<Response, PopupError>)
    requires
        old(ui).popup matches Some(PopupState::PlaylistCreate { name, desc, .. }) ==> field_ok(name)
            && field_ok(desc),
    ensures
        create_playlist_done(*old(ui), key_sequence.keys@, *final(ui), r),
{
    if !matches!(ui.popup, Some(PopupState::PlaylistCreate { .. })) {
        return Err(PopupError::InvariantViolation);
    }
    if key_sequence.keys.len() != 1 {
        return Ok(Response { handled: false, effects: Vec::new() });
    }
    let key = key_sequence.keys[0];
    if key == Key::Plain(KeyCode::Enter) {
        let popup = ui.popup.take();
        match popup {
            Some(PopupState::PlaylistCreate { name, desc, .. }) => {
                let request = ClientRequest::CreatePlaylist {
                    playlist_name: name.get_text(),
                    public: false,
                    collab: false,
                    desc: desc.get_text(),
                };
                let effects = vec![Effect::Send(request)];
                Ok(Response { handled: true, effects })
            },
            other => {
                ui.popup = other;
                Err(PopupError::InvariantViolation)
            },
        }
    } else {
        match &mut ui.popup {
            Some(PopupState::PlaylistCreate { name, desc, current_field }) => {
                if key == Key::Plain(KeyCode::Tab) || key == Key::Plain(KeyCode::BackTab) {
                    *current_field = match current_field {
                        PlaylistCreateCurrentField::Name => PlaylistCreateCurrentField::Desc,
                        PlaylistCreateCurrentField::Desc => PlaylistCreateCurrentField::Name,
                    };
                    Ok(Response { handled: true, effects: Vec::new() })
                } else {
                    let consumed = match current_field {
                        PlaylistCreateCurrentField::Name => name.input(&key),
                        PlaylistCreateCurrentField::Desc => desc.input(&key),
                    };
                    Ok(Response { handled: consumed, effects: Vec::new() })
                }
            },
            _ => Err(PopupError::InvariantViolation),
        }
    }
}

} // verus!
