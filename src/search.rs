use vstd::prelude::*;

use crate::model::{Effect, Key, KeyCode, KeySequence, PopupError, PopupState, Response, UIState};

verus! {

/// Relies on std's `String::push`: appends the character.
#[verifier::external_body]
fn push_char(s: &mut String, c: char)
    ensures
        final(s)@ == old(s)@.push(c),
{
    s.push(c)
}

/// Relies on std's `String::pop`: removes and returns the last character,
/// or returns `None` on an empty string.
#[verifier::external_body]
fn pop_char(s: &mut String) -> (r: Option<char>)
    ensures
        old(s)@.len() == 0 ==> r is None && final(s)@ == old(s)@,
        old(s)@.len() > 0 ==> r == Some(old(s)@.last()) && final(s)@ == old(s)@.drop_last(),
{
    s.pop()
}

/// The query after a key sequence on the search popup, and whether the
/// page's cursor is reset; `None` when the popup does not take the keys.
pub open spec fn search_edit(query: Seq<char>, keys: Seq<Key>) -> Option<(Seq<char>, bool)> {
    if keys.len() == 1 {
        match keys[0] {
            Key::Plain(KeyCode::Char(c)) => Some((query.push(c), true)),
            Key::Plain(KeyCode::Backspace) => if query.len() > 0 {
                Some((query.drop_last(), true))
            } else {
                Some((query, false))
            },
            _ => None,
        }
    } else {
        None
    }
}

/// Whether `new` and `r` are the outcome of `keys` on the search popup
/// of `old`.
pub open spec fn search_done(
    old: UIState,
    keys: Seq<Key>,
    new: UIState,
    r: Result<Response, PopupError>,
) -> bool {
    match old.popup {
        Some(PopupState::Search { query }) => r is Ok && new.theme == old.theme && match search_edit(
            query@,
            keys,
        ) {
            Some((q, reset)) => {
                &&& r->Ok_0.handled
                &&& r->Ok_0.effects@ == (if reset {
                    seq![Effect::ResetPageSelection]
                } else {
                    Seq::<Effect>::empty()
                })
                &&& new.popup matches Some(PopupState::Search { query: nq }) && nq@ == q
            },
            None => {
                &&& !r->Ok_0.handled
                &&& r->Ok_0.effects@ == seq![Effect::ForwardToPage]
                &&& new == old
            },
        },
        _ => r == Err::<Response, PopupError>(PopupError::InvariantViolation) && new == old,
    }
}

/// Edits the search query with a typed character or Backspace; other keys
/// go on to the current page.
pub fn handle_key_sequence_for_search_popup(key_sequence: &KeySequence, ui: &mut UIState) -> (r:
    Result<Response, PopupError>)
    ensures
        search_done(*old(ui), key_sequence.keys@, *final(ui), r),
{
    let query = match &mut ui.popup {
        Some(PopupState::Search { query }) => query,
        _ => {
            return Err(PopupError::InvariantViolation);
        },
    };
    if key_sequence.keys.len() == 1 {
        match key_sequence.keys[0] {
            Key::Plain(KeyCode::Char(c)) => {
                push_char(query, c);
                let effects = vec![Effect::ResetPageSelection];
                assert(effects@ =~= seq![Effect::ResetPageSelection]);
                return Ok(Response { handled: true, effects });
            },
            Key::Plain(KeyCode::Backspace) => {
                let mut effects: Vec<Effect> = Vec::new();
                if pop_char(query).is_some() {
                    effects.push(Effect::ResetPageSelection);
                    assert(effects@ =~= seq![Effect::ResetPageSelection]);
                }
                return Ok(Response { handled: true, effects });
            },
            _ => {},
        }
    }
    let effects = vec![Effect::ForwardToPage];
    assert(effects@ =~= seq![Effect::ForwardToPage]);
    Ok(Response { handled: false, effects })
}

} // verus!
