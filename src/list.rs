use vstd::prelude::*;

use crate::model::{Command, PopupState};

verus! {

/// What the list protocol asks of the popup that owns the list.
#[derive(Clone, Copy, Debug, PartialEq, Eq, Structural)]
pub enum ListEvent {
    /// The command is not one of the list commands.
    Unhandled,
    /// The command was absorbed without effect (a move past either end,
    /// or a choice in an empty list).
    Absorbed,
    /// The selection moved to this index.
    Selected(usize),
    /// The item at this index was chosen.
    Chosen(usize),
    /// The popup is to be closed.
    Closed,
}

/// The index that a list popup's commands start from.
pub open spec fn current_index(p: PopupState) -> usize {
    match p.spec_list_selected() {
        Some(i) => i,
        None => 0,
    }
}

/// The event that `command` yields on a list of `n_items` items whose
/// cursor is at `current`.
pub open spec fn list_event(command: Command, current: usize, n_items: usize) -> ListEvent {
    match command {
        Command::SelectPreviousOrScrollUp => if current > 0 {
            ListEvent::Selected((current - 1) as usize)
        } else {
            ListEvent::Absorbed
        },
        Command::SelectNextOrScrollDown => if current + 1 < n_items {
            ListEvent::Selected((current + 1) as usize)
        } else {
            ListEvent::Absorbed
        },
        Command::ChooseSelected => if current < n_items {
            ListEvent::Chosen(current)
        } else {
            ListEvent::Absorbed
        },
        Command::ClosePopup => ListEvent::Closed,
        Command::Other => ListEvent::Unhandled,
    }
}

/// The popup after the list protocol ran `command` on it.
pub open spec fn list_after(p: PopupState, command: Command, n_items: usize) -> PopupState {
    match list_event(command, current_index(p), n_items) {
        ListEvent::Selected(i) => p.spec_with_selected(Some(i)),
        _ => p,
    }
}

/// Runs a list command on a list popup of `n_items` items: moves the
/// selection, and says which of the popup's callbacks is owed (select,
/// choose or close) through the returned event.
pub fn handle_command_for_list_popup(command: Command, popup: &mut PopupState, n_items: usize) -> (r:
    ListEvent)
    ensures
        r == list_event(command, current_index(*old(popup)), n_items),
        *final(popup) == list_after(*old(popup), command, n_items),
{
    let current_id = match popup.list_selected() {
        Some(i) => i,
        None => 0,
    };
    match command {
        Command::SelectPreviousOrScrollUp => {
            if current_id > 0 {
                popup.list_select(Some(current_id - 1));
                ListEvent::Selected(current_id - 1)
            } else {
                ListEvent::Absorbed
            }
        },
        Command::SelectNextOrScrollDown => {
            if n_items > 0 && current_id < n_items - 1 {
                popup.list_select(Some(current_id + 1));
                ListEvent::Selected(current_id + 1)
            } else {
                ListEvent::Absorbed
            }
        },
        Command::ChooseSelected => {
            if current_id < n_items {
                ListEvent::Chosen(current_id)
            } else {
                ListEvent::Absorbed
            }
        },
        Command::ClosePopup => ListEvent::Closed,
        Command::Other => ListEvent::Unhandled,
    }
}

/// Whether a popup is one of the list-shaped popups.
pub open spec fn is_list_popup(p: PopupState) -> bool {
    !(p is Search) && !(p is PlaylistCreate)
}

/// The popup after `k` `SelectNextOrScrollDown` commands.
pub open spec fn select_next_times(p: PopupState, n_items: usize, k: nat) -> PopupState
    decreases k,
{
    if k == 0 {
        p
    } else {
        list_after(
            select_next_times(p, n_items, (k - 1) as nat),
            Command::SelectNextOrScrollDown,
            n_items,
        )
    }
}

proof fn lemma_select_next_times(p: PopupState, n_items: usize, k: nat)
    requires
        p.spec_list_selected() == Some(0usize),
        k < n_items,
    ensures
        select_next_times(p, n_items, k) == p.spec_with_selected(Some(k as usize)),
    decreases k,
{
    if k > 0 {
        lemma_select_next_times(p, n_items, (k - 1) as nat);
    }
}

/// On any popup whose cursor is on the first of `n_items` items,
/// `n_items - 1` moves down reach the last item, and one more move down
/// is absorbed: it leaves the popup as it is and selects nothing.
pub proof fn select_next_reaches_last(p: PopupState, n_items: usize)
    requires
        p.spec_list_selected() == Some(0usize),
        n_items >= 1,
    ensures
        select_next_times(p, n_items, (n_items - 1) as nat).spec_list_selected() == Some(
            (n_items - 1) as usize,
        ),
        list_event(
            Command::SelectNextOrScrollDown,
            current_index(select_next_times(p, n_items, (n_items - 1) as nat)),
            n_items,
        ) == ListEvent::Absorbed,
        select_next_times(p, n_items, n_items as nat) == select_next_times(
            p,
            n_items,
            (n_items - 1) as nat,
        ),
{
    lemma_select_next_times(p, n_items, (n_items - 1) as nat);
}

/// Moving up from the first item is absorbed: the popup is unchanged
/// and no selection callback is owed.
pub proof fn select_previous_at_first_is_absorbed(p: PopupState, n_items: usize)
    requires
        current_index(p) == 0,
    ensures
        list_event(Command::SelectPreviousOrScrollUp, current_index(p), n_items)
            == ListEvent::Absorbed,
        list_after(p, Command::SelectPreviousOrScrollUp, n_items) == p,
{
}

/// The protocol never chooses an index outside the list, and never
/// selects one either.
pub proof fn list_events_stay_in_range(command: Command, current: usize, n_items: usize)
    ensures
        list_event(command, current, n_items) matches ListEvent::Chosen(i) ==> i < n_items,
        list_event(command, current, n_items) matches ListEvent::Selected(i) ==> i < n_items
            || (i < current && command == Command::SelectPreviousOrScrollUp),
{
}

} // verus!
