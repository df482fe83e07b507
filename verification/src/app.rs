//! The selection state machine.
//!
//! [`App`] owns the list of discovered virtual environments, a cursor into
//! that list, and the two-step delete-confirmation protocol.  Navigation
//! saturates at the ends of the list, a delete request opens a confirmation
//! dialog only when the list is non-empty, and a confirmed deletion removes
//! one entry while keeping the cursor inside the shrunken list.

use vstd::prelude::*;
use crate::scanner::VenvInfo;

verus! {

/// Where the cursor lands after one downward move.
pub open spec fn cursor_after_down(sel: int, len: int) -> int {
    if sel + 1 < len {
        sel + 1
    } else {
        sel
    }
}

/// Where the cursor lands after one upward move.
pub open spec fn cursor_after_up(sel: int) -> int {
    if sel > 0 {
        sel - 1
    } else {
        0
    }
}

/// The cursor after `n` successive downward moves from `sel` in a list of
/// `len` entries.
pub open spec fn down_n(sel: int, len: int, n: nat) -> int
    decreases n,
{
    if n == 0 {
        sel
    } else {
        cursor_after_down(down_n(sel, len, (n - 1) as nat), len)
    }
}

/// The cursor after `n` successive upward moves from `sel`.
pub open spec fn up_n(sel: int, n: nat) -> int
    decreases n,
{
    if n == 0 {
        sel
    } else {
        cursor_after_up(up_n(sel, (n - 1) as nat))
    }
}

proof fn lemma_down_n_value(sel: int, len: int, n: nat)
    requires
        0 < len,
        0 <= sel < len,
    ensures
        down_n(sel, len, n) == if sel + n < len {
            sel + n
        } else {
            len - 1
        },
    decreases n,
{
    if n > 0 {
        lemma_down_n_value(sel, len, (n - 1) as nat);
    }
}

proof fn lemma_down_n_empty(sel: int, n: nat)
    requires
        sel == 0,
    ensures
        down_n(sel, 0, n) == 0,
    decreases n,
{
    if n > 0 {
        lemma_down_n_empty(sel, (n - 1) as nat);
    }
}

proof fn lemma_up_n_value(sel: int, n: nat)
    requires
        0 <= sel,
    ensures
        up_n(sel, n) == if sel - n > 0 {
            sel - n
        } else {
            0int
        },
    decreases n,
{
    if n > 0 {
        lemma_up_n_value(sel, (n - 1) as nat);
    }
}

/// Law: any run of `n >= len - 1` downward moves saturates the cursor at
/// the last entry, and leaves it at the top when the list is empty —
/// whatever valid cursor it started from.
pub proof fn lemma_move_down_saturates(sel: int, len: int, n: nat)
    requires
        0 <= len,
        len == 0 ==> sel == 0,
        len > 0 ==> 0 <= sel < len,
        n >= len - 1,
    ensures
        down_n(sel, len, n) == if len == 0 {
            0int
        } else {
            len - 1
        },
{
    if len == 0 {
        lemma_down_n_empty(sel, n);
    } else {
        lemma_down_n_value(sel, len, n);
    }
}

/// Law: any run of `n >= sel` upward moves saturates the cursor at the
/// first entry, whatever cursor `sel` it started from.
pub proof fn lemma_move_up_saturates(sel: int, n: nat)
    requires
        0 <= sel,
        n >= sel,
    ensures
        up_n(sel, n) == 0,
{
    lemma_up_n_value(sel, n);
}

/// Where the cursor lands after the entry at `idx` has been removed and
/// `new_len` entries remain.  A cursor past the removed slot slides one
/// step left with the entries; a cursor on the removed slot stays put so
/// that it lands on the entry that now occupies the slot, unless the
/// removed entry was the last one, in which case the cursor moves to the
/// new last entry; an empty remainder resets the cursor to the top.
pub open spec fn cursor_after_removal(sel: int, idx: int, new_len: int) -> int {
    if new_len == 0 {
        0
    } else if sel > idx {
        sel - 1
    } else if sel == idx && sel >= new_len {
        new_len - 1
    } else {
        sel
    }
}

/// The interactive state: the entries, the cursor, and the confirmation
/// dialog of the two-step deletion protocol.
pub struct App {
    pub venvs: Vec<VenvInfo>,
    pub selected: usize,
    pub show_confirmation_dialog: bool,
    pub venv_to_delete_idx: Option<usize>,
}

impl App {
    /// Well-formedness: the cursor addresses an entry whenever there is
    /// one, is zero otherwise, and a pending deletion index exists only
    /// while the confirmation dialog is shown.
    pub open spec fn wf(self) -> bool {
        &&& self.venvs@.len() == 0 ==> self.selected == 0
        &&& self.venvs@.len() > 0 ==> (self.selected as int) < self.venvs@.len()
        &&& self.venv_to_delete_idx is Some ==> self.show_confirmation_dialog
    }

    /// A fresh state over the given entries: cursor at the top, no dialog.
    pub fn new(venvs: Vec<VenvInfo>) -> (r: App)
        ensures
            r.venvs@ == venvs@,
            r.selected == 0,
            !r.show_confirmation_dialog,
            r.venv_to_delete_idx is None,
            r.wf(),
    {
        App { venvs, selected: 0, show_confirmation_dialog: false, venv_to_delete_idx: None }
    }

    /// A deletion is pending and its captured index still addresses an
    /// entry, so a confirmation will remove that entry.
    pub open spec fn has_valid_pending(self) -> bool {
        &&& self.show_confirmation_dialog
        &&& self.venv_to_delete_idx is Some
        &&& (self.venv_to_delete_idx.unwrap() as int) < self.venvs@.len()
    }

    /// Ask to delete the entry under the cursor: opens the confirmation
    /// dialog and captures the cursor as the pending index.  On an empty
    /// list this changes nothing, so no dialog ever opens without an
    /// entry behind it.
    pub fn start_deletion(&mut self)
        requires
            old(self).wf(),
        ensures
            final(self).venvs@ == old(self).venvs@,
            final(self).selected == old(self).selected,
            old(self).venvs@.len() > 0 ==> final(self).show_confirmation_dialog
                && final(self).venv_to_delete_idx == Some(old(self).selected),
            old(self).venvs@.len() == 0 ==> *final(self) == *old(self),
            final(self).wf(),
    {
        if self.venvs.len() > 0 {
            self.show_confirmation_dialog = true;
            self.venv_to_delete_idx = Some(self.selected);
        }
    }

    /// Confirm the pending deletion.  If a deletion is pending and its
    /// index still addresses an entry, that entry is removed, its path is
    /// returned for the caller to act on, and the cursor is adjusted per
    /// [`cursor_after_removal`].  Otherwise nothing is removed.  Either
    /// way the dialog closes and the pending index is cleared.
    pub fn confirm_deletion(&mut self) -> (r: Option<String>)
        requires
            old(self).wf(),
        ensures
            !final(self).show_confirmation_dialog,
            final(self).venv_to_delete_idx is None,
            final(self).wf(),
            old(self).has_valid_pending() ==> ({
                let idx = old(self).venv_to_delete_idx.unwrap() as int;
                &&& final(self).venvs@ == old(self).venvs@.remove(idx)
                &&& r is Some
                &&& r.unwrap()@ == old(self).venvs@[idx].path@
                &&& final(self).selected as int == cursor_after_removal(
                    old(self).selected as int,
                    idx,
                    final(self).venvs@.len() as int,
                )
            }),
            !old(self).has_valid_pending() ==> r is None
                && final(self).venvs@ == old(self).venvs@
                && final(self).selected == old(self).selected,
    {
        if self.show_confirmation_dialog {
            if let Some(idx) = self.venv_to_delete_idx {
                if idx < self.venvs.len() {
                    let removed = self.venvs.remove(idx);
                    let removed_venv_path = removed.path;
                    self.show_confirmation_dialog = false;
                    self.venv_to_delete_idx = None;

                    let len: usize = self.venvs.len();
                    if len == 0 {
                        self.selected = 0;
                    } else if self.selected > idx {
                        self.selected = self.selected - 1;
                    } else if self.selected == idx && self.selected >= len {
                        self.selected = len - 1;
                    }
                    if self.selected >= len && len > 0 {
                        self.selected = len - 1;
                    }

                    return Some(removed_venv_path);
                }
            }
        }
        self.show_confirmation_dialog = false;
        self.venv_to_delete_idx = None;
        None
    }

    /// Dismiss the confirmation dialog without removing anything.
    pub fn cancel_deletion(&mut self)
        requires
            old(self).wf(),
        ensures
            final(self).venvs@ == old(self).venvs@,
            final(self).selected == old(self).selected,
            !final(self).show_confirmation_dialog,
            final(self).venv_to_delete_idx is None,
            final(self).wf(),
    {
        self.show_confirmation_dialog = false;
        self.venv_to_delete_idx = None;
    }

    /// Move the cursor one entry up, saturating at the first entry.
    pub fn previous(&mut self)
        requires
            old(self).wf(),
        ensures
            final(self).venvs@ == old(self).venvs@,
            final(self).show_confirmation_dialog == old(self).show_confirmation_dialog,
            final(self).venv_to_delete_idx == old(self).venv_to_delete_idx,
            final(self).selected as int == cursor_after_up(old(self).selected as int),
            final(self).wf(),
    {
        if self.selected > 0 {
            self.selected -= 1;
        }
    }

    /// Move the cursor one entry down, saturating at the last entry.
    pub fn next(&mut self)
        requires
            old(self).wf(),
        ensures
            final(self).venvs@ == old(self).venvs@,
            final(self).show_confirmation_dialog == old(self).show_confirmation_dialog,
            final(self).venv_to_delete_idx == old(self).venv_to_delete_idx,
            final(self).selected as int == cursor_after_down(
                old(self).selected as int,
                old(self).venvs@.len() as int,
            ),
            final(self).wf(),
    {
        let len: usize = self.venvs.len();
        if self.selected + 1 < len {
            self.selected += 1;
        }
    }
}

} // verus!
