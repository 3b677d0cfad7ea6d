//! The key presses the application reacts to. The terminal layer translates
//! raw terminal input into this type before handing it to the state machine;
//! anything the application has no binding for arrives as `Other`.

use vstd::prelude::*;

verus! {

/// A key press, as seen by the input router.
#[derive(Debug, Clone, Copy, PartialEq, Eq, Structural)]
pub enum Key {
    /// A printable character key.
    Char(char),
    /// The tab key.
    Tab,
    /// Shift together with tab.
    BackTab,
    /// The up arrow.
    Up,
    /// The down arrow.
    Down,
    /// The home key.
    Home,
    /// The end key.
    End,
    /// A function key, by number.
    F(u8),
    /// Any key without a binding.
    Other,
}

/// The keys that move a list selection.
pub open spec fn is_nav_key(k: Key) -> bool {
    k == Key::Down || k == Key::Char('j') || k == Key::Up || k == Key::Char('k') || k == Key::Home
        || k == Key::Char('g') || k == Key::End || k == Key::Char('G')
}

/// Where one navigation key moves a selection of `sel` within a list of
/// `total` items: down moves forward by one, clamped to the last valid
/// index; up moves back by one, clamped to the first; home jumps to the
/// first; end jumps to the last. Any other key leaves the selection alone,
/// as does end on an empty list.
pub open spec fn nav_index(k: Key, sel: nat, total: nat) -> nat {
    if k == Key::Down || k == Key::Char('j') {
        if total > 0 && sel + 1 < total {
            sel + 1
        } else {
            sel
        }
    } else if k == Key::Up || k == Key::Char('k') {
        if sel > 0 {
            (sel - 1) as nat
        } else {
            0
        }
    } else if k == Key::Home || k == Key::Char('g') {
        0
    } else if k == Key::End || k == Key::Char('G') {
        if total > 0 {
            (total - 1) as nat
        } else {
            sel
        }
    } else {
        sel
    }
}

/// Where a whole sequence of keys moves a selection, applied first to
/// last.
pub open spec fn nav_many(keys: Seq<Key>, sel: nat, total: nat) -> nat
    decreases keys.len(),
{
    if keys.len() == 0 {
        sel
    } else {
        nav_many(keys.drop_first(), nav_index(keys.first(), sel, total), total)
    }
}

/// A selection is in bounds when it lies in `[0, total - 1]` for a
/// non-empty list and is `0` for an empty one.
pub open spec fn selection_ok(sel: nat, total: nat) -> bool {
    if total == 0 {
        sel == 0
    } else {
        sel < total
    }
}

/// A selection forced into bounds for a list of `total` items: kept where
/// it was, moved to the last valid index when the list shrank under it,
/// and to `0` when the list is empty.
pub open spec fn clamp_index(sel: nat, total: nat) -> nat {
    if total == 0 {
        0
    } else if sel < total {
        sel
    } else {
        (total - 1) as nat
    }
}

/// One navigation key keeps the selection in bounds.
pub proof fn lemma_nav_index_in_bounds(k: Key, sel: nat, total: nat)
    requires
        selection_ok(sel, total),
    ensures
        selection_ok(nav_index(k, sel, total), total),
{
}

/// For every sequence of navigation keys, the selection stays within
/// `[0, total - 1]` when the list is non-empty, and stays `0` when it is
/// empty: navigation can never move the selection out of bounds.
pub proof fn lemma_nav_many_in_bounds(keys: Seq<Key>, sel: nat, total: nat)
    requires
        selection_ok(sel, total),
    ensures
        selection_ok(nav_many(keys, sel, total), total),
    decreases keys.len(),
{
    if keys.len() > 0 {
        lemma_nav_index_in_bounds(keys.first(), sel, total);
        lemma_nav_many_in_bounds(keys.drop_first(), nav_index(keys.first(), sel, total), total);
    }
}

} // verus!
