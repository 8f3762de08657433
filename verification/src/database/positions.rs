//! The rules on positions. Monitors, folders and buttons share one sequence
//! of positions inside a container: the root, or a folder.

use vstd::prelude::*;
use crate::database::models::opt_text;
use crate::text::{push_signed_decimal, same_text, signed_decimal};

verus! {

/// A new position for one item of a known table.
#[derive(Debug, Clone, PartialEq, Eq)]
pub struct PositionUpdate {
    pub id: String,
    pub position: i32,
}

/// A new position, and a new container, for one item of any kind.
#[derive(Debug, Clone, PartialEq, Eq)]
pub struct UnifiedPositionUpdate {
    pub id: String,
    /// `monitor`, `folder` or `button`.
    pub item_type: String,
    pub position: i32,
    pub folder_id: Option<String>,
}

/// The kinds of item that have a position.
#[derive(Debug, Clone, Copy, PartialEq, Eq, Structural)]
pub enum ItemKind {
    Monitor,
    Folder,
    Button,
}

/// The kind that an item type names, if it names one.
pub open spec fn item_kind_of(item_type: Seq<char>) -> Option<ItemKind> {
    if item_type == "monitor"@ {
        Some(ItemKind::Monitor)
    } else if item_type == "folder"@ {
        Some(ItemKind::Folder)
    } else if item_type == "button"@ {
        Some(ItemKind::Button)
    } else {
        None
    }
}

/// The error for an item type that names no kind.
pub open spec fn invalid_item_type_message(item_type: Seq<char>) -> Seq<char> {
    "Invalid item_type: "@ + item_type
}

/// The error for two updates that put two items in one place.
pub open spec fn duplicate_positions_message() -> Seq<char> {
    "Duplicate positions detected in same container"@
}

/// The error for a position below zero.
pub open spec fn negative_position_message(position: i32) -> Seq<char> {
    "Invalid position: "@ + signed_decimal(position as int) + " (must be non-negative)"@
}

/// The updates number `i` and `j` put two items at one position of one
/// container.
pub open spec fn clash(updates: Seq<UnifiedPositionUpdate>, i: int, j: int) -> bool {
    &&& 0 <= i < j < updates.len()
    &&& opt_text(updates[i].folder_id) == opt_text(updates[j].folder_id)
    &&& updates[i].position == updates[j].position
}

/// Some two updates clash.
pub open spec fn has_clash(updates: Seq<UnifiedPositionUpdate>) -> bool {
    exists|i: int, j: int| clash(updates, i, j)
}

/// The update number `i` is the first with a position below zero.
pub open spec fn first_negative(updates: Seq<UnifiedPositionUpdate>, i: int) -> bool {
    &&& 0 <= i < updates.len()
    &&& updates[i].position < 0
    &&& forall|k: int| 0 <= k < i ==> updates[k].position >= 0
}

/// What is wrong with a batch of updates, if anything is. Two updates that
/// clash are reported first; else the first position below zero.
pub open spec fn batch_error(updates: Seq<UnifiedPositionUpdate>, error: Option<Seq<char>>) -> bool {
    if has_clash(updates) {
        error == Some(duplicate_positions_message())
    } else if exists|i: int| first_negative(updates, i) {
        exists|i: int|
            first_negative(updates, i) && error == Some(
                negative_position_message(updates[i].position),
            )
    } else {
        error is None
    }
}

/// The error that a result carries.
pub open spec fn error_of(out: Result<(), String>) -> Option<Seq<char>> {
    match out {
        Ok(_) => None,
        Err(message) => Some(message@),
    }
}

/// No position stands twice in the list.
pub open spec fn all_distinct(positions: Seq<i32>) -> bool {
    forall|i: int, j: int| 0 <= i < j < positions.len() ==> positions[i] != positions[j]
}

/// The positions that close the gaps of a container whose items stand in
/// the order of `positions`: the item number `i` moves to position `i`,
/// unless it is there already.
pub open spec fn gap_free(positions: Seq<i32>) -> Seq<Option<i32>> {
    Seq::new(
        positions.len(),
        |i: int|
            if positions[i] == i {
                None
            } else {
                Some(i as i32)
            },
    )
}

/// The entry number `i` repeats an earlier one, and no entry before it does.
pub open spec fn first_repeat(positions: Seq<i32>, i: int) -> bool {
    &&& 0 <= i < positions.len()
    &&& exists|k: int| 0 <= k < i && positions[k] == positions[i]
    &&& all_distinct(positions.take(i))
}

/// The entry number `i` is the first that does not hold its own number.
pub open spec fn first_gap_at(positions: Seq<i32>, i: int) -> bool {
    &&& 0 <= i < positions.len()
    &&& positions[i] != i
    &&& forall|k: int| 0 <= k < i ==> positions[k] == k
}

/// The positions are `0, 1, 2, ...` in this order.
pub open spec fn counts_from_zero(positions: Seq<i32>) -> bool {
    forall|k: int| 0 <= k < positions.len() ==> positions[k] == k
}

/// Whether two optional texts are the same.
pub fn same_opt_text(a: &Option<String>, b: &Option<String>) -> (same: bool)
    ensures
        same == (opt_text(*a) == opt_text(*b)),
{
    match (a, b) {
        (Some(x), Some(y)) => same_text(x.as_str(), y.as_str()),
        (None, None) => true,
        _ => false,
    }
}

impl ItemKind {
    /// Reads an item type: `monitor`, `folder` or `button`; the error names
    /// any other text.
    pub fn from_type(item_type: &str) -> (out: Result<ItemKind, String>)
        ensures
            match item_kind_of(item_type@) {
                Some(kind) => out == Ok::<ItemKind, String>(kind),
                None => out matches Err(message) && message@ == invalid_item_type_message(
                    item_type@,
                ),
            },
    {
        if same_text(item_type, "monitor") {
            Ok(ItemKind::Monitor)
        } else if same_text(item_type, "folder") {
            Ok(ItemKind::Folder)
        } else if same_text(item_type, "button") {
            Ok(ItemKind::Button)
        } else {
            let mut message = String::from_str("Invalid item_type: ");
            message.append(item_type);
            Err(message)
        }
    }
}

/// Whether the update number `at` clashes with a later one.
fn clashes_later(updates: &Vec<UnifiedPositionUpdate>, at: usize) -> (found: bool)
    requires
        at < updates.len(),
    ensures
        found == exists|j: int| clash(updates@, at as int, j),
{
    let mut j: usize = at + 1;
    while j < updates.len()
        invariant
            at < j <= updates.len(),
            forall|k: int| at < k < j ==> !clash(updates@, at as int, k),
        decreases updates.len() - j,
    {
        if updates[at].position == updates[j].position && same_opt_text(
            &updates[at].folder_id,
            &updates[j].folder_id,
        ) {
            assert(clash(updates@, at as int, j as int));
            return true;
        }
        j += 1;
    }
    false
}

/// Checks a batch of updates before any of them is applied: no two of them
/// may put items at one position of one container, and no position may be
/// below zero.
pub fn check_updates(updates: &Vec<UnifiedPositionUpdate>) -> (out: Result<(), String>)
    ensures
        batch_error(updates@, error_of(out)),
{
    let mut i: usize = 0;
    while i < updates.len()
        invariant
            i <= updates.len(),
            forall|a: int, b: int| 0 <= a < i ==> !clash(updates@, a, b),
        decreases updates.len() - i,
    {
        if clashes_later(updates, i) {
            return Err(String::from_str("Duplicate positions detected in same container"));
        }
        i += 1;
    }
    assert(!has_clash(updates@));
    let mut k: usize = 0;
    while k < updates.len()
        invariant
            k <= updates.len(),
            !has_clash(updates@),
            forall|n: int| 0 <= n < k ==> updates@[n].position >= 0,
        decreases updates.len() - k,
    {
        if updates[k].position < 0 {
            let mut message = String::from_str("Invalid position: ");
            push_signed_decimal(&mut message, updates[k].position);
            message.append(" (must be non-negative)");
            assert(first_negative(updates@, k as int));
            return Err(message);
        }
        k += 1;
    }
    assert forall|n: int| !first_negative(updates@, n) by {}
    Ok(())
}

/// Whether no position stands twice in the list.
pub fn positions_unique(positions: &Vec<i32>) -> (unique: bool)
    ensures
        unique == all_distinct(positions@),
{
    let mut i: usize = 0;
    while i < positions.len()
        invariant
            i <= positions.len(),
            forall|a: int, b: int| 0 <= a < i && a < b < positions.len() ==> positions@[a]
                != positions@[b],
        decreases positions.len() - i,
    {
        let mut j: usize = i + 1;
        while j < positions.len()
            invariant
                i < j <= positions.len(),
                forall|b: int| i < b < j ==> positions@[i as int] != positions@[b],
            decreases positions.len() - j,
        {
            if positions[i] == positions[j] {
                return false;
            }
            j += 1;
        }
        i += 1;
    }
    true
}

/// The index of the first entry that repeats an earlier one, if any does.
pub fn find_repeat(positions: &Vec<i32>) -> (found: Option<usize>)
    ensures
        match found {
            Some(i) => first_repeat(positions@, i as int),
            None => all_distinct(positions@),
        },
{
    let mut i: usize = 0;
    assert(all_distinct(positions@.take(0)));
    while i < positions.len()
        invariant
            i <= positions.len(),
            all_distinct(positions@.take(i as int)),
        decreases positions.len() - i,
    {
        let mut k: usize = 0;
        while k < i
            invariant
                k <= i < positions.len(),
                all_distinct(positions@.take(i as int)),
                forall|n: int| 0 <= n < k ==> positions@[n] != positions@[i as int],
            decreases i - k,
        {
            if positions[k] == positions[i] {
                return Some(i);
            }
            k += 1;
        }
        let ghost longer = positions@.take(i + 1);
        assert forall|a: int, b: int| 0 <= a < b < longer.len() implies longer[a]
            != longer[b] by {
            if b < i {
                assert(positions@.take(i as int)[a] == positions@[a]);
                assert(positions@.take(i as int)[b] == positions@[b]);
            }
        }
        i += 1;
    }
    assert(positions@.take(positions.len() as int) =~= positions@);
    None
}

/// The index of the first entry that does not hold its own number, if there
/// is one: the first gap of positions that are sorted.
pub fn find_gap(positions: &Vec<i32>) -> (found: Option<usize>)
    ensures
        match found {
            Some(i) => first_gap_at(positions@, i as int),
            None => counts_from_zero(positions@),
        },
{
    let mut i: usize = 0;
    while i < positions.len()
        invariant
            i <= positions.len(),
            forall|k: int| 0 <= k < i ==> positions@[k] == k,
        decreases positions.len() - i,
    {
        let here = positions[i];
        if here < 0 || here as usize != i {
            return Some(i);
        }
        i += 1;
    }
    None
}

/// Whether an item may be put at `position` in a container of `count` items:
/// not below zero, and not beyond the place right after the last item.
pub fn position_fits(position: i32, count: usize) -> (fits: bool)
    ensures
        fits == (0 <= position <= count),
{
    position >= 0 && position as usize <= count
}

/// The position for a new last item, after the highest position in use, or
/// in an empty container. `None` where no position is left.
pub fn next_position(highest: Option<i32>) -> (next: Option<i32>)
    ensures
        match highest {
            Some(h) => if h < i32::MAX {
                next == Some((h + 1) as i32)
            } else {
                next is None
            },
            None => next == Some(0i32),
        },
{
    match highest {
        Some(h) => if h < i32::MAX {
            Some(h + 1)
        } else {
            None
        },
        None => Some(0),
    }
}

/// The new positions that close the gaps of a container, for its items in
/// the order of their positions: `None` for an item that stays where it is.
pub fn close_gaps(positions: &Vec<i32>) -> (moves: Vec<Option<i32>>)
    requires
        positions.len() <= i32::MAX,
    ensures
        moves@ == gap_free(positions@),
{
    let mut moves: Vec<Option<i32>> = Vec::new();
    let mut i: usize = 0;
    while i < positions.len()
        invariant
            i <= positions.len(),
            positions.len() <= i32::MAX,
            moves@.len() == i,
            forall|k: int| 0 <= k < i ==> moves@[k] == gap_free(positions@)[k],
        decreases positions.len() - i,
    {
        let place: i32 = i as i32;
        if positions[i] == place {
            moves.push(None);
        } else {
            moves.push(Some(place));
        }
        i += 1;
    }
    assert(moves@ =~= gap_free(positions@));
    moves
}

} // verus!
