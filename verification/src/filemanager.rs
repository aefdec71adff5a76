//! Resolution of which running file-manager instance receives an action.
//!
//! The session bus may hold several registered file-manager services; the
//! action goes to the first one, in enumeration order, that reports its
//! window as active. No instance reporting active is a valid nothing-to-do
//! outcome, not an error: the focused window may share the application class
//! only coincidentally, or focus may have moved since the gesture began.

use vstd::prelude::*;
use crate::text::{starts_with, str_starts_with};

verus! {

/// A registered bus name belongs to a file-manager instance when it begins
/// with the file manager's service prefix.
pub open spec fn is_file_manager_service(name: Seq<char>) -> bool {
    starts_with(name, "org.kde.dolphin"@)
}

/// The character sequences a list of strings holds.
pub open spec fn names_view(names: Seq<String>) -> Seq<Seq<char>> {
    names.map_values(|s: String| s@)
}

/// The service names that belong to file-manager instances, kept in their
/// enumeration order.
pub open spec fn file_manager_services(names: Seq<Seq<char>>) -> Seq<Seq<char>>
    decreases names.len(),
{
    if names.len() == 0 {
        Seq::empty()
    } else {
        let rest = file_manager_services(names.drop_last());
        if is_file_manager_service(names.last()) {
            rest.push(names.last())
        } else {
            rest
        }
    }
}

/// Keeps, in order, exactly the registered service names that belong to
/// file-manager instances.
pub fn file_manager_candidates(names: &Vec<String>) -> (r: Vec<String>)
    ensures
        names_view(r@) == file_manager_services(names_view(names@)),
{
    let ghost all: Seq<Seq<char>> = names_view(names@);
    let mut r: Vec<String> = Vec::new();
    assert(names_view(r@) =~= file_manager_services(all.take(0)));
    let mut i: usize = 0;
    while i < names.len()
        invariant
            i <= names.len(),
            all == names_view(names@),
            names_view(r@) == file_manager_services(all.take(i as int)),
        decreases names.len() - i,
    {
        let ghost r_pre = r@;
        let name = &names[i];
        proof {
            assert(all.take(i + 1).drop_last() =~= all.take(i as int));
            assert(all.take(i + 1).last() == name@);
        }
        if str_starts_with(name.as_str(), "org.kde.dolphin") {
            r.push(name.clone());
            assert(names_view(r@) =~= names_view(r_pre).push(name@));
        }
        i += 1;
    }
    proof {
        assert(all.take(names@.len() as int) =~= all);
    }
    r
}

/// The index of the first instance that reported its window active: `Some(i)`
/// exactly when position `i` holds the first `true` answer, `None` exactly
/// when no instance answered `true`.
pub fn first_active(active: &Vec<bool>) -> (r: Option<usize>)
    ensures
        match r {
            Some(i) => i < active@.len() && active@[i as int] && (forall|j: int|
                0 <= j < i ==> !active@[j]),
            None => forall|j: int| 0 <= j < active@.len() ==> !active@[j],
        },
{
    let mut i: usize = 0;
    while i < active.len()
        invariant
            i <= active.len(),
            forall|j: int| 0 <= j < i ==> !active@[j],
        decreases active.len() - i,
    {
        if active[i] {
            return Some(i);
        }
        i += 1;
    }
    None
}

} // verus!
