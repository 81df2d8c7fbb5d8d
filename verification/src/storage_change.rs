use vstd::prelude::*;
use crate::text::chars_of;

verus! {

/// Whether two texts are the same.
fn same_text(a: &str, b: &str) -> (r: bool)
    ensures
        r == (a@ == b@),
{
    let x = chars_of(a);
    let y = chars_of(b);
    if x.len() != y.len() {
        return false;
    }
    let mut i: usize = 0;
    while i < x.len()
        invariant
            x@ == a@,
            y@ == b@,
            x@.len() == y@.len(),
            i <= x@.len(),
            forall|k: int| 0 <= k < i ==> x@[k] == y@[k],
        decreases x@.len() - i,
    {
        if x[i] != y[i] {
            return false;
        }
        i = i + 1;
    }
    assert(x@ =~= y@);
    true
}

/// Whether a change of the storage location starts moving the data: only
/// when the application works on a data file and the location really
/// changed.
pub fn starts_migration(has_data_file: bool, old_location: &str, new_location: &str) -> (r: bool)
    ensures
        r == (has_data_file && old_location@ != new_location@),
{
    has_data_file && !same_text(old_location, new_location)
}

/// Whether the old store is copied to the new location before the new one
/// is loaded: only when nothing was at the new location yet and the old
/// file exists.
pub fn copies_old_store(new_file_existed: bool, old_file_exists: bool) -> (r: bool)
    ensures
        r == (!new_file_existed && old_file_exists),
{
    !new_file_existed && old_file_exists
}

/// The message shown once the store at `location` is in use: it was
/// either found there or moved there.
pub fn migration_message(file_existed: bool, location: &str) -> (r: String)
    ensures
        r@ == (if file_existed { "Loaded from "@ } else { "Migrated to "@ }) + location@,
{
    let mut msg = if file_existed {
        String::from_str("Loaded from ")
    } else {
        String::from_str("Migrated to ")
    };
    msg.append(location);
    msg
}

/// The board selected after another store was loaded: the first one, when
/// there is any.
pub fn board_after_store_swap(board_count: usize) -> (r: Option<usize>)
    ensures
        r == (if board_count == 0 { None::<usize> } else { Some(0usize) }),
{
    if board_count == 0 { None } else { Some(0) }
}

} // verus!
