//! A message was deleted: its record goes too.

use vstd::prelude::*;
use crate::commands::channels::id_key;
use crate::decimal::u64_text;

verus! {

/// The key of the record to delete once the message `deleted_message_id` is
/// deleted.
pub fn message_delete(deleted_message_id: u64) -> (r: String)
    ensures
        r@ == id_key(deleted_message_id),
{
    u64_text(deleted_message_id)
}

} // verus!
