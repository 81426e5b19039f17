//! The report of a sweep of expired shares.
use vstd::prelude::*;

use crate::text::{decimal, decimal_of};

verus! {

/// The names in `names`, separated by `, `.
pub open spec fn comma_joined(names: Seq<String>) -> Seq<char>
    decreases names.len(),
{
    if names.len() == 0 {
        Seq::empty()
    } else if names.len() == 1 {
        names[0]@
    } else {
        comma_joined(names.drop_last()) + ", "@ + names.last()@
    }
}

/// The outcome of a sweep whose record deletions succeeded and whose body
/// deletions failed for the shares named in `failed`: an error that counts
/// and lists them, if there are any.
pub fn failed_deletes_report(failed: &Vec<String>) -> (r: Result<(), String>)
    ensures
        failed@.len() == 0 ==> r is Ok,
        failed@.len() > 0 ==> (r matches Err(m) && m@ == "Failed to delete "@ + decimal_of(failed@.len())
            + " shares: "@ + comma_joined(failed@)),
{
    if failed.len() == 0 {
        return Ok(());
    }
    let mut list = failed[0].clone();
    let mut i: usize = 1;
    assert(failed@.subrange(0, 1).drop_last() =~= Seq::<String>::empty());
    while i < failed.len()
        invariant
            1 <= i <= failed@.len(),
            list@ == comma_joined(failed@.subrange(0, i as int)),
        decreases failed@.len() - i,
    {
        list.append(", ");
        list.append(failed[i].as_str());
        i = i + 1;
        assert(failed@.subrange(0, i as int).drop_last() =~= failed@.subrange(0, i - 1));
    }
    assert(failed@.subrange(0, failed@.len() as int) =~= failed@);
    let mut message = "Failed to delete ".to_string();
    message.append(decimal(failed.len() as u64).as_str());
    message.append(" shares: ");
    message.append(list.as_str());
    Err(message)
}

} // verus!
