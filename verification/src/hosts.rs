//! Selection of the monitored hostnames from the parsed host-list
//! entries: each entry names one or more hosts, and the round probes the
//! first name of each entry.

use vstd::prelude::*;

verus! {

/// The host list could not be used; the whole round is skipped.
#[derive(Clone, Copy, Debug, PartialEq, Eq, Structural)]
pub enum HostListError {
    /// The host-list file was missing or unreadable.
    MissingFile,
    /// An entry of the host list names no host.
    MalformedEntry,
}

/// Picks the hostname to probe from each host-list entry: the entry's
/// first name. An entry with no names at all makes the whole list
/// malformed, and the round is skipped rather than partially run.
pub fn select_host_names(entries: &Vec<Vec<String>>) -> (r: Result<Vec<String>, HostListError>)
    ensures
        r is Ok <==> (forall|k: int| 0 <= k < entries@.len() ==> #[trigger] entries@[k]@.len() > 0),
        r matches Ok(names) ==> {
            &&& names@.len() == entries@.len()
            &&& forall|k: int| 0 <= k < names@.len() ==> #[trigger] names@[k]@ == entries@[k]@[0]@
        },
        r matches Err(e) ==> e == HostListError::MalformedEntry,
{
    let n = entries.len();
    let mut names: Vec<String> = Vec::new();
    let mut i: usize = 0;
    while i < n
        invariant
            n == entries@.len(),
            i <= n,
            names@.len() == i,
            forall|k: int| 0 <= k < i ==> #[trigger] entries@[k]@.len() > 0,
            forall|k: int| 0 <= k < i ==> #[trigger] names@[k]@ == entries@[k]@[0]@,
        decreases n - i,
    {
        let entry = &entries[i];
        if entry.len() == 0 {
            return Err(HostListError::MalformedEntry);
        }
        let name = entry[0].clone();
        names.push(name);
        i += 1;
    }
    Ok(names)
}

} // verus!
