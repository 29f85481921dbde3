use vstd::prelude::*;
use crate::address::{file_address, file_url, Address, AddressView};
use crate::error::HandlerError;
use super::{Action, Operation};

verus! {

/// What the local filesystem backend does for an operation on an address: every operation
/// acts on the local path the address denotes.
pub open spec fn file_plans(url: AddressView, op: Operation, r: Result<Action, HandlerError>) -> bool {
    match url.local {
        None => r == Err::<Action, HandlerError>(HandlerError::AddressResolution),
        Some(p) => match op {
            Operation::Fetch => r matches Ok(Action::ReadFile(q)) && q@ == p,
            Operation::Push(s) => r matches Ok(Action::WriteFile(q, c)) && q@ == p && c@ == s@,
            Operation::Delete => r matches Ok(Action::RemoveFile(q)) && q@ == p,
            Operation::CreateEmpty => r matches Ok(Action::WriteFile(q, c)) && q@ == p && c@
                == Seq::<char>::empty(),
            Operation::CreateContainer => r matches Ok(Action::CreateDirAll(q)) && q@ == p,
            Operation::ListContainer => r matches Ok(Action::ListDir(q)) && q@ == p,
        },
    }
}

/// The addresses of the entries of a container, skipping those that are no valid address.
pub open spec fn entry_addresses(entries: Seq<Seq<char>>) -> Seq<AddressView>
    decreases entries.len(),
{
    if entries.len() == 0 {
        Seq::empty()
    } else {
        let rest = entry_addresses(entries.drop_last());
        match file_url(entries.last()) {
            Some(a) => rest.push(a),
            None => rest,
        }
    }
}

pub open spec fn strings_view(v: Seq<String>) -> Seq<Seq<char>> {
    v.map_values(|s: String| s@)
}

pub open spec fn addresses_view(v: Seq<Address>) -> Seq<AddressView> {
    v.map_values(|a: Address| a@)
}

/// The local filesystem backend.
#[derive(Debug, Clone, Copy, PartialEq, Eq, Structural)]
pub struct FileProtocolHandler {}

impl FileProtocolHandler {
    /// The filesystem action that performs an operation on an address.
    pub fn plan(&self, url: &Address, op: Operation) -> (r: Result<Action, HandlerError>)
        ensures
            file_plans(url@, op, r),
    {
        let path = match url.local_path() {
            Some(p) => String::from_str(p),
            None => {
                return Err(HandlerError::AddressResolution);
            },
        };
        match op {
            Operation::Fetch => Ok(Action::ReadFile(path)),
            Operation::Push(s) => Ok(Action::WriteFile(path, s)),
            Operation::Delete => Ok(Action::RemoveFile(path)),
            Operation::CreateEmpty => Ok(Action::WriteFile(path, String::new())),
            Operation::CreateContainer => Ok(Action::CreateDirAll(path)),
            Operation::ListContainer => Ok(Action::ListDir(path)),
        }
    }

    /// The addresses of a container's entries, given their absolute paths; an entry that is no
    /// valid address is skipped.
    pub fn list_urls_in_url_container(&self, entries: &Vec<String>) -> (r: Vec<Address>)
        ensures
            addresses_view(r@) == entry_addresses(strings_view(entries@)),
    {
        let mut r: Vec<Address> = Vec::new();
        let mut i: usize = 0;
        while i < entries.len()
            invariant
                0 <= i <= entries@.len(),
                addresses_view(r@) == entry_addresses(strings_view(entries@.subrange(0, i as int))),
            decreases entries@.len() - i,
        {
            let ghost before = r@;
            assert(strings_view(entries@.subrange(0, i + 1)).drop_last() =~= strings_view(
                entries@.subrange(0, i as int),
            ));
            match file_address(entries[i].as_str()) {
                Ok(a) => {
                    r.push(a);
                    assert(addresses_view(r@) =~= addresses_view(before).push(a@));
                },
                Err(_) => {},
            }
            i = i + 1;
        }
        assert(entries@.subrange(0, entries@.len() as int) =~= entries@);
        r
    }
}

/// A listing holds an address exactly when some entry of the container has it: the address of
/// an entry that exists is listed, and no address that no entry has is.
pub proof fn lemma_listing_holds_exactly_entry_addresses(entries: Seq<Seq<char>>, a: AddressView)
    ensures
        entry_addresses(entries).contains(a) <==> exists|i: int|
            0 <= i < entries.len() && file_url(#[trigger] entries[i]) == Some(a),
    decreases entries.len(),
{
    if entries.len() > 0 {
        let init = entries.drop_last();
        lemma_listing_holds_exactly_entry_addresses(init, a);
        let rest = entry_addresses(init);
        let n = entries.len() - 1;
        if entry_addresses(entries).contains(a) {
            match file_url(entries.last()) {
                Some(b) => {
                    let k = choose|k: int| 0 <= k < rest.push(b).len() && rest.push(b)[k] == a;
                    if k == rest.len() {
                        assert(file_url(entries[n]) == Some(a));
                    } else {
                        assert(rest.contains(a));
                        let i = choose|i: int| 0 <= i < init.len() && file_url(#[trigger] init[i]) == Some(a);
                        assert(entries[i] == init[i]);
                    }
                },
                None => {
                    let i = choose|i: int| 0 <= i < init.len() && file_url(#[trigger] init[i]) == Some(a);
                    assert(entries[i] == init[i]);
                },
            }
        }
        if exists|i: int| 0 <= i < entries.len() && file_url(#[trigger] entries[i]) == Some(a) {
            let i = choose|i: int| 0 <= i < entries.len() && file_url(#[trigger] entries[i]) == Some(a);
            if i == n {
                let b = file_url(entries.last())->0;
                assert(rest.push(b)[rest.len() as int] == a);
            } else {
                assert(init[i] == entries[i]);
                assert(rest.contains(a));
                let k = choose|k: int| 0 <= k < rest.len() && rest[k] == a;
                match file_url(entries.last()) {
                    Some(b) => {
                        assert(rest.push(b)[k] == a);
                    },
                    None => {},
                }
            }
        }
    }
}

/// On a file address that denotes a local path, a push writes exactly the pushed text to the
/// file that a fetch then reads.
pub proof fn lemma_fetch_targets_pushed_file(
    url: AddressView,
    s: String,
    pushed: Result<Action, HandlerError>,
    fetched: Result<Action, HandlerError>,
)
    requires
        url.local is Some,
        file_plans(url, Operation::Push(s), pushed),
        file_plans(url, Operation::Fetch, fetched),
    ensures
        match (pushed, fetched) {
            (Ok(Action::WriteFile(p, c)), Ok(Action::ReadFile(q))) => c@ == s@ && q@ == p@,
            _ => false,
        },
{
}

/// On a file address that denotes a local path, a delete removes the file that a fetch then
/// reads.
pub proof fn lemma_fetch_targets_deleted_file(
    url: AddressView,
    deleted: Result<Action, HandlerError>,
    fetched: Result<Action, HandlerError>,
)
    requires
        url.local is Some,
        file_plans(url, Operation::Delete, deleted),
        file_plans(url, Operation::Fetch, fetched),
    ensures
        match (deleted, fetched) {
            (Ok(Action::RemoveFile(p)), Ok(Action::ReadFile(q))) => q@ == p@,
            _ => false,
        },
{
}

} // verus!
