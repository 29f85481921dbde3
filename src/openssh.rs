use vstd::prelude::*;
use crate::address::{Address, AddressView};
use crate::error::HandlerError;
use crate::text::str_equal;

verus! {

/// One invocation of the external secure-copy tool: its two positional endpoints.
#[derive(Debug, Clone, PartialEq, Eq)]
pub struct CopyCommand {
    pub source: String,
    pub target: String,
}

/// Why no copy command exists for a pair of addresses.
pub enum CopyFault {
    /// A `file` address denotes no local path.
    Unresolvable,
    /// A scheme that is neither `file` nor `scp`.
    Scheme(Seq<char>),
}

/// The endpoint of a target address, once the source is known to be usable: the local path of
/// a `file` address, the text of an `scp` address.
pub open spec fn target_endpoint(t: AddressView) -> Result<Seq<char>, CopyFault> {
    if t.scheme == "file"@ {
        match t.local {
            Some(p) => Ok(p),
            None => Err(CopyFault::Unresolvable),
        }
    } else if t.scheme == "scp"@ {
        Ok(t.text)
    } else {
        Err(CopyFault::Scheme(t.scheme))
    }
}

/// The two endpoints of a copy between addresses, each a local path or a remote location.
pub open spec fn copy_endpoints(s: AddressView, t: AddressView) -> Result<
    (Seq<char>, Seq<char>),
    CopyFault,
> {
    let source = if s.scheme == "file"@ {
        match s.local {
            Some(p) => Ok(p),
            None => Err(CopyFault::Unresolvable),
        }
    } else if s.scheme == "scp"@ {
        Ok(s.text)
    } else {
        Err(CopyFault::Scheme(s.scheme))
    };
    match source {
        Err(f) => Err(f),
        Ok(a) => match target_endpoint(t) {
            Err(f) => Err(f),
            Ok(b) => Ok((a, b)),
        },
    }
}

/// Computes the invocations of the external secure-copy tool.
pub struct OpenSSHFascade {}

impl OpenSSHFascade {
    /// The copy between two addresses, each local (`file`) or remote (`scp`).
    pub fn copy(source: &Address, target: &Address) -> (r: Result<CopyCommand, HandlerError>)
        ensures
            match copy_endpoints(source@, target@) {
                Ok((a, b)) => r is Ok && r->Ok_0.source@ == a && r->Ok_0.target@ == b,
                Err(CopyFault::Unresolvable) => r == Err::<CopyCommand, HandlerError>(
                    HandlerError::AddressResolution,
                ),
                Err(CopyFault::Scheme(x)) => r is Err && (r->Err_0 matches HandlerError::UnsupportedScheme(
                    e,
                ) && e@ == x),
            },
    {
        if str_equal(source.scheme(), "file") {
            let source_file = match source.local_path() {
                Some(p) => p,
                None => {
                    return Err(HandlerError::AddressResolution);
                },
            };
            if str_equal(target.scheme(), "file") {
                match target.local_path() {
                    Some(target_file) => Ok(Self::copy_local_file(source_file, target_file)),
                    None => Err(HandlerError::AddressResolution),
                }
            } else if str_equal(target.scheme(), "scp") {
                Ok(Self::upload_file(source_file, target))
            } else {
                Err(HandlerError::UnsupportedScheme(String::from_str(target.scheme())))
            }
        } else if str_equal(source.scheme(), "scp") {
            if str_equal(target.scheme(), "file") {
                match target.local_path() {
                    Some(target_file) => Ok(Self::download_file(source, target_file)),
                    None => Err(HandlerError::AddressResolution),
                }
            } else if str_equal(target.scheme(), "scp") {
                Ok(Self::copy_remote_file(source, target))
            } else {
                Err(HandlerError::UnsupportedScheme(String::from_str(target.scheme())))
            }
        } else {
            Err(HandlerError::UnsupportedScheme(String::from_str(source.scheme())))
        }
    }

    /// Copies a local file to a remote location.
    pub fn upload_file(source: &str, target: &Address) -> (r: CopyCommand)
        ensures
            r.source@ == source@,
            r.target@ == target@.text,
    {
        CopyCommand { source: String::from_str(source), target: String::from_str(target.as_str()) }
    }

    /// Copies a remote file to a local path.
    pub fn download_file(source: &Address, target: &str) -> (r: CopyCommand)
        ensures
            r.source@ == source@.text,
            r.target@ == target@,
    {
        CopyCommand { source: String::from_str(source.as_str()), target: String::from_str(target) }
    }

    /// Copies between two remote locations.
    pub fn copy_remote_file(source: &Address, target: &Address) -> (r: CopyCommand)
        ensures
            r.source@ == source@.text,
            r.target@ == target@.text,
    {
        CopyCommand {
            source: String::from_str(source.as_str()),
            target: String::from_str(target.as_str()),
        }
    }

    /// Copies between two local paths.
    pub fn copy_local_file(source: &str, target: &str) -> (r: CopyCommand)
        ensures
            r.source@ == source@,
            r.target@ == target@,
    {
        CopyCommand { source: String::from_str(source), target: String::from_str(target) }
    }
}

} // verus!
