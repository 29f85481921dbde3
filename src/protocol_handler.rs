use vstd::prelude::*;
use crate::address::{Address, AddressView};
use crate::error::HandlerError;

pub mod file;
pub mod http;
pub mod registry;
pub mod scp;

use file::{file_plans, FileProtocolHandler};
use http::{request_for, HostConfigView, HttpProtocolHandler, HttpRequest, RequestKind};
use scp::{scp_plans, SCPProtocolHandler};

verus! {

/// The six string-level operations on an address.
#[derive(Debug, Clone, PartialEq, Eq)]
pub enum Operation {
    /// Read the whole content.
    Fetch,
    /// Replace the whole content.
    Push(String),
    /// Remove the resource.
    Delete,
    /// Create the resource with empty content.
    CreateEmpty,
    /// Create a container and its missing ancestors.
    CreateContainer,
    /// Enumerate a container's immediate children.
    ListContainer,
}

/// The I/O that performs an operation, for the code that does I/O to carry out.
#[derive(Debug, PartialEq, Eq)]
pub enum Action {
    /// Read the file at a local path.
    ReadFile(String),
    /// Write the whole file at a local path, first creating its missing ancestor directories.
    WriteFile(String, String),
    /// Remove the file at a local path.
    RemoveFile(String),
    /// Create a directory and its missing ancestors; it may exist already.
    CreateDirAll(String),
    /// Read the entries of a directory.
    ListDir(String),
    /// Copy a remote file into a private staging file that is removed afterwards, and read it.
    Download(Address),
    /// Write the content to a private staging file that is removed afterwards, and copy it to
    /// the remote location.
    Upload(Address, String),
    /// Send an HTTP request; a status outside 2xx is a failure.
    Request(HttpRequest),
}

/// What the HTTP backend does for an operation: fetch and push send the request that the
/// host's overrides resolve to; it has no other operation.
pub open spec fn http_plans(
    hosts: Seq<(Seq<char>, HostConfigView)>,
    url: AddressView,
    op: Operation,
    r: Result<Action, HandlerError>,
) -> bool {
    match op {
        Operation::Fetch => match request_for(hosts, url, RequestKind::Fetch, None) {
            Ok(q) => r matches Ok(Action::Request(x)) && x@ == q,
            Err(e) => r == Err::<Action, HandlerError>(e),
        },
        Operation::Push(s) => match request_for(hosts, url, RequestKind::Push, Some(s@)) {
            Ok(q) => r matches Ok(Action::Request(x)) && x@ == q,
            Err(e) => r == Err::<Action, HandlerError>(e),
        },
        _ => r == Err::<Action, HandlerError>(HandlerError::UnsupportedOperation),
    }
}

impl HttpProtocolHandler {
    /// The request that performs an operation on an address.
    pub fn plan(&self, url: &Address, op: Operation) -> (r: Result<Action, HandlerError>)
        ensures
            http_plans(self@, url@, op, r),
    {
        let request = match op {
            Operation::Fetch => self.build_request_with_config(url, RequestKind::Fetch, None),
            Operation::Push(s) => self.build_request_with_config(url, RequestKind::Push, Some(s)),
            _ => {
                return Err(HandlerError::UnsupportedOperation);
            },
        };
        match request {
            Ok(q) => Ok(Action::Request(q)),
            Err(e) => Err(e),
        }
    }
}

/// The backends.
#[derive(Debug)]
pub enum KnownProtocolHandler {
    File(FileProtocolHandler),
    Scp(SCPProtocolHandler),
    Http(HttpProtocolHandler),
}

/// What a backend does for an operation on an address.
pub open spec fn handler_plans(
    h: KnownProtocolHandler,
    url: AddressView,
    op: Operation,
    r: Result<Action, HandlerError>,
) -> bool {
    match h {
        KnownProtocolHandler::File(_) => file_plans(url, op, r),
        KnownProtocolHandler::Scp(_) => scp_plans(url, op, r),
        KnownProtocolHandler::Http(x) => http_plans(x@, url, op, r),
    }
}

impl KnownProtocolHandler {
    /// The action of this backend that performs an operation on an address.
    pub fn plan(&self, url: &Address, op: Operation) -> (r: Result<Action, HandlerError>)
        ensures
            handler_plans(*self, url@, op, r),
    {
        match self {
            KnownProtocolHandler::File(h) => h.plan(url, op),
            KnownProtocolHandler::Scp(h) => h.plan(url, op),
            KnownProtocolHandler::Http(h) => h.plan(url, op),
        }
    }
}

} // verus!
