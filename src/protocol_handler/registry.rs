use vstd::prelude::*;
use crate::address::{Address, AddressView};
use crate::error::HandlerError;
use crate::text::str_equal;
use super::file::{file_plans, FileProtocolHandler};
use super::http::{first_per_host, hosts_view, HostConfigView, HttpProtocolHandler, HttpProtocolHandlerConfig};
use super::scp::{scp_plans, SCPProtocolHandler};
use super::{http_plans, Action, KnownProtocolHandler, Operation};

verus! {

/// The configuration the backends are built from.
#[derive(Debug, Clone, PartialEq, Eq)]
pub struct ProtocolHandlerConfig {
    pub http: HttpProtocolHandlerConfig,
}

/// The kinds of backend.
#[derive(Debug, Clone, Copy, PartialEq, Eq, Structural)]
pub enum Backend {
    File,
    Scp,
    Http,
}

/// The backend registered for a scheme.
pub open spec fn scheme_backend(scheme: Seq<char>) -> Option<Backend> {
    if scheme == "file"@ {
        Some(Backend::File)
    } else if scheme == "scp"@ {
        Some(Backend::Scp)
    } else if scheme == "http"@ || scheme == "https"@ {
        Some(Backend::Http)
    } else {
        None
    }
}

pub open spec fn backend_of(h: KnownProtocolHandler) -> Backend {
    match h {
        KnownProtocolHandler::File(_) => Backend::File,
        KnownProtocolHandler::Scp(_) => Backend::Scp,
        KnownProtocolHandler::Http(_) => Backend::Http,
    }
}

/// The per-host overrides a configuration gives the HTTP backend: the first entry for each host.
pub open spec fn configured_hosts(config: ProtocolHandlerConfig) -> Seq<
    (Seq<char>, HostConfigView),
> {
    match config.http.hosts {
        None => Seq::empty(),
        Some(v) => first_per_host(hosts_view(v@)),
    }
}

/// Holds one instance of each backend.
#[derive(Debug)]
pub struct ProtocolHandlerRegistry {
    file_handler: KnownProtocolHandler,
    scp_handler: KnownProtocolHandler,
    http_handler: KnownProtocolHandler,
}

impl ProtocolHandlerRegistry {
    #[verifier::type_invariant]
    spec fn inv(&self) -> bool {
        &&& self.file_handler is File
        &&& self.scp_handler is Scp
        &&& self.http_handler is Http
    }

    /// The per-host overrides of the registered HTTP backend.
    pub closed spec fn http_hosts(&self) -> Seq<(Seq<char>, HostConfigView)> {
        match self.http_handler {
            KnownProtocolHandler::Http(h) => h@,
            _ => Seq::empty(),
        }
    }

    pub fn new(config: &ProtocolHandlerConfig) -> (r: ProtocolHandlerRegistry)
        ensures
            r.http_hosts() == configured_hosts(*config),
    {
        ProtocolHandlerRegistry {
            file_handler: KnownProtocolHandler::File(FileProtocolHandler {  }),
            scp_handler: KnownProtocolHandler::Scp(SCPProtocolHandler {  }),
            http_handler: KnownProtocolHandler::Http(HttpProtocolHandler::new(&config.http)),
        }
    }

    /// The backend registered for a scheme: `file`, `scp`, `http` and `https` have one.
    pub fn get_handler_for_protocol(&self, protocol: &str) -> (r: Option<&KnownProtocolHandler>)
        ensures
            match r {
                Some(h) => scheme_backend(protocol@) == Some(backend_of(*h)) && (h is Http
                    ==> h->Http_0@ == self.http_hosts()),
                None => scheme_backend(protocol@) is None,
            },
    {
        proof {
            use_type_invariant(self);
        }
        if str_equal(protocol, "file") {
            Some(&self.file_handler)
        } else if str_equal(protocol, "scp") {
            Some(&self.scp_handler)
        } else if str_equal(protocol, "http") || str_equal(protocol, "https") {
            Some(&self.http_handler)
        } else {
            None
        }
    }
}

impl Default for ProtocolHandlerRegistry {
    fn default() -> (r: ProtocolHandlerRegistry)
        ensures
            r.http_hosts() == Seq::<(Seq<char>, HostConfigView)>::empty(),
    {
        ProtocolHandlerRegistry::new(
            &ProtocolHandlerConfig { http: HttpProtocolHandlerConfig { hosts: None } },
        )
    }
}

/// What the registry's backend for an address's scheme does for an operation on it.
pub open spec fn registry_plans(
    hosts: Seq<(Seq<char>, HostConfigView)>,
    url: AddressView,
    op: Operation,
    r: Result<Action, HandlerError>,
) -> bool {
    match scheme_backend(url.scheme) {
        None => r is Err && (r->Err_0 matches HandlerError::UnsupportedScheme(e) && e@
            == url.scheme),
        Some(Backend::File) => file_plans(url, op, r),
        Some(Backend::Scp) => scp_plans(url, op, r),
        Some(Backend::Http) => http_plans(hosts, url, op, r),
    }
}

/// The action that performs an operation on an address, by the backend for its scheme.
pub fn plan_for_url(url: &Address, op: Operation, registry: &ProtocolHandlerRegistry) -> (r: Result<
    Action,
    HandlerError,
>)
    ensures
        registry_plans(registry.http_hosts(), url@, op, r),
{
    match registry.get_handler_for_protocol(url.scheme()) {
        Some(h) => h.plan(url, op),
        None => Err(HandlerError::UnsupportedScheme(String::from_str(url.scheme()))),
    }
}

/// Deleting, creating empty content, creating a container or listing one through the
/// secure-copy or the HTTP backend fails with `UnsupportedOperation`: never a silent success.
pub proof fn lemma_remote_backends_reject_container_operations(
    hosts: Seq<(Seq<char>, HostConfigView)>,
    url: AddressView,
    op: Operation,
    r: Result<Action, HandlerError>,
)
    requires
        scheme_backend(url.scheme) == Some(Backend::Scp) || scheme_backend(url.scheme) == Some(
            Backend::Http,
        ),
        op is Delete || op is CreateEmpty || op is CreateContainer || op is ListContainer,
        registry_plans(hosts, url, op, r),
    ensures
        r == Err::<Action, HandlerError>(HandlerError::UnsupportedOperation),
{
}

} // verus!
