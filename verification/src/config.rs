//! The addresses the mediator binds to and advertises, from its settings.

use vstd::prelude::*;
use vstd::string::StringExecFns;
use crate::text::has_prefix;
use crate::text::join;
use crate::text::starts_with;

verus! {

/// The addresses of a mediator.
pub struct Endpoints {
    /// Where to listen: the endpoint root as it was set.
    pub server_host: String,
    /// What is advertised to clients as the mediator's address.
    pub service_endpoint: String,
    /// Where clients send their messages.
    pub didcomm_endpoint: String,
}

pub struct EndpointsModel {
    pub server_host: Seq<char>,
    pub service_endpoint: Seq<char>,
    pub didcomm_endpoint: Seq<char>,
}

impl DeepView for Endpoints {
    type V = EndpointsModel;

    open spec fn deep_view(&self) -> EndpointsModel {
        EndpointsModel {
            server_host: self.server_host@,
            service_endpoint: self.service_endpoint@,
            didcomm_endpoint: self.didcomm_endpoint@,
        }
    }
}

/// `address` with `http://` before it, unless it begins with that already.
pub open spec fn with_scheme(address: Seq<char>) -> Seq<char> {
    if starts_with(address, "http://"@) {
        address
    } else {
        "http://"@ + address
    }
}

/// The addresses that follow from the settings. The endpoint root is
/// `127.0.0.1:8005` where none is set; the advertised address is the base
/// domain, or the endpoint root with its scheme where none is set; messages
/// go to `/didcomm` below it.
pub open spec fn endpoints_of(
    endpoint_root: Option<Seq<char>>,
    base_domain: Option<Seq<char>>,
) -> EndpointsModel {
    let server_host = match endpoint_root {
        Some(root) => root,
        None => "127.0.0.1:8005"@,
    };
    let service_endpoint = match base_domain {
        Some(domain) => domain,
        None => with_scheme(server_host),
    };
    EndpointsModel {
        server_host,
        service_endpoint,
        didcomm_endpoint: service_endpoint + "/didcomm"@,
    }
}

/// Puts `http://` before an address that does not begin with it.
pub fn ensure_scheme(address: &str) -> (full: String)
    ensures
        full@ == with_scheme(address@),
{
    if has_prefix(address, "http://") {
        String::from_str(address)
    } else {
        join("http://", address)
    }
}

/// Works out the mediator's addresses from its two settings.
pub fn resolve_endpoints(endpoint_root: Option<String>, base_domain: Option<String>) -> (endpoints:
    Endpoints)
    ensures
        endpoints.deep_view() == endpoints_of(endpoint_root.deep_view(), base_domain.deep_view()),
{
    let server_host = match endpoint_root {
        Some(root) => root,
        None => String::from_str("127.0.0.1:8005"),
    };
    let service_endpoint = match base_domain {
        Some(domain) => domain,
        None => ensure_scheme(server_host.as_str()),
    };
    let didcomm_endpoint = join(service_endpoint.as_str(), "/didcomm");
    Endpoints { server_host, service_endpoint, didcomm_endpoint }
}

} // verus!
