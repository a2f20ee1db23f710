//! Dimension: the requests that load the services and hosts into the
//! in-memory gold dimensions.
use vstd::prelude::*;
use crate::etc::host::Host;
use crate::etc::service::Service;
use crate::pipeline::stage::file::{
    host_value, host_values, reload_request, reload_text, service_value, service_values,
};
use crate::text::{append_chars, chars_of, string_from_chars};

verus! {

/// The head of the request that reloads the service dimension.
pub const SERVICE_HEADER: &'static str = r#"BEGIN; TRUNCATE memory.gold_dim_services;
    INSERT INTO memory.gold_dim_services (name, port, protocol, inserted_at) VALUES "#;

/// The head of the request that reloads the host dimension.
pub const HOST_HEADER: &'static str = r#"BEGIN; TRUNCATE memory.gold_dim_hosts;
    INSERT INTO memory.gold_dim_hosts (name, address, inserted_at) VALUES "#;

/// The request that reloads both dimensions, separated by a space.
pub open spec fn dimension_text(services: Seq<Service>, hosts: Seq<Host>) -> Seq<char> {
    reload_text(SERVICE_HEADER@, services.map_values(|s: Service| service_value(s))) + " "@
        + reload_text(HOST_HEADER@, hosts.map_values(|h: Host| host_value(h)))
}

/// The request that reloads the service and host dimensions with the rows
/// read from the system files.
pub fn request(services: &Vec<Service>, hosts: &Vec<Host>) -> (r: String)
    ensures
        r@ == dimension_text(services@, hosts@),
{
    let mut out = reload_request(SERVICE_HEADER, &service_values(services));
    append_chars(&mut out, &chars_of(" "));
    append_chars(&mut out, &reload_request(HOST_HEADER, &host_values(hosts)));
    string_from_chars(&out)
}

} // verus!
