//! File: the requests that load the system files (services, hosts, users)
//! into the gold layer.
use vstd::prelude::*;
use crate::etc::host::Host;
use crate::etc::passwd::User;
use crate::etc::service::Service;
use crate::num::{int_text, int_text_exec, nat_text_exec};
use crate::text::{append_chars, chars_of, join, join_exec, push_piece, string_from_chars, views};

verus! {

/// The head of the request that reloads the service table.
pub const SERVICE_HEADER: &'static str = r#"BEGIN; TRUNCATE gold_file_service;
    INSERT INTO gold_file_service (name, port, protocol, inserted_at) VALUES "#;

/// The head of the request that reloads the host table.
pub const HOST_HEADER: &'static str = r#"BEGIN; TRUNCATE gold_file_host;
    INSERT INTO gold_file_host (name, address, inserted_at) VALUES "#;

/// The head of the request that reloads the user table.
pub const USER_HEADER: &'static str = r#"BEGIN; TRUNCATE gold_file_user;
    INSERT INTO gold_file_user (name, uid, inserted_at) VALUES "#;

/// A transaction: the head, a space, the value tuples separated by commas,
/// and the commit.
pub open spec fn reload_text(header: Seq<char>, values: Seq<Seq<char>>) -> Seq<char> {
    header + " "@ + join(values, ","@) + "; COMMIT;"@
}

/// The value tuple of a service.
pub open spec fn service_value(s: Service) -> Seq<char> {
    "('"@ + s.name@ + "', "@ + int_text(s.port as int) + ", '"@ + s.protocol@ + "', CURRENT_TIMESTAMP)"@
}

/// The value tuple of a host.
pub open spec fn host_value(h: Host) -> Seq<char> {
    "('"@ + h.name@ + "', '"@ + h.address@ + "', CURRENT_TIMESTAMP)"@
}

/// The value tuple of a user.
pub open spec fn user_value(u: User) -> Seq<char> {
    "('"@ + u.name@ + "', '"@ + int_text(u.uid as int) + "', CURRENT_TIMESTAMP)"@
}

/// A transaction: the head, the value tuples and the commit.
pub(crate) fn reload_request(header: &str, values: &Vec<Vec<char>>) -> (r: Vec<char>)
    ensures
        r@ == reload_text(header@, views(values@)),
{
    let mut out = chars_of(header);
    append_chars(&mut out, &chars_of(" "));
    append_chars(&mut out, &join_exec(values, &chars_of(",")));
    append_chars(&mut out, &chars_of("; COMMIT;"));
    out
}

/// The value tuples of the services.
pub fn service_values(services: &Vec<Service>) -> (r: Vec<Vec<char>>)
    ensures
        views(r@) == services@.map_values(|s: Service| service_value(s)),
{
    let mut r: Vec<Vec<char>> = Vec::new();
    let mut i: usize = 0;
    while i < services.len()
        invariant
            i <= services@.len(),
            views(r@) == services@.take(i as int).map_values(|s: Service| service_value(s)),
        decreases services@.len() - i,
    {
        let s = &services[i];
        let mut v = chars_of("('");
        append_chars(&mut v, &chars_of(s.name.as_str()));
        append_chars(&mut v, &chars_of("', "));
        append_chars(&mut v, &nat_text_exec(s.port as u128));
        append_chars(&mut v, &chars_of(", '"));
        append_chars(&mut v, &chars_of(s.protocol.as_str()));
        append_chars(&mut v, &chars_of("', CURRENT_TIMESTAMP)"));
        proof {
            assert(v@ =~= service_value(*s));
        }
        push_piece(&mut r, v);
        proof {
            assert(services@.take(i + 1) =~= services@.take(i as int).push(services@[i as int]));
            assert(views(r@) =~= services@.take(i + 1).map_values(|s: Service| service_value(s)));
        }
        i = i + 1;
    }
    proof {
        assert(services@.take(services@.len() as int) =~= services@);
    }
    r
}

/// The value tuples of the hosts.
pub fn host_values(hosts: &Vec<Host>) -> (r: Vec<Vec<char>>)
    ensures
        views(r@) == hosts@.map_values(|h: Host| host_value(h)),
{
    let mut r: Vec<Vec<char>> = Vec::new();
    let mut i: usize = 0;
    while i < hosts.len()
        invariant
            i <= hosts@.len(),
            views(r@) == hosts@.take(i as int).map_values(|h: Host| host_value(h)),
        decreases hosts@.len() - i,
    {
        let h = &hosts[i];
        let mut v = chars_of("('");
        append_chars(&mut v, &chars_of(h.name.as_str()));
        append_chars(&mut v, &chars_of("', '"));
        append_chars(&mut v, &chars_of(h.address.as_str()));
        append_chars(&mut v, &chars_of("', CURRENT_TIMESTAMP)"));
        proof {
            assert(v@ =~= host_value(*h));
        }
        push_piece(&mut r, v);
        proof {
            assert(hosts@.take(i + 1) =~= hosts@.take(i as int).push(hosts@[i as int]));
            assert(views(r@) =~= hosts@.take(i + 1).map_values(|h: Host| host_value(h)));
        }
        i = i + 1;
    }
    proof {
        assert(hosts@.take(hosts@.len() as int) =~= hosts@);
    }
    r
}

/// The value tuples of the users.
pub fn user_values(users: &Vec<User>) -> (r: Vec<Vec<char>>)
    ensures
        views(r@) == users@.map_values(|u: User| user_value(u)),
{
    let mut r: Vec<Vec<char>> = Vec::new();
    let mut i: usize = 0;
    while i < users.len()
        invariant
            i <= users@.len(),
            views(r@) == users@.take(i as int).map_values(|u: User| user_value(u)),
        decreases users@.len() - i,
    {
        let u = &users[i];
        let mut v = chars_of("('");
        append_chars(&mut v, &chars_of(u.name.as_str()));
        append_chars(&mut v, &chars_of("', '"));
        append_chars(&mut v, &int_text_exec(u.uid as i128));
        append_chars(&mut v, &chars_of("', CURRENT_TIMESTAMP)"));
        proof {
            assert(v@ =~= user_value(*u));
        }
        push_piece(&mut r, v);
        proof {
            assert(users@.take(i + 1) =~= users@.take(i as int).push(users@[i as int]));
            assert(views(r@) =~= users@.take(i + 1).map_values(|u: User| user_value(u)));
        }
        i = i + 1;
    }
    proof {
        assert(users@.take(users@.len() as int) =~= users@);
    }
    r
}

/// The request that reloads the service table.
pub open spec fn services_text(services: Seq<Service>) -> Seq<char> {
    reload_text(SERVICE_HEADER@, services.map_values(|s: Service| service_value(s)))
}

/// The request that reloads the host table.
pub open spec fn hosts_text(hosts: Seq<Host>) -> Seq<char> {
    reload_text(HOST_HEADER@, hosts.map_values(|h: Host| host_value(h)))
}

/// The request that reloads the user table.
pub open spec fn users_text(users: Seq<User>) -> Seq<char> {
    reload_text(USER_HEADER@, users.map_values(|u: User| user_value(u)))
}

/// The request that reloads the three tables of system files, separated by
/// spaces.
pub open spec fn file_text(services: Seq<Service>, hosts: Seq<Host>, users: Seq<User>) -> Seq<char> {
    services_text(services) + " "@ + hosts_text(hosts) + " "@ + users_text(users)
}

/// The request that reloads the tables of services, hosts and users with
/// the rows read from the system files.
pub fn request(services: &Vec<Service>, hosts: &Vec<Host>, users: &Vec<User>) -> (r: String)
    ensures
        r@ == file_text(services@, hosts@, users@),
{
    let mut out = reload_request(SERVICE_HEADER, &service_values(services));
    append_chars(&mut out, &chars_of(" "));
    append_chars(&mut out, &reload_request(HOST_HEADER, &host_values(hosts)));
    append_chars(&mut out, &chars_of(" "));
    append_chars(&mut out, &reload_request(USER_HEADER, &user_values(users)));
    proof {
        assert(out@ =~= file_text(services@, hosts@, users@));
    }
    string_from_chars(&out)
}

} // verus!
