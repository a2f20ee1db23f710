//! Sockets, as the kernel lists them, with the process that holds each.
use vstd::prelude::*;
use crate::clock::now_millis;

verus! {

/// The transport protocol of a socket.
#[derive(Debug, Clone, Copy, PartialEq, Eq)]
pub enum SocketType {
    Tcp,
    Udp,
}

/// A row of the kernel's socket tables: addresses and state in written form.
#[derive(Debug, Clone)]
pub struct SocketEntry {
    pub local_address: String,
    pub remote_address: String,
    pub state: String,
    pub rx_queue: u32,
    pub tx_queue: u32,
    pub uid: u32,
    pub inode: u64,
}

/// A socket that a process holds open: the socket's inode, the process's
/// pid and command name.
#[derive(Debug, Clone)]
pub struct SocketOwner {
    pub inode: u64,
    pub pid: i32,
    pub comm: String,
}

/// A socket, with the process that holds it where one was found, and the
/// time (in milliseconds) at which it was read.
#[derive(Debug, Clone)]
pub struct Socket {
    pub socket_type: SocketType,
    pub local_address: String,
    pub remote_address: String,
    pub state: String,
    pub rx_queue: u32,
    pub tx_queue: u32,
    pub uid: u32,
    pub inode: u64,
    pub pid: Option<i32>,
    pub command: Option<String>,
    pub _created_at: i64,
}

/// The position of the last holder of the socket `inode` among `owners[..n]`
/// (a later holder replaces an earlier one).
pub open spec fn last_owner(owners: Seq<SocketOwner>, inode: u64, n: int) -> Option<int>
    decreases n,
{
    if n <= 0 {
        None
    } else if owners[n - 1].inode == inode {
        Some(n - 1)
    } else {
        last_owner(owners, inode, n - 1)
    }
}

/// The socket that a row gives, with its holder: the fields of the row (the
/// send queue as the row's receive queue, as the tables are read here), and
/// the pid and command of the holder where there is one.
pub open spec fn socket_of(s: Socket, t: SocketType, e: SocketEntry, owners: Seq<SocketOwner>) -> bool {
    &&& s.socket_type == t
    &&& s.local_address@ == e.local_address@
    &&& s.remote_address@ == e.remote_address@
    &&& s.state@ == e.state@
    &&& s.rx_queue == e.rx_queue
    &&& s.tx_queue == e.rx_queue
    &&& s.uid == e.uid
    &&& s.inode == e.inode
    &&& match last_owner(owners, e.inode, owners.len() as int) {
        Some(j) => s.pid == Some(owners[j].pid) && (s.command matches Some(c) && c@ == owners[j].comm@),
        None => s.pid is None && s.command is None,
    }
}

/// The last holder of the socket `inode`.
fn owner_of(owners: &Vec<SocketOwner>, inode: u64) -> (r: Option<usize>)
    ensures
        r matches Some(j) ==> j < owners@.len(),
        match r {
            Some(j) => last_owner(owners@, inode, owners@.len() as int) == Some(j as int),
            None => last_owner(owners@, inode, owners@.len() as int) is None,
        },
{
    let mut n: usize = owners.len();
    while n > 0
        invariant
            n <= owners@.len(),
            last_owner(owners@, inode, owners@.len() as int) == last_owner(owners@, inode, n as int),
        decreases n,
    {
        if owners[n - 1].inode == inode {
            return Some(n - 1);
        }
        n = n - 1;
    }
    None
}

/// The sockets of the rows of one table, in order, each with the process
/// that holds it (the last one listed, where several do) and the time at
/// which it was read.
pub fn read_sockets(socket_type: SocketType, entries: &Vec<SocketEntry>, owners: &Vec<SocketOwner>) -> (r: Vec<Socket>)
    ensures
        r@.len() == entries@.len(),
        forall|i: int| 0 <= i < r@.len() ==> socket_of(#[trigger] r@[i], socket_type, entries@[i], owners@),
        forall|i: int|
            0 <= i < r@.len() ==> {
                &&& (#[trigger] r@[i]).socket_type == socket_type
                &&& r@[i].local_address@ == entries@[i].local_address@
                &&& r@[i].remote_address@ == entries@[i].remote_address@
                &&& r@[i].state@ == entries@[i].state@
                &&& r@[i].uid == entries@[i].uid
                &&& r@[i].inode == entries@[i].inode
                &&& r@[i].rx_queue == entries@[i].rx_queue
            },
        forall|i: int|
            0 <= i < r@.len() ==> ((#[trigger] r@[i]).pid matches Some(p) ==> exists|j: int|
                0 <= j < owners@.len() && owners@[j].inode == entries@[i].inode && owners@[j].pid == p),
        forall|i: int|
            0 <= i < r@.len() ==> ((#[trigger] r@[i]).pid is None <==> forall|j: int|
                0 <= j < owners@.len() ==> owners@[j].inode != entries@[i].inode),
{
    let mut out: Vec<Socket> = Vec::new();
    let mut i: usize = 0;
    while i < entries.len()
        invariant
            i <= entries@.len(),
            out@.len() == i,
            forall|k: int| 0 <= k < i ==> socket_of(#[trigger] out@[k], socket_type, entries@[k], owners@),
        decreases entries@.len() - i,
    {
        let e = &entries[i];
        let (pid, command): (Option<i32>, Option<String>) = match owner_of(owners, e.inode) {
            Some(j) => (Some(owners[j].pid), Some(owners[j].comm.clone())),
            None => (None, None),
        };
        let socket = Socket {
            socket_type,
            local_address: e.local_address.clone(),
            remote_address: e.remote_address.clone(),
            state: e.state.clone(),
            rx_queue: e.rx_queue,
            tx_queue: e.rx_queue,
            uid: e.uid,
            inode: e.inode,
            pid,
            command,
            _created_at: now_millis(),
        };
        out.push(socket);
        i = i + 1;
    }
    proof {
        assert forall|k: int| 0 <= k < out@.len() implies {
            &&& ((#[trigger] out@[k]).pid matches Some(p) ==> exists|j: int|
                0 <= j < owners@.len() && owners@[j].inode == entries@[k].inode && owners@[j].pid == p)
            &&& (out@[k].pid is None <==> forall|j: int|
                0 <= j < owners@.len() ==> owners@[j].inode != entries@[k].inode)
        } by {
            socket_keeps_its_row(out@[k], socket_type, entries@[k], owners@);
            last_owner_is_the_last_holder(owners@, entries@[k].inode, owners@.len() as int);
        }
    }
    out
}

/// The last holder of a socket among the first `n` owners: a holder of that
/// inode, with none after it; none when no owner holds it.
pub proof fn last_owner_is_the_last_holder(owners: Seq<SocketOwner>, inode: u64, n: int)
    requires
        n <= owners.len(),
    ensures
        last_owner(owners, inode, n) matches Some(j) ==> 0 <= j < n && owners[j].inode == inode
            && forall|k: int| j < k < n ==> owners[k].inode != inode,
        last_owner(owners, inode, n) is None ==> forall|k: int| 0 <= k < n ==> owners[k].inode != inode,
    decreases n,
{
    if n > 0 {
        last_owner_is_the_last_holder(owners, inode, n - 1);
    }
}

/// A socket keeps what its row says: its protocol, both addresses, state,
/// receive queue, owner's uid and inode; its pid and command are those of
/// the last process that holds the inode, and none when no process does.
pub proof fn socket_keeps_its_row(s: Socket, t: SocketType, e: SocketEntry, owners: Seq<SocketOwner>)
    requires
        socket_of(s, t, e, owners),
    ensures
        s.socket_type == t,
        s.local_address@ == e.local_address@,
        s.remote_address@ == e.remote_address@,
        s.state@ == e.state@,
        s.rx_queue == e.rx_queue,
        s.uid == e.uid,
        s.inode == e.inode,
        s.pid matches Some(p) ==> exists|j: int|
            0 <= j < owners.len() && owners[j].inode == e.inode && owners[j].pid == p && (
            s.command matches Some(c) && c@ == owners[j].comm@) && forall|k: int|
                j < k < owners.len() ==> owners[k].inode != e.inode,
        s.pid is None <==> forall|j: int| 0 <= j < owners.len() ==> owners[j].inode != e.inode,
{
    last_owner_is_the_last_holder(owners, e.inode, owners.len() as int);
    match last_owner(owners, e.inode, owners.len() as int) {
        Some(j) => {
            assert(owners[j].inode == e.inode);
        },
        None => {},
    }
}

} // verus!
