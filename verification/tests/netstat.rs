use rstracer::netstat::{read_sockets, SocketEntry, SocketOwner, SocketType};

fn entry(inode: u64) -> SocketEntry {
    SocketEntry {
        local_address: "127.0.0.1:8080".to_string(),
        remote_address: "0.0.0.0:0".to_string(),
        state: "Listen".to_string(),
        rx_queue: 3,
        tx_queue: 9,
        uid: 1000,
        inode,
    }
}

#[test]
fn sockets_take_their_last_holder() {
    let owners = vec![
        SocketOwner {
            inode: 10,
            pid: 1,
            comm: "first".to_string(),
        },
        SocketOwner {
            inode: 11,
            pid: 2,
            comm: "other".to_string(),
        },
        SocketOwner {
            inode: 10,
            pid: 3,
            comm: "last".to_string(),
        },
    ];
    let sockets = read_sockets(SocketType::Tcp, &vec![entry(10), entry(12)], &owners);
    assert_eq!(sockets.len(), 2);
    assert_eq!(sockets[0].socket_type, SocketType::Tcp);
    assert_eq!(sockets[0].pid, Some(3));
    assert_eq!(sockets[0].command, Some("last".to_string()));
    assert_eq!(sockets[0].local_address, "127.0.0.1:8080");
    assert_eq!(sockets[0].state, "Listen");
    assert_eq!(sockets[0].rx_queue, 3);
    assert_eq!(sockets[0].tx_queue, 3);
    assert_eq!(sockets[1].pid, None);
    assert_eq!(sockets[1].command, None);
    assert!(read_sockets(SocketType::Udp, &vec![], &owners).is_empty());
}
