use std::sync::Arc;

use mqtt_client::net::{NetManager, NetRequest, Socket, SocketCommand, WSControlType};

fn sent(command: SocketCommand) -> (usize, Vec<u8>) {
    match command {
        SocketCommand::Send { socket, data } => (socket, data.as_ref().clone()),
        SocketCommand::Close { .. } => panic!("a close where a send was due"),
    }
}

#[test]
fn bind_asks_for_a_listener() {
    let net = NetManager::new();
    match net.bind("0.0.0.0:1883", 7u32) {
        NetRequest::Bind { config, listener } => {
            assert_eq!(config, "0.0.0.0:1883");
            assert_eq!(listener, 7);
        }
        NetRequest::Connect { .. } => panic!("a connect where a bind was due"),
    }
}

#[test]
fn connect_asks_for_a_connection() {
    let net = NetManager::new();
    match net.connect("10.0.0.1:1883", 9u32) {
        NetRequest::Connect { config, listener } => {
            assert_eq!(config, "10.0.0.1:1883");
            assert_eq!(listener, 9);
        }
        NetRequest::Bind { .. } => panic!("a bind where a connect was due"),
    }
}

#[test]
fn send_bin_passes_the_bytes_on() {
    let socket = Socket::new(4);
    assert_eq!(socket.get_id(), 4);
    assert_eq!(sent(socket.send_bin(Arc::new(vec![1, 2, 3]))), (4, vec![1, 2, 3]));
    assert_eq!(sent(socket.send_bin(Arc::new(vec![]))), (4, vec![]));
}

#[test]
fn send_frames_a_short_payload() {
    let socket = Socket::new(2);
    assert_eq!(sent(socket.send(Arc::new(vec![1, 2, 3]))), (2, vec![0x82, 3, 1, 2, 3]));
    assert_eq!(sent(socket.send(Arc::new(vec![]))), (2, vec![0x82, 0]));
}

#[test]
fn send_frames_a_payload_of_125_bytes_with_one_length_byte() {
    let (_, framed) = sent(Socket::new(1).send(Arc::new(vec![7; 125])));
    assert_eq!(framed.len(), 127);
    assert_eq!(&framed[..2], &[0x82, 125]);
    assert_eq!(&framed[2..], &[7u8; 125][..]);
}

#[test]
fn send_frames_a_medium_payload_with_two_length_bytes() {
    let (_, framed) = sent(Socket::new(1).send(Arc::new(vec![7; 126])));
    assert_eq!(&framed[..4], &[0x82, 126, 0, 126]);
    assert_eq!(framed.len(), 130);
    let (_, framed) = sent(Socket::new(1).send(Arc::new(vec![9; 65535])));
    assert_eq!(&framed[..4], &[0x82, 126, 0xff, 0xff]);
    assert_eq!(framed.len(), 65539);
    let (_, framed) = sent(Socket::new(1).send(Arc::new(vec![9; 0x1234])));
    assert_eq!(&framed[..4], &[0x82, 126, 0x12, 0x34]);
}

#[test]
fn send_frames_a_long_payload_with_eight_length_bytes() {
    let (_, framed) = sent(Socket::new(1).send(Arc::new(vec![5; 65536])));
    assert_eq!(&framed[..10], &[0x82, 127, 0, 0, 0, 0, 0, 1, 0, 0]);
    assert_eq!(framed.len(), 65546);
    assert!(framed[10..].iter().all(|b| *b == 5));
    let (_, framed) = sent(Socket::new(1).send(Arc::new(vec![5; 0x01_02_03])));
    assert_eq!(&framed[..10], &[0x82, 127, 0, 0, 0, 0, 0, 1, 2, 3]);
}

#[test]
fn ping_and_pong_go_out_as_frames() {
    let socket = Socket::new(3);
    let ping = WSControlType::Ping(vec![1, 2]);
    assert!(ping.fits_control_frame());
    assert_eq!(sent(socket.send_control(ping)), (3, vec![0x89, 2, 1, 2]));
    let pong = WSControlType::Pong(vec![]);
    assert!(pong.fits_control_frame());
    assert_eq!(sent(socket.send_control(pong)), (3, vec![0x8a, 0]));
}

#[test]
fn close_message_closes_by_force() {
    let close = WSControlType::Close(1000, String::from("bye"));
    assert!(close.fits_control_frame());
    match Socket::new(5).send_control(close) {
        SocketCommand::Close { socket, force } => {
            assert_eq!(socket, 5);
            assert!(force);
        }
        SocketCommand::Send { .. } => panic!("a send where a close was due"),
    }
}

#[test]
fn control_frame_limit_is_125_bytes() {
    assert!(WSControlType::Ping(vec![0; 125]).fits_control_frame());
    assert!(!WSControlType::Ping(vec![0; 126]).fits_control_frame());
    assert!(!WSControlType::Pong(vec![0; 200]).fits_control_frame());
    assert!(WSControlType::Close(1001, "x".repeat(123)).fits_control_frame());
    assert!(!WSControlType::Close(1001, "x".repeat(124)).fits_control_frame());
    // two bytes for each of these letters
    assert!(!WSControlType::Close(1001, "é".repeat(62)).fits_control_frame());
    assert!(WSControlType::Close(1001, "é".repeat(61)).fits_control_frame());
}

#[test]
fn close_asks_for_the_connection_to_end() {
    for force in [false, true] {
        match Socket::new(8).close(force) {
            SocketCommand::Close { socket, force: f } => {
                assert_eq!(socket, 8);
                assert_eq!(f, force);
            }
            SocketCommand::Send { .. } => panic!("a send where a close was due"),
        }
    }
}
