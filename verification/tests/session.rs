use wiinet::calls::IoctlInput;
use wiinet::calls::IoctlvInput;
use wiinet::calls::IosCall;
use wiinet::session::create_and_kickoff_net_manager;
use wiinet::session::do_accept;
use wiinet::session::do_close_current;
use wiinet::session::do_recv;
use wiinet::session::net_mgr_shutdown;
use wiinet::session::on_accept;
use wiinet::session::on_close;
use wiinet::session::on_recv;
use wiinet::session::send_write_request;
use wiinet::session::PlayerPos;
use wiinet::session::RecvCommand;
use wiinet::session::RecvManager;

fn assert_recv_on(call: &IosCall, top_fd: i32, socket: i32) {
    match call {
        IosCall::Ioctlv {
            fd,
            cmd: 12,
            input: IoctlvInput::RecvFrom { socket: s, buffer_len },
        } => {
            assert_eq!(*fd, top_fd);
            assert_eq!(*s, socket);
            assert_eq!(*buffer_len, 1024);
        }
        other => panic!("expected a receive, got {other:?}"),
    }
}

// Accept completing with peer handle 3 issues the receive on handle
// 3; the receive completing with zero bytes issues the shutdown on
// handle 3; the shutdown completing, with any result, issues accept
// on the listening handle again.
#[test]
fn session_cycle_accept_recv_close_accept() {
    let (mut m, _kick) = create_and_kickoff_net_manager(7, 4, 0x0A00_0001);
    let recv = on_accept(&mut m, 3).expect("a receive must follow the accept");
    assert_recv_on(&recv, 7, 3);
    assert_eq!(m.current_socket, Some(3));
    assert!(m.is_recv && !m.is_accept && !m.is_close);

    let out = on_recv(&mut m, 0, &[], None);
    assert!(out.write.is_none());
    assert!(out.player_update.is_none());
    match out.next.expect("the shutdown must follow a disconnect") {
        IosCall::Ioctl {
            fd,
            cmd: 14,
            input: IoctlInput::Shutdown { socket, how },
            ..
        } => {
            assert_eq!(fd, 7);
            assert_eq!(socket, 3);
            assert_eq!(how, 2);
        }
        other => panic!("expected a shutdown, got {other:?}"),
    }
    assert!(m.is_close && !m.is_recv);

    let again = on_close(&mut m, -37);
    match again {
        IosCall::Ioctl {
            fd,
            cmd: 1,
            input: IoctlInput::AcceptSock { socket },
            ..
        } => {
            assert_eq!(fd, 7);
            assert_eq!(socket, 4);
        }
        other => panic!("expected an accept, got {other:?}"),
    }
    assert_eq!(m.current_socket, None);
    assert!(m.is_accept && !m.is_close);
}

// A receive completing with the bytes "pos" while the game state
// sits at (1, 2, 3) issues exactly one write, whose payload is the
// coordinate text.
#[test]
fn position_query_answers_with_the_coordinate_text() {
    let (mut m, _kick) = create_and_kickoff_net_manager(7, 4, 0);
    let _ = on_accept(&mut m, 3).unwrap();
    let player = PlayerPos { x: 1, y: 2, z: 3 };
    let out = on_recv(&mut m, 3, b"pos", Some(player));
    let mut writes = 0usize;
    if let Some(call) = &out.write {
        writes += 1;
        match call {
            IosCall::Ioctlv {
                fd,
                cmd: 13,
                input: IoctlvInput::SendTo { socket, msg, dest },
            } => {
                assert_eq!(*fd, 7);
                assert_eq!(*socket, 3);
                assert_eq!(msg, &b"1:2:3\n".to_vec());
                assert!(dest.is_none());
            }
            other => panic!("expected a send, got {other:?}"),
        }
    }
    assert_eq!(writes, 1);
    assert!(out.player_update.is_none());
    assert_recv_on(&out.next.expect("the receive must be re-issued"), 7, 3);
}

#[test]
fn position_query_formats_negative_coordinates() {
    let (mut m, _kick) = create_and_kickoff_net_manager(2, 4, 0);
    let _ = on_accept(&mut m, 9).unwrap();
    let player = PlayerPos {
        x: -12,
        y: 0,
        z: 345,
    };
    let out = on_recv(&mut m, 4, b"pos?", Some(player));
    match out.write.expect("the query must be answered") {
        IosCall::Ioctlv {
            input: IoctlvInput::SendTo { msg, .. },
            ..
        } => assert_eq!(msg, b"-12:0:345\n".to_vec()),
        other => panic!("expected a send, got {other:?}"),
    }
}

// The displace command moves the vertical coordinate up by the fixed
// offset and acknowledges with the literal text.
#[test]
fn displace_command_moves_the_player_and_acknowledges() {
    let (mut m, _kick) = create_and_kickoff_net_manager(7, 4, 0);
    let _ = on_accept(&mut m, 3).unwrap();
    let player = PlayerPos { x: 10, y: 50, z: -4 };
    let out = on_recv(&mut m, 3, b"fly", Some(player));
    assert_eq!(
        out.player_update,
        Some(PlayerPos {
            x: 10,
            y: 250,
            z: -4
        })
    );
    match out.write.expect("the displace must be acknowledged") {
        IosCall::Ioctlv {
            input: IoctlvInput::SendTo { msg, .. },
            ..
        } => assert_eq!(msg, b"weeeeeeee\n".to_vec()),
        other => panic!("expected a send, got {other:?}"),
    }
    assert_recv_on(&out.next.unwrap(), 7, 3);
}

// Without a game state, both commands are ignored and the loop just
// keeps receiving.
#[test]
fn commands_without_game_state_are_ignored() {
    let (mut m, _kick) = create_and_kickoff_net_manager(7, 4, 0);
    let _ = on_accept(&mut m, 3).unwrap();
    let out = on_recv(&mut m, 3, b"pos", None);
    assert!(out.write.is_none());
    assert!(out.player_update.is_none());
    assert_recv_on(&out.next.unwrap(), 7, 3);
}

// An unrecognised payload is ignored and the receive is re-issued.
#[test]
fn unknown_payload_keeps_the_loop_receiving() {
    let (mut m, _kick) = create_and_kickoff_net_manager(7, 4, 0);
    let _ = on_accept(&mut m, 3).unwrap();
    let player = PlayerPos { x: 1, y: 2, z: 3 };
    let out = on_recv(&mut m, 5, b"hello", Some(player));
    assert!(out.write.is_none());
    assert!(out.player_update.is_none());
    assert_recv_on(&out.next.unwrap(), 7, 3);
}

// The stale-handle code stops the loop silently; other negative
// results halt it with nothing re-issued.
#[test]
fn stale_handle_and_errors_stop_the_loop() {
    let (mut m, _kick) = create_and_kickoff_net_manager(7, 4, 0);
    assert!(on_accept(&mut m, -8).is_none());
    assert_eq!(m.last_err, 0);
    assert!(!m.is_accept);

    let (mut m, _kick) = create_and_kickoff_net_manager(7, 4, 0);
    assert!(on_accept(&mut m, -116).is_none());
    assert_eq!(m.last_err, -116);

    let (mut m, _kick) = create_and_kickoff_net_manager(7, 4, 0);
    let _ = on_accept(&mut m, 3).unwrap();
    let out = on_recv(&mut m, -8, &[], None);
    assert!(out.write.is_none() && out.next.is_none());
    let out = on_recv(&mut m, -116, &[], None);
    assert!(out.write.is_none() && out.next.is_none());
    assert!(!m.is_recv);
}

#[test]
fn recv_manager_classifies_payloads() {
    let mut r = RecvManager;
    assert_eq!(r.process(b"pos"), RecvCommand::PositionQuery);
    assert_eq!(r.process(b"pos and more"), RecvCommand::PositionQuery);
    assert_eq!(r.process(b"fly!"), RecvCommand::Displace);
    assert_eq!(r.process(b"po"), RecvCommand::Other);
    assert_eq!(r.process(b""), RecvCommand::Other);
    assert_eq!(r.process(b"POS"), RecvCommand::Other);
}

#[test]
fn issuing_helpers_respect_the_missing_peer() {
    let (mut m, _kick) = create_and_kickoff_net_manager(7, 4, 0);
    assert!(do_recv(&mut m).is_none());
    assert!(do_close_current(&mut m).is_none());
    assert!(send_write_request(&m, b"x").is_none());
    let c = do_accept(&mut m);
    assert!(matches!(c, IosCall::Ioctl { cmd: 1, .. }));
}

#[test]
fn shutdown_closes_the_top_handle_and_passes_the_value_through() {
    let (m, _kick) = create_and_kickoff_net_manager(7, 4, 0);
    let (ret, call) = net_mgr_shutdown(Some(&m), 42);
    assert_eq!(ret, 42);
    assert_eq!(call, Some(IosCall::Close { fd: 7 }));
    let (ret, call) = net_mgr_shutdown(None, 13);
    assert_eq!(ret, 13);
    assert!(call.is_none());
}
