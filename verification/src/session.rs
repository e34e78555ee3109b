//! Runtime session manager.
//!
//! After bring-up hands over the long-lived handles, the session
//! cycles forever: accept a peer, receive into a fixed buffer, react
//! to the two recognised text commands, and on disconnect shut the
//! peer down and accept again. A specific "handle invalidated
//! elsewhere" code stops the loop silently; any other negative
//! accept or receive result halts it without retry.
use vstd::prelude::*;

use crate::calls::CallView;
use crate::calls::IoctlInput;
use crate::calls::IoctlvInput;
use crate::calls::IoctlvInputView;
use crate::calls::IosCall;
use crate::text::format_position;
use crate::text::position_payload;

verus! {

/// Result code meaning the handle was invalidated by an unrelated
/// teardown; the loop stops silently when it sees this.
pub open spec fn stale_handle_code() -> i32 {
    -8i32
}

/// Snapshot of the external game state's three coordinate fields, in
/// whole units.
#[derive(Debug, Clone, Copy, PartialEq, Eq, Structural)]
pub struct PlayerPos {
    pub x: i32,
    pub y: i32,
    pub z: i32,
}

/// The two recognised 3-byte command prefixes of a received payload.
#[derive(Debug, Clone, Copy, PartialEq, Eq, Structural)]
pub enum RecvCommand {
    /// Payload begins with the position-query tag.
    PositionQuery,
    /// Payload begins with the displace tag.
    Displace,
    /// Anything else is ignored.
    Other,
}

/// The position-query tag: the bytes of "pos".
pub open spec fn pos_tag() -> Seq<u8> {
    seq![112u8, 111u8, 115u8]
}

/// The displace tag: the bytes of "fly".
pub open spec fn fly_tag() -> Seq<u8> {
    seq![102u8, 108u8, 121u8]
}

/// Acknowledgement sent after a displace command: the bytes of
/// "weeeeeeee" and a line feed.
pub open spec fn fly_ack() -> Seq<u8> {
    seq![119u8, 101u8, 101u8, 101u8, 101u8, 101u8, 101u8, 101u8, 101u8, 10u8]
}

pub open spec fn starts_with_tag(data: Seq<u8>, tag: Seq<u8>) -> bool {
    tag.len() <= data.len() && data.subrange(0, tag.len() as int) == tag
}

/// Classifier for received payloads.
#[derive(Debug, Clone, PartialEq)]
pub struct RecvManager;

impl RecvManager {
    /// Classify a received payload by its 3-byte prefix.
    pub fn process(&mut self, data: &[u8]) -> (c: RecvCommand)
        ensures
            (c == RecvCommand::PositionQuery) <==> starts_with_tag(data@, pos_tag()),
            (c == RecvCommand::Displace) <==> starts_with_tag(data@, fly_tag()),
            (c == RecvCommand::Other) <==> (!starts_with_tag(data@, pos_tag())
                && !starts_with_tag(data@, fly_tag())),
    {
        if data.len() >= 3 {
            let b0: u8 = *vstd::slice::slice_index_get(data, 0);
            let b1: u8 = *vstd::slice::slice_index_get(data, 1);
            let b2: u8 = *vstd::slice::slice_index_get(data, 2);
            if b0 == 112 && b1 == 111 && b2 == 115 {
                proof {
                    assert(data@.subrange(0, 3) =~= pos_tag());
                }
                return RecvCommand::PositionQuery;
            }
            if b0 == 102 && b1 == 108 && b2 == 121 {
                proof {
                    assert(data@.subrange(0, 3) =~= fly_tag());
                }
                return RecvCommand::Displace;
            }
            proof {
                assert(data@.subrange(0, 3)[0] == b0);
                assert(!(data@.subrange(0, 3) == pos_tag()));
                assert(!(data@.subrange(0, 3) == fly_tag()));
            }
            return RecvCommand::Other;
        }
        RecvCommand::Other
    }
}

/// Placeholder for chunked outgoing transfers; nothing is ever
/// queued, so there is never a next chunk.
#[derive(Debug, Clone, PartialEq)]
pub struct SendManager;

impl SendManager {
    /// Note that `bytes` outgoing bytes were handed to the device.
    pub fn advance(&mut self, bytes: usize) {
    }

    /// The next queued chunk of outgoing data.
    pub fn next_chunk(&mut self) -> (r: Option<Vec<u8>>)
        ensures
            r is None,
    {
        Option::None
    }
}

/// Long-lived state of the session loop: the handles inherited from
/// bring-up, the current peer if one is connected, the three
/// in-flight flags and the last terminal error.
#[derive(Debug, Clone, PartialEq)]
pub struct NetManager {
    pub top_fd: i32,
    pub accept_socket: i32,
    pub current_socket: Option<i32>,
    /// Address discovered during bring-up, kept for log lines.
    pub ip: u32,
    pub recv_manager: RecvManager,
    pub is_accept: bool,
    pub is_recv: bool,
    pub is_close: bool,
    pub last_err: i32,
}

impl NetManager {
    /// At most one operation is in flight at a time.
    pub open spec fn flags_ok(self) -> bool {
        !(self.is_accept && self.is_recv) && !(self.is_accept && self.is_close) && !(self.is_recv
            && self.is_close)
    }
}

/// The accept call on the listening socket.
pub open spec fn accept_call_spec(m: NetManager) -> CallView {
    CallView::Ioctl {
        fd: m.top_fd,
        cmd: 1,
        input: IoctlInput::AcceptSock { socket: m.accept_socket },
        out_len: 8,
    }
}

/// The scatter-gather receive into the fixed 1024-byte buffer.
pub open spec fn recv_call_spec(m: NetManager, cur: i32) -> CallView {
    CallView::Ioctlv {
        fd: m.top_fd,
        cmd: 12,
        input: IoctlvInputView::RecvFrom { socket: cur, buffer_len: 1024 },
    }
}

/// The bidirectional shutdown of the current peer.
pub open spec fn shutdown_call_spec(m: NetManager, cur: i32) -> CallView {
    CallView::Ioctl {
        fd: m.top_fd,
        cmd: 14,
        input: IoctlInput::Shutdown { socket: cur, how: 2 },
        out_len: 0,
    }
}

/// A send to the current peer, with no destination address.
pub open spec fn send_call_spec(m: NetManager, cur: i32, msg: Seq<u8>) -> CallView {
    CallView::Ioctlv {
        fd: m.top_fd,
        cmd: 13,
        input: IoctlvInputView::SendTo { socket: cur as u32, msg, dest: Option::None },
    }
}

/// Create the session state from the handles bring-up acquired and
/// issue the first accept.
pub fn create_and_kickoff_net_manager(top_fd: i32, accept_socket: i32, ip: u32) -> (r: (
    NetManager,
    IosCall,
))
    ensures
        r.0 == (NetManager {
            top_fd,
            accept_socket,
            current_socket: Option::None,
            ip,
            recv_manager: RecvManager,
            is_accept: true,
            is_recv: false,
            is_close: false,
            last_err: 0,
        }),
        r.0.flags_ok(),
        r.1@ == accept_call_spec(r.0),
{
    let mut m = NetManager {
        top_fd,
        accept_socket,
        current_socket: Option::None,
        ip,
        recv_manager: RecvManager,
        is_accept: false,
        is_recv: false,
        is_close: false,
        last_err: 0,
    };
    let c = do_accept(&mut m);
    (m, c)
}

/// Issue accept on the listening handle.
pub fn do_accept(m: &mut NetManager) -> (c: IosCall)
    ensures
        *final(m) == (NetManager { is_accept: true, ..*old(m) }),
        c@ == accept_call_spec(*old(m)),
{
    m.is_accept = true;
    IosCall::Ioctl {
        fd: m.top_fd,
        cmd: 1,
        input: IoctlInput::AcceptSock { socket: m.accept_socket },
        out_len: 8,
    }
}

/// Issue the scatter-gather receive on the current peer, if there is
/// one.
pub fn do_recv(m: &mut NetManager) -> (c: Option<IosCall>)
    ensures
        old(m).current_socket is None ==> *final(m) == *old(m) && c is None,
        old(m).current_socket is Some ==> *final(m) == (NetManager {
            is_recv: true,
            ..*old(m)
        }) && c is Some && c->Some_0@ == recv_call_spec(*old(m), old(m).current_socket->Some_0),
{
    match m.current_socket {
        Option::None => Option::None,
        Option::Some(cur) => {
            m.is_recv = true;
            Option::Some(
                IosCall::Ioctlv {
                    fd: m.top_fd,
                    cmd: 12,
                    input: IoctlvInput::RecvFrom { socket: cur, buffer_len: 1024 },
                },
            )
        },
    }
}

/// Issue the bidirectional shutdown of the current peer, if there is
/// one.
pub fn do_close_current(m: &mut NetManager) -> (c: Option<IosCall>)
    ensures
        old(m).current_socket is None ==> *final(m) == *old(m) && c is None,
        old(m).current_socket is Some ==> *final(m) == (NetManager {
            is_close: true,
            ..*old(m)
        }) && c is Some && c->Some_0@ == shutdown_call_spec(
            *old(m),
            old(m).current_socket->Some_0,
        ),
{
    match m.current_socket {
        Option::None => Option::None,
        Option::Some(cur) => {
            m.is_close = true;
            Option::Some(
                IosCall::Ioctl {
                    fd: m.top_fd,
                    cmd: 14,
                    input: IoctlInput::Shutdown { socket: cur, how: 2 },
                    out_len: 0,
                },
            )
        },
    }
}

/// Fire-and-forget send of `data` to the current peer; without a
/// peer there is nothing to do.
pub fn send_write_request(m: &NetManager, data: &[u8]) -> (c: Option<IosCall>)
    ensures
        m.current_socket is None ==> c is None,
        m.current_socket is Some ==> c is Some && c->Some_0@ == send_call_spec(
            *m,
            m.current_socket->Some_0,
            data@,
        ),
{
    match m.current_socket {
        Option::None => Option::None,
        Option::Some(cur) => {
            let msg = vstd::slice::slice_to_vec(data);
            Option::Some(
                IosCall::Ioctlv {
                    fd: m.top_fd,
                    cmd: 13,
                    input: IoctlvInput::SendTo {
                        socket: #[verifier::truncate] (cur as u32),
                        msg,
                        dest: Option::None,
                    },
                },
            )
        },
    }
}

/// Interpret an accept completion: the stale-handle code stops
/// silently, any other negative result records the error and halts,
/// success records the new peer and issues the first receive on it.
pub fn on_accept(m: &mut NetManager, result: i32) -> (c: Option<IosCall>)
    ensures
        result == stale_handle_code() ==> *final(m) == (NetManager {
            is_accept: false,
            ..*old(m)
        }) && c is None,
        result < 0 && result != stale_handle_code() ==> *final(m) == (NetManager {
            is_accept: false,
            last_err: result,
            ..*old(m)
        }) && c is None,
        result >= 0 ==> *final(m) == (NetManager {
            is_accept: false,
            current_socket: Option::Some(result),
            is_recv: true,
            ..*old(m)
        }) && c is Some && c->Some_0@ == recv_call_spec(*old(m), result),
{
    m.is_accept = false;
    if result == -8 {
        return Option::None;
    }
    if result < 0 {
        m.last_err = result;
        return Option::None;
    }
    m.current_socket = Option::Some(result);
    do_recv(m)
}

/// Interpret a shutdown completion: whatever its result, forget the
/// current peer and accept again.
pub fn on_close(m: &mut NetManager, result: i32) -> (c: IosCall)
    ensures
        *final(m) == (NetManager {
            is_close: false,
            current_socket: Option::None,
            is_accept: true,
            ..*old(m)
        }),
        c@ == accept_call_spec(*old(m)),
{
    let _ = result;
    m.is_close = false;
    m.current_socket = Option::None;
    do_accept(m)
}

/// What a receive completion asks of the host: an optional
/// fire-and-forget write, the follow-up operation (the next receive,
/// or the peer shutdown on disconnect), and an optional update of the
/// external game state.
#[derive(Debug, Clone, PartialEq)]
pub struct RecvOutcome {
    pub write: Option<IosCall>,
    pub next: Option<IosCall>,
    pub player_update: Option<PlayerPos>,
}

/// The displaced coordinates: the vertical field moves up by a fixed
/// offset of 200.
pub open spec fn displaced(p: PlayerPos) -> PlayerPos {
    PlayerPos { y: vstd::wrapping::i32_specs::wrapping_add(p.y, 200), ..p }
}

/// Interpret a receive completion of `result` bytes. `data` is what
/// the device wrote into the receive buffer and `player` is the
/// current game state, if its pointer is non-null. A payload tagged
/// as position query answers with the coordinate text; one tagged as
/// displace moves the player up and acknowledges; anything else is
/// ignored. The receive is then re-issued. Zero received bytes mean
/// the peer closed, so the shutdown follows; the stale-handle code
/// stops silently and any other negative result halts the loop.
pub fn on_recv(m: &mut NetManager, result: i32, data: &[u8], player: Option<PlayerPos>) -> (out:
    RecvOutcome)
    requires
        result > 0 ==> data@.len() == result && result <= 1024,
    ensures
        result == stale_handle_code() || (result < 0 && result != stale_handle_code()) ==> (
        *final(m) == (NetManager { is_recv: false, ..*old(m) }) && out.write is None
            && out.next is None && out.player_update is None),
        result == 0 && old(m).current_socket is Some ==> (*final(m) == (NetManager {
            is_recv: false,
            is_close: true,
            ..*old(m)
        }) && out.write is None && out.next is Some && out.next->Some_0@ == shutdown_call_spec(
            *old(m),
            old(m).current_socket->Some_0,
        ) && out.player_update is None),
        result == 0 && old(m).current_socket is None ==> (*final(m) == (NetManager {
            is_recv: false,
            ..*old(m)
        }) && out.write is None && out.next is None && out.player_update is None),
        result > 0 ==> ({
            let pos = starts_with_tag(data@, pos_tag());
            let fly = starts_with_tag(data@, fly_tag());
            let has_peer = old(m).current_socket is Some;
            &&& *final(m) == (NetManager { is_recv: has_peer, ..*old(m) })
            &&& out.player_update == (if fly && player is Some {
                Option::Some(displaced(player->Some_0))
            } else {
                Option::<PlayerPos>::None
            })
            &&& (pos && player is Some && has_peer ==> out.write is Some
                && out.write->Some_0@ == send_call_spec(
                *old(m),
                old(m).current_socket->Some_0,
                position_payload(
                    player->Some_0.x as int,
                    player->Some_0.y as int,
                    player->Some_0.z as int,
                ),
            ))
            &&& (fly && player is Some && has_peer ==> out.write is Some
                && out.write->Some_0@ == send_call_spec(
                *old(m),
                old(m).current_socket->Some_0,
                fly_ack(),
            ))
            &&& (!(pos && player is Some) && !(fly && player is Some) || !has_peer
                ==> out.write is None)
            &&& (has_peer ==> out.next is Some && out.next->Some_0@ == recv_call_spec(
                *old(m),
                old(m).current_socket->Some_0,
            ))
            &&& (!has_peer ==> out.next is None)
        }),
{
    m.is_recv = false;
    if result == -8 {
        return RecvOutcome {
            write: Option::None,
            next: Option::None,
            player_update: Option::None,
        };
    }
    if result < 0 {
        return RecvOutcome {
            write: Option::None,
            next: Option::None,
            player_update: Option::None,
        };
    }
    if result == 0 {
        let next = do_close_current(m);
        return RecvOutcome { write: Option::None, next, player_update: Option::None };
    }
    let command = m.recv_manager.process(data);
    let mut write: Option<IosCall> = Option::None;
    let mut player_update: Option<PlayerPos> = Option::None;
    match (command, player) {
        (RecvCommand::PositionQuery, Option::Some(p)) => {
            let payload = format_position(p.x, p.y, p.z);
            write = send_write_request(m, payload.as_slice());
        },
        (RecvCommand::Displace, Option::Some(p)) => {
            player_update = Option::Some(PlayerPos { x: p.x, y: p.y.wrapping_add(200), z: p.z });
            let ack: Vec<u8> = vec![
                119u8,
                101u8,
                101u8,
                101u8,
                101u8,
                101u8,
                101u8,
                101u8,
                101u8,
                10u8,
            ];
            assert(ack@ =~= fly_ack());
            write = send_write_request(m, ack.as_slice());
        },
        _ => {
        },
    }
    let next = do_recv(m);
    RecvOutcome { write, next, player_update }
}

/// Shut the session down from outside: close the top-level handle.
/// The return value is passed through so the call can sit in a
/// shutdown hook's return path.
pub fn net_mgr_shutdown(m: Option<&NetManager>, ret: i32) -> (r: (i32, Option<IosCall>))
    ensures
        r.0 == ret,
        m is Some ==> r.1 is Some && r.1->Some_0@ == (CallView::Close { fd: m->Some_0.top_fd }),
        m is None ==> r.1 is None,
{
    match m {
        Option::Some(mgr) => (ret, Option::Some(IosCall::Close { fd: mgr.top_fd })),
        Option::None => (ret, Option::None),
    }
}

} // verus!
