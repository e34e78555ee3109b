//! Per-handle device operations.
//!
//! Each operation of the device's network nodes is split in two pure
//! halves: a builder for the exact call to issue, and an
//! interpretation of the completion result. The suspend/resume glue
//! in between is the bridge's business.
use vstd::prelude::*;

use crate::calls::DevicePath;
use crate::calls::IoctlInput;
use crate::calls::IoctlvInput;
use crate::calls::IoctlvInputView;
use crate::calls::CallView;
use crate::calls::IosCall;

verus! {

/// An internet address as it is marshalled into a send request's
/// destination field.
#[derive(Debug, Clone, Copy, PartialEq, Eq, Structural)]
pub struct IpV4DestAddr {
    pub ip: u32,
    pub port: u16,
}

/// The marshalled destination bytes: length 8, family 2, then the
/// port and address in big-endian order.
pub open spec fn dest_bytes(ip: u32, port: u16) -> Seq<u8> {
    seq![
        8u8,
        2u8,
        (port / 256) as u8,
        (port % 256) as u8,
        (ip / 0x1000000) as u8,
        ((ip / 0x10000) % 256) as u8,
        ((ip / 256) % 256) as u8,
        (ip % 256) as u8,
    ]
}

impl IpV4DestAddr {
    /// Marshal the address into its 8-byte wire form.
    pub fn to_array(&self) -> (r: [u8; 8])
        ensures
            r@ == dest_bytes(self.ip, self.port),
    {
        let r: [u8; 8] = [
            8u8,
            2u8,
            (self.port / 256) as u8,
            (self.port % 256) as u8,
            (self.ip / 0x1000000) as u8,
            ((self.ip / 0x10000) % 256) as u8,
            ((self.ip / 256) % 256) as u8,
            (self.ip % 256) as u8,
        ];
        assert(r@ =~= dest_bytes(self.ip, self.port));
        r
    }
}

/// Peer address a successful accept writes out: length, family, port
/// and address.
#[derive(Debug, Clone, Copy, PartialEq, Eq, Structural, Default)]
pub struct SocketAddrIn {
    pub sin_len: u8,
    pub sin_family: u8,
    pub sin_port: u16,
    pub sin_addr: u32,
}

/// Handle to the interface-management device node.
#[derive(Debug, Clone, Copy, PartialEq, Eq, Structural)]
pub struct ManageFd {
    pub fd: i32,
}

impl ManageFd {
    /// The open call for the management node.
    pub fn open_call() -> (c: IosCall)
        ensures
            c@ == (CallView::Open { path: DevicePath::NcdManage, mode: 0 }),
    {
        IosCall::Open { path: DevicePath::NcdManage, mode: 0 }
    }

    /// Wrap the open's result: a non-negative result is the handle.
    pub fn from_result(result: Result<i32, i32>) -> (r: Result<ManageFd, i32>)
        ensures
            r == (match result {
                Result::Ok(fd) => Result::<ManageFd, i32>::Ok(ManageFd { fd }),
                Result::Err(e) => Result::<ManageFd, i32>::Err(e),
            }),
    {
        match result {
            Result::Ok(fd) => Result::Ok(ManageFd { fd }),
            Result::Err(e) => Result::Err(e),
        }
    }

    /// The close call for this handle.
    pub fn close_call(&self) -> (c: IosCall)
        ensures
            c@ == (CallView::Close { fd: self.fd }),
    {
        IosCall::Close { fd: self.fd }
    }
}

/// Handle to the top-level network device node, which carries every
/// socket operation.
#[derive(Debug, Clone, Copy, PartialEq, Eq, Structural)]
pub struct TopFd {
    pub fd: i32,
}

impl TopFd {
    /// The open call for the top-level node.
    pub fn open_call() -> (c: IosCall)
        ensures
            c@ == (CallView::Open { path: DevicePath::IpTop, mode: 0 }),
    {
        IosCall::Open { path: DevicePath::IpTop, mode: 0 }
    }

    /// Wrap the open's result: a non-negative result is the handle.
    pub fn from_result(result: Result<i32, i32>) -> (r: Result<TopFd, i32>)
        ensures
            r == (match result {
                Result::Ok(fd) => Result::<TopFd, i32>::Ok(TopFd { fd }),
                Result::Err(e) => Result::<TopFd, i32>::Err(e),
            }),
    {
        match result {
            Result::Ok(fd) => Result::Ok(TopFd { fd }),
            Result::Err(e) => Result::Err(e),
        }
    }

    /// The close call for this handle.
    pub fn close_call(&self) -> (c: IosCall)
        ensures
            c@ == (CallView::Close { fd: self.fd }),
    {
        IosCall::Close { fd: self.fd }
    }

    /// Start the socket subsystem.
    pub fn socket_startup(&self) -> (c: IosCall)
        ensures
            c@ == (CallView::Ioctl { fd: self.fd, cmd: 31, input: IoctlInput::Empty, out_len: 0 }),
    {
        IosCall::Ioctl { fd: self.fd, cmd: 31, input: IoctlInput::Empty, out_len: 0 }
    }

    /// Query the assigned host address.
    pub fn get_host_id(&self) -> (c: IosCall)
        ensures
            c@ == (CallView::Ioctl { fd: self.fd, cmd: 16, input: IoctlInput::Empty, out_len: 0 }),
    {
        IosCall::Ioctl { fd: self.fd, cmd: 16, input: IoctlInput::Empty, out_len: 0 }
    }

    /// Create a stream socket.
    pub fn create_tcp_socket(&self) -> (c: IosCall)
        ensures
            c@ == (CallView::Ioctl {
                fd: self.fd,
                cmd: 15,
                input: IoctlInput::SockInit { family: 2, socktype: 1, protocol: 0 },
                out_len: 0,
            }),
    {
        IosCall::Ioctl {
            fd: self.fd,
            cmd: 15,
            input: IoctlInput::SockInit { family: 2, socktype: 1, protocol: 0 },
            out_len: 0,
        }
    }

    /// Create a datagram socket.
    pub fn create_udp_socket(&self) -> (c: IosCall)
        ensures
            c@ == (CallView::Ioctl {
                fd: self.fd,
                cmd: 15,
                input: IoctlInput::SockInit { family: 2, socktype: 2, protocol: 0 },
                out_len: 0,
            }),
    {
        IosCall::Ioctl {
            fd: self.fd,
            cmd: 15,
            input: IoctlInput::SockInit { family: 2, socktype: 2, protocol: 0 },
            out_len: 0,
        }
    }

    /// Bind `socket` to an address and port.
    pub fn bind_socket(&self, socket: i32, addr: u32, port: u16) -> (c: IosCall)
        ensures
            c@ == (CallView::Ioctl {
                fd: self.fd,
                cmd: 2,
                input: IoctlInput::SockAddr { socket, addr, port },
                out_len: 0,
            }),
    {
        IosCall::Ioctl {
            fd: self.fd,
            cmd: 2,
            input: IoctlInput::SockAddr { socket, addr, port },
            out_len: 0,
        }
    }

    /// Connect `socket` to an address and port.
    pub fn connect_socket(&self, socket: i32, addr: u32, port: u16) -> (c: IosCall)
        ensures
            c@ == (CallView::Ioctl {
                fd: self.fd,
                cmd: 4,
                input: IoctlInput::SockAddr { socket, addr, port },
                out_len: 0,
            }),
    {
        IosCall::Ioctl {
            fd: self.fd,
            cmd: 4,
            input: IoctlInput::SockAddr { socket, addr, port },
            out_len: 0,
        }
    }

    /// Put `socket` into the listening state.
    pub fn listen_socket(&self, socket: i32, backlog: u32) -> (c: IosCall)
        ensures
            c@ == (CallView::Ioctl {
                fd: self.fd,
                cmd: 10,
                input: (IoctlInput::Listen { socket: socket as u32, backlog }),
                out_len: 0,
            }),
    {
        IosCall::Ioctl {
            fd: self.fd,
            cmd: 10,
            input: IoctlInput::Listen { socket: #[verifier::truncate] (socket as u32), backlog },
            out_len: 0,
        }
    }

    /// Accept a connection on the listening `socket`; the peer
    /// address is written into an 8-byte out-buffer.
    pub fn accept_socket(&self, socket: i32) -> (c: IosCall)
        ensures
            c@ == (CallView::Ioctl {
                fd: self.fd,
                cmd: 1,
                input: IoctlInput::AcceptSock { socket },
                out_len: 8,
            }),
    {
        IosCall::Ioctl { fd: self.fd, cmd: 1, input: IoctlInput::AcceptSock { socket }, out_len: 8 }
    }

    /// Send `message` on `socket`, to `destaddr` for a datagram
    /// socket or to the connected peer without one.
    pub fn send_message(&self, socket: i32, message: &[u8], destaddr: Option<IpV4DestAddr>) -> (c:
        IosCall)
        ensures
            c@ == (CallView::Ioctlv {
                fd: self.fd,
                cmd: 13,
                input: IoctlvInputView::SendTo {
                    socket: socket as u32,
                    msg: message@,
                    dest: match destaddr {
                        Option::Some(a) => Option::Some(dest_bytes(a.ip, a.port)),
                        Option::None => Option::None,
                    },
                },
            }),
    {
        let msg = vstd::slice::slice_to_vec(message);
        let dest: Option<[u8; 8]> = match destaddr {
            Option::Some(a) => Option::Some(a.to_array()),
            Option::None => Option::None,
        };
        IosCall::Ioctlv {
            fd: self.fd,
            cmd: 13,
            input: IoctlvInput::SendTo {
                socket: #[verifier::truncate] (socket as u32),
                msg,
                dest,
            },
        }
    }
}

/// The result mapping of the address-discovery query: the device
/// answers the assigned address, so zero (nothing assigned) and
/// negative codes are both failures.
pub fn get_host_id_result(result: Result<i32, i32>) -> (r: Result<i32, i32>)
    ensures
        r == (match result {
            Result::Ok(v) => if v <= 0 {
                Result::<i32, i32>::Err(v)
            } else {
                Result::<i32, i32>::Ok(v)
            },
            Result::Err(e) => Result::<i32, i32>::Err(e),
        }),
{
    match result {
        Result::Ok(v) => if v <= 0 {
            Result::Err(v)
        } else {
            Result::Ok(v)
        },
        Result::Err(e) => Result::Err(e),
    }
}

/// The result mapping of an accept: a non-negative result is the new
/// peer handle, paired with the address the device wrote out.
pub fn accept_socket_result(result: Result<i32, i32>, addr: SocketAddrIn) -> (r: Result<
    (i32, SocketAddrIn),
    i32,
>)
    ensures
        r == (match result {
            Result::Ok(v) => if v < 0 {
                Result::<(i32, SocketAddrIn), i32>::Err(v)
            } else {
                Result::<(i32, SocketAddrIn), i32>::Ok((v, addr))
            },
            Result::Err(e) => Result::<(i32, SocketAddrIn), i32>::Err(e),
        }),
{
    match result {
        Result::Ok(v) => if v < 0 {
            Result::Err(v)
        } else {
            Result::Ok((v, addr))
        },
        Result::Err(e) => Result::Err(e),
    }
}

/// Handle to the startup-request device node.
#[derive(Debug, Clone, Copy, PartialEq, Eq, Structural)]
pub struct RequestFd {
    pub fd: i32,
}

impl RequestFd {
    /// The open call for the request node.
    pub fn open_call() -> (c: IosCall)
        ensures
            c@ == (CallView::Open { path: DevicePath::KdRequest, mode: 0 }),
    {
        IosCall::Open { path: DevicePath::KdRequest, mode: 0 }
    }

    /// Wrap the open's result: a non-negative result is the handle.
    pub fn from_result(result: Result<i32, i32>) -> (r: Result<RequestFd, i32>)
        ensures
            r == (match result {
                Result::Ok(fd) => Result::<RequestFd, i32>::Ok(RequestFd { fd }),
                Result::Err(e) => Result::<RequestFd, i32>::Err(e),
            }),
    {
        match result {
            Result::Ok(fd) => Result::Ok(RequestFd { fd }),
            Result::Err(e) => Result::Err(e),
        }
    }

    /// The close call for this handle.
    pub fn close_call(&self) -> (c: IosCall)
        ensures
            c@ == (CallView::Close { fd: self.fd }),
    {
        IosCall::Close { fd: self.fd }
    }

    /// Start the background network service; answers into a 32-byte
    /// out-buffer.
    pub fn nwc_24_startup(&self) -> (c: IosCall)
        ensures
            c@ == (CallView::Ioctl { fd: self.fd, cmd: 6, input: IoctlInput::Empty, out_len: 32 }),
    {
        IosCall::Ioctl { fd: self.fd, cmd: 6, input: IoctlInput::Empty, out_len: 32 }
    }
}

/// The greeting the connect-and-send flow pushes to its fixed peer.
pub open spec fn hello_world_message() -> Seq<u8> {
    seq![104u8, 101u8, 108u8, 108u8, 111u8, 44u8, 32u8, 119u8, 111u8, 114u8, 108u8, 100u8, 33u8, 10u8]
}

/// Where the connect-and-send flow stands: each phase waits for the
/// completion of one device operation.
#[derive(Debug, Clone, Copy, PartialEq, Eq, Structural)]
pub enum FlowPhase {
    OpenRequest,
    Nwc24,
    CloseRequest,
    OpenTop,
    SocketStartup,
    GetHostId,
    CreateSocket,
    Connect,
    Send,
    Done,
    Failed,
}

/// The sequential connect-and-send bring-up: open the request node,
/// kick the background service (its failure is ignored), open the
/// top-level node, start sockets, discover the address, then create
/// a stream socket, connect it to the fixed peer and push a greeting,
/// retrying only the send. Any other failure abandons the flow.
#[derive(Debug, Clone, Copy, PartialEq, Eq, Structural)]
pub struct NetInitFlow {
    pub phase: FlowPhase,
    pub request_fd: i32,
    pub top_fd: i32,
    pub ip: u32,
    pub sock: i32,
    pub err: i32,
}

/// The call whose completion each phase is waiting for.
pub open spec fn flow_call_spec(f: NetInitFlow) -> Option<CallView> {
    match f.phase {
        FlowPhase::OpenRequest => Option::Some(
            CallView::Open { path: DevicePath::KdRequest, mode: 0 },
        ),
        FlowPhase::Nwc24 => Option::Some(
            CallView::Ioctl { fd: f.request_fd, cmd: 6, input: IoctlInput::Empty, out_len: 32 },
        ),
        FlowPhase::CloseRequest => Option::Some(CallView::Close { fd: f.request_fd }),
        FlowPhase::OpenTop => Option::Some(CallView::Open { path: DevicePath::IpTop, mode: 0 }),
        FlowPhase::SocketStartup => Option::Some(
            CallView::Ioctl { fd: f.top_fd, cmd: 31, input: IoctlInput::Empty, out_len: 0 },
        ),
        FlowPhase::GetHostId => Option::Some(
            CallView::Ioctl { fd: f.top_fd, cmd: 16, input: IoctlInput::Empty, out_len: 0 },
        ),
        FlowPhase::CreateSocket => Option::Some(
            CallView::Ioctl {
                fd: f.top_fd,
                cmd: 15,
                input: IoctlInput::SockInit { family: 2, socktype: 1, protocol: 0 },
                out_len: 0,
            },
        ),
        FlowPhase::Connect => Option::Some(
            CallView::Ioctl {
                fd: f.top_fd,
                cmd: 4,
                input: IoctlInput::SockAddr { socket: f.sock, addr: 0xC0A80090, port: 43673 },
                out_len: 0,
            },
        ),
        FlowPhase::Send => Option::Some(
            CallView::Ioctlv {
                fd: f.top_fd,
                cmd: 13,
                input: IoctlvInputView::SendTo {
                    socket: f.sock as u32,
                    msg: hello_world_message(),
                    dest: Option::None,
                },
            },
        ),
        FlowPhase::Done => Option::None,
        FlowPhase::Failed => Option::None,
    }
}

/// The flow's transition on the mapped result of the awaited
/// operation. The background-service kick and the request-node close
/// go on whatever their results; a failed send is retried in place;
/// every other failure abandons the flow with the error recorded.
pub open spec fn flow_next_spec(f: NetInitFlow, result: Result<i32, i32>) -> NetInitFlow {
    match f.phase {
        FlowPhase::OpenRequest => match result {
            Result::Ok(fd) => NetInitFlow { phase: FlowPhase::Nwc24, request_fd: fd, ..f },
            Result::Err(e) => NetInitFlow { phase: FlowPhase::Failed, err: e, ..f },
        },
        FlowPhase::Nwc24 => NetInitFlow { phase: FlowPhase::CloseRequest, ..f },
        FlowPhase::CloseRequest => NetInitFlow { phase: FlowPhase::OpenTop, ..f },
        FlowPhase::OpenTop => match result {
            Result::Ok(fd) => NetInitFlow { phase: FlowPhase::SocketStartup, top_fd: fd, ..f },
            Result::Err(e) => NetInitFlow { phase: FlowPhase::Failed, err: e, ..f },
        },
        FlowPhase::SocketStartup => match result {
            Result::Ok(_) => NetInitFlow { phase: FlowPhase::GetHostId, ..f },
            Result::Err(e) => NetInitFlow { phase: FlowPhase::Failed, err: e, ..f },
        },
        FlowPhase::GetHostId => match result {
            Result::Ok(v) => NetInitFlow { phase: FlowPhase::CreateSocket, ip: v as u32, ..f },
            Result::Err(e) => NetInitFlow { phase: FlowPhase::Failed, err: e, ..f },
        },
        FlowPhase::CreateSocket => match result {
            Result::Ok(s) => NetInitFlow { phase: FlowPhase::Connect, sock: s, ..f },
            Result::Err(e) => NetInitFlow { phase: FlowPhase::Failed, err: e, ..f },
        },
        FlowPhase::Connect => match result {
            Result::Ok(_) => NetInitFlow { phase: FlowPhase::Send, ..f },
            Result::Err(e) => NetInitFlow { phase: FlowPhase::Failed, err: e, ..f },
        },
        FlowPhase::Send => match result {
            Result::Ok(_) => NetInitFlow { phase: FlowPhase::Done, ..f },
            Result::Err(_) => f,
        },
        FlowPhase::Done => f,
        FlowPhase::Failed => f,
    }
}

/// Start the connect-and-send flow; the returned call is issued
/// synchronously.
pub fn try_net_init_stuff() -> (r: (NetInitFlow, IosCall))
    ensures
        r.0 == (NetInitFlow {
            phase: FlowPhase::OpenRequest,
            request_fd: -1i32,
            top_fd: -1i32,
            ip: 0,
            sock: -1i32,
            err: 0,
        }),
        Option::Some(r.1@) == flow_call_spec(r.0),
{
    let f = NetInitFlow {
        phase: FlowPhase::OpenRequest,
        request_fd: -1,
        top_fd: -1,
        ip: 0,
        sock: -1,
        err: 0,
    };
    (f, RequestFd::open_call())
}

/// Advance the flow on the mapped result of the operation it awaited
/// and build the next call to issue, if any remains.
pub fn flow_step(f: &mut NetInitFlow, result: Result<i32, i32>) -> (c: Option<IosCall>)
    ensures
        *final(f) == flow_next_spec(*old(f), result),
        flow_call_spec(*final(f)) is Some ==> c is Some && Option::Some(c->Some_0@)
            == flow_call_spec(*final(f)),
        flow_call_spec(*final(f)) is None ==> c is None,
{
    match f.phase {
        FlowPhase::OpenRequest => {
            match result {
                Result::Ok(fd) => {
                    f.request_fd = fd;
                    f.phase = FlowPhase::Nwc24;
                    Option::Some(RequestFd { fd: f.request_fd }.nwc_24_startup())
                },
                Result::Err(e) => {
                    f.err = e;
                    f.phase = FlowPhase::Failed;
                    Option::None
                },
            }
        },
        FlowPhase::Nwc24 => {
            f.phase = FlowPhase::CloseRequest;
            Option::Some(RequestFd { fd: f.request_fd }.close_call())
        },
        FlowPhase::CloseRequest => {
            f.phase = FlowPhase::OpenTop;
            Option::Some(TopFd::open_call())
        },
        FlowPhase::OpenTop => {
            match result {
                Result::Ok(fd) => {
                    f.top_fd = fd;
                    f.phase = FlowPhase::SocketStartup;
                    Option::Some(TopFd { fd: f.top_fd }.socket_startup())
                },
                Result::Err(e) => {
                    f.err = e;
                    f.phase = FlowPhase::Failed;
                    Option::None
                },
            }
        },
        FlowPhase::SocketStartup => {
            match result {
                Result::Ok(_) => {
                    f.phase = FlowPhase::GetHostId;
                    Option::Some(TopFd { fd: f.top_fd }.get_host_id())
                },
                Result::Err(e) => {
                    f.err = e;
                    f.phase = FlowPhase::Failed;
                    Option::None
                },
            }
        },
        FlowPhase::GetHostId => {
            match result {
                Result::Ok(v) => {
                    f.ip = #[verifier::truncate] (v as u32);
                    f.phase = FlowPhase::CreateSocket;
                    Option::Some(TopFd { fd: f.top_fd }.create_tcp_socket())
                },
                Result::Err(e) => {
                    f.err = e;
                    f.phase = FlowPhase::Failed;
                    Option::None
                },
            }
        },
        FlowPhase::CreateSocket => {
            match result {
                Result::Ok(s) => {
                    f.sock = s;
                    f.phase = FlowPhase::Connect;
                    Option::Some(
                        TopFd { fd: f.top_fd }.connect_socket(f.sock, 0xC0A80090, 43673),
                    )
                },
                Result::Err(e) => {
                    f.err = e;
                    f.phase = FlowPhase::Failed;
                    Option::None
                },
            }
        },
        FlowPhase::Connect => {
            match result {
                Result::Ok(_) => {
                    f.phase = FlowPhase::Send;
                    Option::Some(send_greeting(f))
                },
                Result::Err(e) => {
                    f.err = e;
                    f.phase = FlowPhase::Failed;
                    Option::None
                },
            }
        },
        FlowPhase::Send => {
            match result {
                Result::Ok(_) => {
                    f.phase = FlowPhase::Done;
                    Option::None
                },
                Result::Err(_) => Option::Some(send_greeting(f)),
            }
        },
        FlowPhase::Done => Option::None,
        FlowPhase::Failed => Option::None,
    }
}

/// The greeting send of the flow's final phase.
fn send_greeting(f: &NetInitFlow) -> (c: IosCall)
    ensures
        c@ == (CallView::Ioctlv {
            fd: f.top_fd,
            cmd: 13,
            input: IoctlvInputView::SendTo {
                socket: f.sock as u32,
                msg: hello_world_message(),
                dest: Option::None,
            },
        }),
{
    let msg: Vec<u8> = vec![
        104u8,
        101u8,
        108u8,
        108u8,
        111u8,
        44u8,
        32u8,
        119u8,
        111u8,
        114u8,
        108u8,
        100u8,
        33u8,
        10u8,
    ];
    assert(msg@ =~= hello_world_message());
    IosCall::Ioctlv {
        fd: f.top_fd,
        cmd: 13,
        input: IoctlvInput::SendTo {
            socket: #[verifier::truncate] (f.sock as u32),
            msg,
            dest: Option::None,
        },
    }
}

} // verus!
