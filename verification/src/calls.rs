//! Descriptions of the asynchronous device calls that the state
//! machines ask the host to issue.
//!
//! The device layer offers `open`, `close`, a single-buffer control
//! call and a scatter-gather control call. A transition never performs
//! one of these; it returns an [`IosCall`] value naming the call and
//! every parameter the marshalled buffers would carry, and the host
//! reports the outcome back through a completion result.
use vstd::prelude::*;

verus! {

/// The device nodes the bring-up protocol opens.
#[derive(Debug, Clone, Copy, PartialEq, Eq, Structural)]
pub enum DevicePath {
    NcdManage,
    IpTop,
    KdRequest,
}

impl DevicePath {
    /// The textual path of the device node.
    pub fn path_str(&self) -> (r: &'static str)
        ensures
            r@ == self.spec_path(),
    {
        match self {
            DevicePath::NcdManage => "/dev/net/ncd/manage",
            DevicePath::IpTop => "/dev/net/ip/top",
            DevicePath::KdRequest => "/dev/net/kd/request",
        }
    }

    pub open spec fn spec_path(self) -> Seq<char> {
        match self {
            DevicePath::NcdManage => "/dev/net/ncd/manage"@,
            DevicePath::IpTop => "/dev/net/ip/top"@,
            DevicePath::KdRequest => "/dev/net/kd/request"@,
        }
    }
}

/// Input payload of a single-buffer control call, as the marshalled
/// bytes would describe it.
#[derive(Debug, Clone, Copy, PartialEq, Eq, Structural)]
pub enum IoctlInput {
    /// No input buffer.
    Empty,
    /// Socket creation triple: family, type, protocol.
    SockInit { family: i32, socktype: i32, protocol: i32 },
    /// A socket together with an internet address, used by bind and
    /// connect.
    SockAddr { socket: i32, addr: u32, port: u16 },
    /// Listen parameters.
    Listen { socket: u32, backlog: u32 },
    /// Bidirectional shutdown parameters.
    Shutdown { socket: i32, how: i32 },
    /// The accepting socket, passed as the only input word.
    AcceptSock { socket: i32 },
}

/// Input of a scatter-gather control call.
#[derive(Debug, Clone, PartialEq)]
pub enum IoctlvInput {
    /// No input vectors, `out_cnt` output buffers (link status and
    /// hardware-address queries).
    StatusOut { out_cnt: i32 },
    /// A send request: message bytes plus send parameters, with an
    /// optional marshalled destination address.
    SendTo { socket: u32, msg: Vec<u8>, dest: Option<[u8; 8]> },
    /// A receive request into a fixed buffer.
    RecvFrom { socket: i32, buffer_len: u32 },
}

/// One asynchronous device call, with every parameter the host must
/// marshal.
#[derive(Debug, Clone, PartialEq)]
pub enum IosCall {
    Open { path: DevicePath, mode: i32 },
    Close { fd: i32 },
    Ioctl { fd: i32, cmd: i32, input: IoctlInput, out_len: u32 },
    Ioctlv { fd: i32, cmd: i32, input: IoctlvInput },
}

/// Mathematical image of an [`IoctlvInput`]: byte vectors become
/// sequences, so that contracts can pin the payload down.
pub enum IoctlvInputView {
    StatusOut { out_cnt: i32 },
    SendTo { socket: u32, msg: Seq<u8>, dest: Option<Seq<u8>> },
    RecvFrom { socket: i32, buffer_len: u32 },
}

/// Mathematical image of an [`IosCall`].
pub enum CallView {
    Open { path: DevicePath, mode: i32 },
    Close { fd: i32 },
    Ioctl { fd: i32, cmd: i32, input: IoctlInput, out_len: u32 },
    Ioctlv { fd: i32, cmd: i32, input: IoctlvInputView },
}

impl View for IoctlvInput {
    type V = IoctlvInputView;

    open spec fn view(&self) -> IoctlvInputView {
        match self {
            IoctlvInput::StatusOut { out_cnt } => (IoctlvInputView::StatusOut {
                out_cnt: *out_cnt,
            }),
            IoctlvInput::SendTo { socket, msg, dest } => (IoctlvInputView::SendTo {
                socket: *socket,
                msg: msg@,
                dest: match dest {
                    Option::Some(a) => Option::Some(a@),
                    Option::None => Option::None,
                },
            }),
            IoctlvInput::RecvFrom { socket, buffer_len } => (IoctlvInputView::RecvFrom {
                socket: *socket,
                buffer_len: *buffer_len,
            }),
        }
    }
}

impl View for IosCall {
    type V = CallView;

    open spec fn view(&self) -> CallView {
        match self {
            IosCall::Open { path, mode } => CallView::Open { path: *path, mode: *mode },
            IosCall::Close { fd } => CallView::Close { fd: *fd },
            IosCall::Ioctl { fd, cmd, input, out_len } => (CallView::Ioctl {
                fd: *fd,
                cmd: *cmd,
                input: *input,
                out_len: *out_len,
            }),
            IosCall::Ioctlv { fd, cmd, input } => (CallView::Ioctlv {
                fd: *fd,
                cmd: *cmd,
                input: input@,
            }),
        }
    }
}

} // verus!
