//! Staged device bring-up protocol.
//!
//! An ordered list of named steps is executed one at a time. Each
//! completion result is interpreted by the current step: success
//! records the fact the step fetched and advances to the next step,
//! failure records the error and asks the host to arm a backoff timer
//! whose expiry replays the very same step. When the last step
//! succeeds, the protocol hands its long-lived handles over to the
//! session manager.
use vstd::prelude::*;

use crate::calls::CallView;
use crate::calls::DevicePath;
use crate::calls::IoctlInput;
use crate::calls::IoctlvInput;
use crate::calls::IoctlvInputView;
use crate::calls::IosCall;
use crate::system::OSAlarm;

verus! {

/// The named bring-up steps. The protocol is configured with an
/// ordered list of these.
#[derive(Debug, Clone, Copy, PartialEq, Eq, Structural)]
pub enum InitChainState {
    OpenManageFd,
    GetLinkStatus,
    CheckMac,
    CloseManageFd,
    OpenTopFd,
    OpenRequestFd,
    NWC24Startup,
    CloseRequestFd,
    SocketStartup,
    CheckIp,
    CreateSocket,
    CreateUdpSocket,
    ConnectSocket,
    SendSocketMessage,
    BindSocket,
    ListenSocket,
}

impl InitChainState {
    pub open spec fn spec_name(self) -> Seq<char> {
        match self {
            InitChainState::OpenManageFd => "OpenManageFd"@,
            InitChainState::GetLinkStatus => "GetLinkStatus"@,
            InitChainState::CheckMac => "CheckMac"@,
            InitChainState::CloseManageFd => "CloseManageFd"@,
            InitChainState::OpenTopFd => "OpenTopFd"@,
            InitChainState::OpenRequestFd => "OpenRequestFd"@,
            InitChainState::NWC24Startup => "NWC24Startup"@,
            InitChainState::CloseRequestFd => "CloseRequestFd"@,
            InitChainState::SocketStartup => "SocketStartup"@,
            InitChainState::CheckIp => "CheckIp"@,
            InitChainState::CreateSocket => "CreateSocket"@,
            InitChainState::CreateUdpSocket => "CreateUdpSocket"@,
            InitChainState::ConnectSocket => "ConnectSocket"@,
            InitChainState::SendSocketMessage => "SendSocketMessage"@,
            InitChainState::BindSocket => "BindSocket"@,
            InitChainState::ListenSocket => "ListenSocket"@,
        }
    }

    /// The step's name, for log lines.
    pub fn get_name_str(&self) -> (r: &'static str)
        ensures
            r@ == self.spec_name(),
    {
        match self {
            InitChainState::OpenManageFd => "OpenManageFd",
            InitChainState::GetLinkStatus => "GetLinkStatus",
            InitChainState::CheckMac => "CheckMac",
            InitChainState::CloseManageFd => "CloseManageFd",
            InitChainState::OpenTopFd => "OpenTopFd",
            InitChainState::OpenRequestFd => "OpenRequestFd",
            InitChainState::NWC24Startup => "NWC24Startup",
            InitChainState::CloseRequestFd => "CloseRequestFd",
            InitChainState::SocketStartup => "SocketStartup",
            InitChainState::CheckIp => "CheckIp",
            InitChainState::CreateSocket => "CreateSocket",
            InitChainState::CreateUdpSocket => "CreateUdpSocket",
            InitChainState::ConnectSocket => "ConnectSocket",
            InitChainState::SendSocketMessage => "SendSocketMessage",
            InitChainState::BindSocket => "BindSocket",
            InitChainState::ListenSocket => "ListenSocket",
        }
    }
}

/// The step list the service uses: bring the interface up, discover
/// the assigned address, announce the service over a datagram socket,
/// then prepare the listening socket for the session manager.
pub fn init_chain() -> (r: Vec<InitChainState>)
    ensures
        r@ =~= seq![
            InitChainState::OpenManageFd,
            InitChainState::GetLinkStatus,
            InitChainState::CheckMac,
            InitChainState::CloseManageFd,
            InitChainState::OpenTopFd,
            InitChainState::OpenRequestFd,
            InitChainState::NWC24Startup,
            InitChainState::CloseRequestFd,
            InitChainState::SocketStartup,
            InitChainState::CheckIp,
            InitChainState::CreateUdpSocket,
            InitChainState::SendSocketMessage,
            InitChainState::CreateSocket,
            InitChainState::BindSocket,
            InitChainState::ListenSocket,
        ],
{
    vec![
        InitChainState::OpenManageFd,
        InitChainState::GetLinkStatus,
        InitChainState::CheckMac,
        InitChainState::CloseManageFd,
        InitChainState::OpenTopFd,
        InitChainState::OpenRequestFd,
        InitChainState::NWC24Startup,
        InitChainState::CloseRequestFd,
        InitChainState::SocketStartup,
        InitChainState::CheckIp,
        InitChainState::CreateUdpSocket,
        InitChainState::SendSocketMessage,
        InitChainState::CreateSocket,
        InitChainState::BindSocket,
        InitChainState::ListenSocket,
    ]
}

/// State of one bring-up run: the configured step list, the current
/// step ordinal, every handle and fact acquired so far, and the retry
/// bookkeeping.
#[derive(Debug, Clone, PartialEq)]
pub struct NetInitData {
    /// Immutable step configuration.
    pub chain: Vec<InitChainState>,
    pub manage_fd: i32,
    pub top_fd: i32,
    pub request_fd: i32,
    /// Discovered host address, zero until the address-discovery step
    /// succeeds.
    pub ip: u32,
    pub udp_socket: i32,
    pub socket: i32,
    pub bound_socket: i32,
    /// Current step ordinal; equal to the chain length once the
    /// protocol has finished.
    pub state: usize,
    /// Hardware address, written in place by the device during the
    /// corresponding query step.
    pub mac_buf: [u8; 6],
    pub last_err: i32,
    pub retry_count: u32,
    pub ioctl_err: i32,
    /// Timer record the host arms for retry backoff.
    pub retry_alarm: OSAlarm,
}

impl NetInitData {
    pub open spec fn wf(self) -> bool {
        self.state <= self.chain@.len() && self.chain@.len() <= usize::MAX
    }

    /// The protocol has run every configured step.
    pub open spec fn done(self) -> bool {
        self.state == self.chain@.len()
    }

    pub open spec fn current_step(self) -> InitChainState {
        self.chain@[self.state as int]
    }
}

/// How the current step interprets a completion result. Negative
/// results are failures, except that the restart step accepts the
/// "already running" code -15; the address-discovery step treats a
/// result of zero as failure as well, since no address was assigned.
pub open spec fn step_ok(step: InitChainState, result: i32) -> bool {
    match step {
        InitChainState::NWC24Startup => result >= 0 || result == -15,
        InitChainState::CheckIp => result > 0,
        _ => result >= 0,
    }
}

/// The fact a step records on success: an opened handle, a handle
/// cleared by a close, a discovered address or a created socket.
pub open spec fn step_facts(step: InitChainState, d: NetInitData, result: i32) -> NetInitData {
    match step {
        InitChainState::OpenManageFd => NetInitData { manage_fd: result, ..d },
        InitChainState::CloseManageFd => NetInitData { manage_fd: -1i32, ..d },
        InitChainState::OpenTopFd => NetInitData { top_fd: result, ..d },
        InitChainState::OpenRequestFd => NetInitData { request_fd: result, ..d },
        InitChainState::CloseRequestFd => NetInitData { request_fd: -1i32, ..d },
        InitChainState::CheckIp => NetInitData { ip: result as u32, ..d },
        InitChainState::CreateSocket => NetInitData { socket: result, ..d },
        InitChainState::CreateUdpSocket => NetInitData { udp_socket: result, ..d },
        InitChainState::ConnectSocket => NetInitData { bound_socket: result, ..d },
        _ => d,
    }
}

/// Retry counter bump; the counter wraps rather than overflow, since
/// retries are unbounded by design.
pub open spec fn bump(c: u32) -> u32 {
    if c == u32::MAX {
        0
    } else {
        (c + 1) as u32
    }
}

/// State after the current step interprets `result`: on success the
/// step's fact is recorded, the retry counter clears and the ordinal
/// advances; on failure only the retry bookkeeping changes.
pub open spec fn complete_step(d: NetInitData, result: i32) -> NetInitData {
    let step = d.current_step();
    if step_ok(step, result) {
        let d2 = step_facts(step, d, result);
        NetInitData { retry_count: 0, state: (d.state + 1) as usize, ..d2 }
    } else {
        NetInitData { retry_count: bump(d.retry_count), last_err: result, ..d }
    }
}

/// The announcement payload the service broadcasts once the datagram
/// socket exists: the bytes of "hello" and two line feeds.
pub open spec fn hello_message() -> Seq<u8> {
    seq![104u8, 101u8, 108u8, 108u8, 111u8, 10u8, 10u8]
}

/// Marshalled broadcast destination of the announcement: length 8,
/// family 2, port 12345, address 255.255.255.255.
pub open spec fn broadcast_dest() -> Seq<u8> {
    seq![8u8, 2u8, 48u8, 57u8, 255u8, 255u8, 255u8, 255u8]
}

/// The device call a step issues, as a function of the facts recorded
/// so far. A step reads handles and the discovered address only, so a
/// failed attempt replays with identical parameters.
pub open spec fn issue_spec(step: InitChainState, d: NetInitData) -> CallView {
    match step {
        InitChainState::OpenManageFd => (CallView::Open {
            path: DevicePath::NcdManage,
            mode: 0,
        }),
        InitChainState::GetLinkStatus => (CallView::Ioctlv {
            fd: d.manage_fd,
            cmd: 7,
            input: IoctlvInputView::StatusOut { out_cnt: 1 },
        }),
        InitChainState::CheckMac => (CallView::Ioctlv {
            fd: d.manage_fd,
            cmd: 8,
            input: IoctlvInputView::StatusOut { out_cnt: 2 },
        }),
        InitChainState::CloseManageFd => CallView::Close { fd: d.manage_fd },
        InitChainState::OpenTopFd => CallView::Open { path: DevicePath::IpTop, mode: 0 },
        InitChainState::OpenRequestFd => CallView::Open { path: DevicePath::KdRequest, mode: 0 },
        InitChainState::NWC24Startup => (CallView::Ioctl {
            fd: d.request_fd,
            cmd: 6,
            input: IoctlInput::Empty,
            out_len: 32,
        }),
        InitChainState::CloseRequestFd => CallView::Close { fd: d.request_fd },
        InitChainState::SocketStartup => (CallView::Ioctl {
            fd: d.top_fd,
            cmd: 31,
            input: IoctlInput::Empty,
            out_len: 0,
        }),
        InitChainState::CheckIp => (CallView::Ioctl {
            fd: d.top_fd,
            cmd: 16,
            input: IoctlInput::Empty,
            out_len: 0,
        }),
        InitChainState::CreateSocket => (CallView::Ioctl {
            fd: d.top_fd,
            cmd: 15,
            input: IoctlInput::SockInit { family: 2, socktype: 1, protocol: 0 },
            out_len: 0,
        }),
        InitChainState::CreateUdpSocket => (CallView::Ioctl {
            fd: d.top_fd,
            cmd: 15,
            input: IoctlInput::SockInit { family: 2, socktype: 2, protocol: 0 },
            out_len: 0,
        }),
        InitChainState::ConnectSocket => (CallView::Ioctl {
            fd: d.top_fd,
            cmd: 4,
            input: IoctlInput::SockAddr { socket: d.socket, addr: 0xC0A80090, port: 43673 },
            out_len: 0,
        }),
        InitChainState::SendSocketMessage => (CallView::Ioctlv {
            fd: d.top_fd,
            cmd: 13,
            input: IoctlvInputView::SendTo {
                socket: d.udp_socket as u32,
                msg: hello_message(),
                dest: Option::Some(broadcast_dest()),
            },
        }),
        InitChainState::BindSocket => (CallView::Ioctl {
            fd: d.top_fd,
            cmd: 2,
            input: IoctlInput::SockAddr { socket: d.socket, addr: d.ip, port: 43673 },
            out_len: 0,
        }),
        InitChainState::ListenSocket => (CallView::Ioctl {
            fd: d.top_fd,
            cmd: 10,
            input: IoctlInput::Listen { socket: d.socket as u32, backlog: 0 },
            out_len: 0,
        }),
    }
}

/// What the host must do after a completion is interpreted.
#[derive(Debug, Clone, PartialEq)]
pub enum BringupAction {
    /// Issue this call for the next step.
    Issue(IosCall),
    /// Arm the backoff timer; its expiry replays the current step.
    ArmRetry,
    /// The chain is done: release the bring-up state and start the
    /// session manager with these handles.
    StartSession { top_fd: i32, accept_socket: i32, ip: u32 },
}

/// Mathematical image of a [`BringupAction`].
pub enum BringupActionView {
    Issue(CallView),
    ArmRetry,
    StartSession { top_fd: i32, accept_socket: i32, ip: u32 },
}

impl View for BringupAction {
    type V = BringupActionView;

    open spec fn view(&self) -> BringupActionView {
        match self {
            BringupAction::Issue(c) => BringupActionView::Issue(c@),
            BringupAction::ArmRetry => BringupActionView::ArmRetry,
            BringupAction::StartSession { top_fd, accept_socket, ip } => (
            BringupActionView::StartSession {
                top_fd: *top_fd,
                accept_socket: *accept_socket,
                ip: *ip,
            }),
        }
    }
}

/// The action that follows a completion: retry on failure, the next
/// step's call while steps remain, the session hand-over after the
/// last one.
pub open spec fn action_spec(d: NetInitData, result: i32) -> BringupActionView {
    if !step_ok(d.current_step(), result) {
        BringupActionView::ArmRetry
    } else {
        let d2 = complete_step(d, result);
        if d2.state < d.chain@.len() {
            BringupActionView::Issue(issue_spec(d.chain@[d2.state as int], d2))
        } else {
            BringupActionView::StartSession {
                top_fd: d2.top_fd,
                accept_socket: d2.socket,
                ip: d2.ip,
            }
        }
    }
}

/// Interpret a completion result for `step`.
pub fn step_result_ok(step: InitChainState, result: i32) -> (r: bool)
    ensures
        r == step_ok(step, result),
{
    match step {
        InitChainState::NWC24Startup => result >= 0 || result == -15,
        InitChainState::CheckIp => result > 0,
        _ => result >= 0,
    }
}

/// Record the fact a successful `step` fetched.
fn step_record(d: &mut NetInitData, step: InitChainState, result: i32)
    ensures
        *final(d) == step_facts(step, *old(d), result),
{
    match step {
        InitChainState::OpenManageFd => {
            d.manage_fd = result;
        },
        InitChainState::CloseManageFd => {
            d.manage_fd = -1;
        },
        InitChainState::OpenTopFd => {
            d.top_fd = result;
        },
        InitChainState::OpenRequestFd => {
            d.request_fd = result;
        },
        InitChainState::CloseRequestFd => {
            d.request_fd = -1;
        },
        InitChainState::CheckIp => {
            d.ip = #[verifier::truncate] (result as u32);
        },
        InitChainState::CreateSocket => {
            d.socket = result;
        },
        InitChainState::CreateUdpSocket => {
            d.udp_socket = result;
        },
        InitChainState::ConnectSocket => {
            d.bound_socket = result;
        },
        _ => {
        },
    }
}

/// Build the device call `step` issues against the facts in `d`.
pub fn step_issue(step: InitChainState, d: &NetInitData) -> (r: IosCall)
    ensures
        r@ == issue_spec(step, *d),
{
    match step {
        InitChainState::OpenManageFd => IosCall::Open { path: DevicePath::NcdManage, mode: 0 },
        InitChainState::GetLinkStatus => (IosCall::Ioctlv {
            fd: d.manage_fd,
            cmd: 7,
            input: IoctlvInput::StatusOut { out_cnt: 1 },
        }),
        InitChainState::CheckMac => (IosCall::Ioctlv {
            fd: d.manage_fd,
            cmd: 8,
            input: IoctlvInput::StatusOut { out_cnt: 2 },
        }),
        InitChainState::CloseManageFd => IosCall::Close { fd: d.manage_fd },
        InitChainState::OpenTopFd => IosCall::Open { path: DevicePath::IpTop, mode: 0 },
        InitChainState::OpenRequestFd => IosCall::Open { path: DevicePath::KdRequest, mode: 0 },
        InitChainState::NWC24Startup => (IosCall::Ioctl {
            fd: d.request_fd,
            cmd: 6,
            input: IoctlInput::Empty,
            out_len: 32,
        }),
        InitChainState::CloseRequestFd => IosCall::Close { fd: d.request_fd },
        InitChainState::SocketStartup => (IosCall::Ioctl {
            fd: d.top_fd,
            cmd: 31,
            input: IoctlInput::Empty,
            out_len: 0,
        }),
        InitChainState::CheckIp => (IosCall::Ioctl {
            fd: d.top_fd,
            cmd: 16,
            input: IoctlInput::Empty,
            out_len: 0,
        }),
        InitChainState::CreateSocket => (IosCall::Ioctl {
            fd: d.top_fd,
            cmd: 15,
            input: IoctlInput::SockInit { family: 2, socktype: 1, protocol: 0 },
            out_len: 0,
        }),
        InitChainState::CreateUdpSocket => (IosCall::Ioctl {
            fd: d.top_fd,
            cmd: 15,
            input: IoctlInput::SockInit { family: 2, socktype: 2, protocol: 0 },
            out_len: 0,
        }),
        InitChainState::ConnectSocket => (IosCall::Ioctl {
            fd: d.top_fd,
            cmd: 4,
            input: IoctlInput::SockAddr { socket: d.socket, addr: 0xC0A80090, port: 43673 },
            out_len: 0,
        }),
        InitChainState::SendSocketMessage => {
            let msg: Vec<u8> = vec![104u8, 101u8, 108u8, 108u8, 111u8, 10u8, 10u8];
            let dest: [u8; 8] = [8u8, 2u8, 48u8, 57u8, 255u8, 255u8, 255u8, 255u8];
            assert(msg@ =~= hello_message());
            assert(dest@ =~= broadcast_dest());
            IosCall::Ioctlv {
                fd: d.top_fd,
                cmd: 13,
                input: IoctlvInput::SendTo {
                    socket: #[verifier::truncate] (d.udp_socket as u32),
                    msg,
                    dest: Option::Some(dest),
                },
            }
        },
        InitChainState::BindSocket => (IosCall::Ioctl {
            fd: d.top_fd,
            cmd: 2,
            input: IoctlInput::SockAddr { socket: d.socket, addr: d.ip, port: 43673 },
            out_len: 0,
        }),
        InitChainState::ListenSocket => (IosCall::Ioctl {
            fd: d.top_fd,
            cmd: 10,
            input: IoctlInput::Listen {
                socket: #[verifier::truncate] (d.socket as u32),
                backlog: 0,
            },
            out_len: 0,
        }),
    }
}

/// Start a bring-up run with the given step configuration, unless one
/// is already outstanding (a second start request is a silent no-op).
/// Returns the initial state together with the first step's call,
/// which the caller issues synchronously.
pub fn do_init_chain(chain: Vec<InitChainState>, already_started: bool) -> (r: Option<
    (NetInitData, Option<IosCall>),
>)
    ensures
        already_started <==> r is None,
        r is Some ==> ({
            let d0 = r->Some_0.0;
            let first = r->Some_0.1;
            &&& d0.chain == chain
            &&& d0.state == 0
            &&& d0.manage_fd == -1
            &&& d0.top_fd == -1
            &&& d0.request_fd == -1
            &&& d0.ip == 0
            &&& d0.udp_socket == -1
            &&& d0.socket == -1
            &&& d0.bound_socket == -1
            &&& d0.last_err == 0
            &&& d0.ioctl_err == 0
            &&& d0.retry_count == 0
            &&& (forall|i: int| 0 <= i < 6 ==> d0.mac_buf@[i] == 0u8)
            &&& d0.retry_alarm.is_zeroed()
            &&& d0.wf()
            &&& (chain@.len() > 0 ==> first is Some && first->Some_0@ == issue_spec(
                chain@[0],
                d0,
            ))
            &&& (chain@.len() == 0 ==> first is None)
        }),
{
    if already_started {
        return Option::None;
    }
    let d = NetInitData {
        chain,
        manage_fd: -1,
        top_fd: -1,
        request_fd: -1,
        ip: 0,
        udp_socket: -1,
        socket: -1,
        bound_socket: -1,
        state: 0,
        mac_buf: [0u8; 6],
        last_err: 0,
        retry_count: 0,
        ioctl_err: 0,
        retry_alarm: OSAlarm::new(),
    };
    let n: usize = d.chain.len();
    assert(d.chain@.len() == n);
    let first = if d.chain.len() > 0 {
        Option::Some(step_issue(d.chain[0], &d))
    } else {
        Option::None
    };
    Option::Some((d, first))
}

/// Interpret one completion callback for the current step and hand
/// back what to do next. On success the retry counter is cleared and
/// the ordinal advances by one; on failure the state keeps its place
/// and the host arms the backoff timer.
pub fn net_init_callback(d: &mut NetInitData, result: i32) -> (act: BringupAction)
    requires
        old(d).wf(),
        !old(d).done(),
    ensures
        *final(d) == complete_step(*old(d), result),
        final(d).wf(),
        act@ == action_spec(*old(d), result),
        step_ok(old(d).current_step(), result) ==> final(d).retry_count == 0 && final(d).state
            == old(d).state + 1,
        !step_ok(old(d).current_step(), result) ==> final(d).state == old(d).state
            && final(d).last_err == result && act is ArmRetry,
{
    let step = d.chain[d.state];
    if step_result_ok(step, result) {
        step_record(d, step, result);
        let len: usize = d.chain.len();
        assert(d.state == old(d).state && d.chain == old(d).chain);
        assert(d.state < len);
        d.retry_count = 0;
        d.state = d.state + 1;
        if d.state < d.chain.len() {
            let next = d.chain[d.state];
            BringupAction::Issue(step_issue(next, d))
        } else {
            BringupAction::StartSession { top_fd: d.top_fd, accept_socket: d.socket, ip: d.ip }
        }
    } else {
        d.retry_count = d.retry_count.wrapping_add(1);
        d.last_err = result;
        BringupAction::ArmRetry
    }
}

/// Replay the current step's issue logic, unchanged, when the backoff
/// timer fires.
pub fn net_init_retry_alarm_callback(d: &NetInitData) -> (r: Option<IosCall>)
    requires
        d.wf(),
    ensures
        !d.done() ==> r is Some && r->Some_0@ == issue_spec(d.current_step(), *d),
        d.done() ==> r is None,
{
    if d.state < d.chain.len() {
        Option::Some(step_issue(d.chain[d.state], d))
    } else {
        Option::None
    }
}

/// Interpret the synchronous return of an issuing call. A negative
/// return means the call was rejected outright and no callback will
/// follow, so the error is recorded and the backoff timer must be
/// armed; a non-negative return means the call was accepted.
pub fn on_issue_result(d: &mut NetInitData, ret: i32) -> (arm_retry: bool)
    ensures
        ret < 0 ==> *final(d) == (NetInitData { ioctl_err: ret, ..*old(d) }) && arm_retry,
        ret >= 0 ==> *final(d) == *old(d) && !arm_retry,
{
    if ret < 0 {
        d.ioctl_err = ret;
        true
    } else {
        false
    }
}

/// One thing the host can report to an outstanding bring-up run: the
/// completion callback of an accepted call, or the immediate
/// rejection of an issuing call.
#[derive(Debug, Clone, Copy, PartialEq, Eq, Structural)]
pub enum BringupEvent {
    Completion(i32),
    Rejection(i32),
}

/// State after one reported event. A completion is interpreted by the
/// current step; an immediate rejection only records the error (the
/// host then arms the backoff timer, which replays the step).
pub open spec fn apply_event(d: NetInitData, ev: BringupEvent) -> NetInitData {
    match ev {
        BringupEvent::Completion(r) => if d.done() {
            d
        } else {
            complete_step(d, r)
        },
        BringupEvent::Rejection(e) => if e < 0 {
            NetInitData { ioctl_err: e, ..d }
        } else {
            d
        },
    }
}

/// State after a whole sequence of reported events.
pub open spec fn run_events(d: NetInitData, evs: Seq<BringupEvent>) -> NetInitData
    decreases evs.len(),
{
    if evs.len() <= 0 {
        d
    } else {
        run_events(apply_event(d, evs[0]), evs.skip(1))
    }
}

/// Whether an event is a step success in state `d`.
pub open spec fn is_success(d: NetInitData, ev: BringupEvent) -> bool {
    ev matches BringupEvent::Completion(r) && !d.done() && step_ok(d.current_step(), r)
}

/// How many events of the sequence are step successes, counted along
/// the run.
pub open spec fn success_count(d: NetInitData, evs: Seq<BringupEvent>) -> nat
    decreases evs.len(),
{
    if evs.len() <= 0 {
        0nat
    } else {
        (if is_success(d, evs[0]) {
            1nat
        } else {
            0nat
        }) + success_count(apply_event(d, evs[0]), evs.skip(1))
    }
}

/// Running a sequence and then one more event is the same as applying
/// that event to the state the sequence reached.
pub proof fn lemma_run_snoc(d: NetInitData, evs: Seq<BringupEvent>, ev: BringupEvent)
    ensures
        run_events(d, evs.push(ev)) == apply_event(run_events(d, evs), ev),
    decreases evs.len(),
{
    reveal_with_fuel(run_events, 3);
    if evs.len() == 0 {
        assert(evs.push(ev)[0] == ev);
        assert(evs.push(ev).skip(1) =~= Seq::<BringupEvent>::empty());
    } else {
        assert(evs.push(ev)[0] == evs[0]);
        assert(evs.push(ev).skip(1) =~= evs.skip(1).push(ev));
        lemma_run_snoc(apply_event(d, evs[0]), evs.skip(1), ev);
    }
}

/// Whatever rejections and failed completions are interleaved, the
/// step ordinal advances by exactly the number of step successes, the
/// configuration never changes, and the run is terminal exactly when
/// every remaining step has succeeded once.
pub proof fn lemma_bringup_progress(d: NetInitData, evs: Seq<BringupEvent>)
    requires
        d.wf(),
    ensures
        run_events(d, evs).wf(),
        run_events(d, evs).chain == d.chain,
        run_events(d, evs).state == d.state + success_count(d, evs),
        run_events(d, evs).state >= d.state,
        run_events(d, evs).done() <==> success_count(d, evs) == d.chain@.len() - d.state,
    decreases evs.len(),
{
    if evs.len() > 0 {
        let d1 = apply_event(d, evs[0]);
        assert(d1.wf() && d1.chain == d.chain);
        assert(d1.state == d.state + (if is_success(d, evs[0]) {
            1int
        } else {
            0int
        }));
        lemma_bringup_progress(d1, evs.skip(1));
    }
}

/// The retry counter reads zero immediately after every step success.
pub proof fn lemma_success_resets_retry(d: NetInitData, evs: Seq<BringupEvent>, i: int)
    requires
        d.wf(),
        0 <= i < evs.len(),
        is_success(run_events(d, evs.take(i)), evs[i]),
    ensures
        run_events(d, evs.take(i + 1)).retry_count == 0,
{
    assert(evs.take(i + 1) =~= evs.take(i).push(evs[i]));
    lemma_run_snoc(d, evs.take(i), evs[i]);
}

/// A failed attempt changes nothing a step's issue logic reads, so
/// the retry that the backoff timer triggers issues a call with
/// parameters identical to the first attempt's.
pub proof fn lemma_retry_replays_identically(d: NetInitData, result: i32)
    requires
        d.wf(),
        !d.done(),
        !step_ok(d.current_step(), result),
    ensures
        complete_step(d, result).state == d.state,
        complete_step(d, result).chain == d.chain,
        issue_spec(complete_step(d, result).current_step(), complete_step(d, result))
            == issue_spec(d.current_step(), d),
{
}

/// The restart step treats the "already running" code as success: the
/// protocol advances as on any other success.
pub proof fn lemma_already_running_advances(d: NetInitData)
    requires
        d.wf(),
        !d.done(),
        d.current_step() == InitChainState::NWC24Startup,
    ensures
        complete_step(d, -15i32).state == d.state + 1,
        complete_step(d, -15i32).retry_count == 0,
{
}

/// The address-discovery step treats a result of zero as failure: the
/// protocol stays on the step and retries.
pub proof fn lemma_zero_address_retries(d: NetInitData)
    requires
        d.wf(),
        !d.done(),
        d.current_step() == InitChainState::CheckIp,
    ensures
        complete_step(d, 0).state == d.state,
        complete_step(d, 0).retry_count == bump(d.retry_count),
        complete_step(d, 0).last_err == 0,
        complete_step(d, 0).ip == d.ip,
{
}

/// Backoff interval before a step is retried: a fixed multiple of the
/// hardware tick reading the host supplies.
pub fn retry_timeout(time_base: u32) -> (r: u64)
    ensures
        r == time_base * 4000,
{
    (time_base as u64) * 4000
}

} // verus!
