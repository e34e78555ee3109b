use wiinet::bringup::do_init_chain;
use wiinet::bringup::init_chain;
use wiinet::bringup::net_init_callback;
use wiinet::bringup::net_init_retry_alarm_callback;
use wiinet::bringup::on_issue_result;
use wiinet::bringup::retry_timeout;
use wiinet::bringup::BringupAction;
use wiinet::bringup::InitChainState;
use wiinet::calls::DevicePath;
use wiinet::calls::IoctlInput;
use wiinet::calls::IoctlvInput;
use wiinet::calls::IosCall;
use wiinet::session::create_and_kickoff_net_manager;

#[test]
fn default_chain_lists_the_fifteen_steps() {
    let chain = init_chain();
    assert_eq!(chain.len(), 15);
    assert_eq!(chain[0], InitChainState::OpenManageFd);
    assert_eq!(chain[6], InitChainState::NWC24Startup);
    assert_eq!(chain[9], InitChainState::CheckIp);
    assert_eq!(chain[14], InitChainState::ListenSocket);
}

#[test]
fn start_is_a_no_op_while_a_run_is_outstanding() {
    assert!(do_init_chain(init_chain(), true).is_none());
}

#[test]
fn start_issues_the_first_open() {
    let (d, first) = do_init_chain(init_chain(), false).unwrap();
    assert_eq!(d.state, 0);
    assert_eq!(d.manage_fd, -1);
    assert_eq!(d.top_fd, -1);
    assert_eq!(d.retry_count, 0);
    match first.unwrap() {
        IosCall::Open { path, mode } => {
            assert_eq!(path, DevicePath::NcdManage);
            assert_eq!(mode, 0);
        }
        other => panic!("expected an open, got {other:?}"),
    }
}

// The bring-up reaches its terminal state after exactly as many step
// successes as the chain has steps, whatever rejections and failures
// are interleaved, and the retry counter reads zero right after every
// success.
#[test]
fn terminal_after_exactly_one_success_per_step_despite_failures() {
    let (mut d, _first) = do_init_chain(init_chain(), false).unwrap();
    let total = d.chain.len();
    let mut successes = 0u32;
    while d.state < d.chain.len() {
        // an immediate rejection of the issuing call arms a retry
        let arm = on_issue_result(&mut d, -4);
        assert!(arm);
        assert_eq!(d.ioctl_err, -4);
        let replay_a = net_init_retry_alarm_callback(&d).unwrap();
        // a failing completion keeps the step in place
        let state_before = d.state;
        let act = net_init_callback(&mut d, -3);
        assert!(matches!(act, BringupAction::ArmRetry));
        assert_eq!(d.state, state_before);
        assert_eq!(d.last_err, -3);
        assert!(d.retry_count > 0);
        // replaying the issue after the failure gives identical
        // call parameters
        let replay_b = net_init_retry_alarm_callback(&d).unwrap();
        assert_eq!(replay_a, replay_b);
        // a success advances and clears the retry counter
        let act = net_init_callback(&mut d, 1);
        successes += 1;
        assert_eq!(d.retry_count, 0);
        assert_eq!(d.state, state_before + 1);
        if d.state == d.chain.len() {
            assert!(matches!(act, BringupAction::StartSession { .. }));
        } else {
            assert!(matches!(act, BringupAction::Issue(_)));
        }
    }
    assert_eq!(successes as usize, total);
}

// Replaying the issue logic of the announcement step after a failure
// produces a call identical to the first attempt, parameter for
// parameter.
#[test]
fn failed_send_step_replays_with_identical_parameters() {
    let chain = vec![InitChainState::SendSocketMessage];
    let (mut d, first) = do_init_chain(chain, false).unwrap();
    d.top_fd = 7;
    d.udp_socket = 3;
    drop(first);
    let first = net_init_retry_alarm_callback(&d).unwrap();
    let act = net_init_callback(&mut d, -61);
    assert!(matches!(act, BringupAction::ArmRetry));
    let second = net_init_retry_alarm_callback(&d).unwrap();
    assert_eq!(first, second);
    match second {
        IosCall::Ioctlv { fd, cmd, input } => {
            assert_eq!(fd, 7);
            assert_eq!(cmd, 13);
            match input {
                IoctlvInput::SendTo { socket, msg, dest } => {
                    assert_eq!(socket, 3);
                    assert_eq!(msg, b"hello\n\n".to_vec());
                    assert_eq!(dest, Some([8, 2, 0x30, 0x39, 255, 255, 255, 255]));
                }
                other => panic!("expected a send, got {other:?}"),
            }
        }
        other => panic!("expected a scatter-gather call, got {other:?}"),
    }
}

// The restart step's "already running" code advances the protocol as
// a success would.
#[test]
fn already_running_code_counts_as_success() {
    let chain = vec![InitChainState::NWC24Startup, InitChainState::SocketStartup];
    let (mut d, _first) = do_init_chain(chain, false).unwrap();
    let act = net_init_callback(&mut d, -15);
    assert_eq!(d.state, 1);
    assert_eq!(d.retry_count, 0);
    assert!(matches!(act, BringupAction::Issue(_)));
    // any other negative code keeps failing the restart step
    let chain = vec![InitChainState::NWC24Startup];
    let (mut d, _first) = do_init_chain(chain, false).unwrap();
    let act = net_init_callback(&mut d, -16);
    assert_eq!(d.state, 0);
    assert!(matches!(act, BringupAction::ArmRetry));
}

// A zero result of the address-discovery step is a failure: the step
// does not advance and is retried.
#[test]
fn zero_address_is_a_failure_and_retries() {
    let chain = vec![InitChainState::CheckIp];
    let (mut d, _first) = do_init_chain(chain, false).unwrap();
    let act = net_init_callback(&mut d, 0);
    assert_eq!(d.state, 0);
    assert_eq!(d.retry_count, 1);
    assert_eq!(d.last_err, 0);
    assert_eq!(d.ip, 0);
    assert!(matches!(act, BringupAction::ArmRetry));
    // a positive result then records the address and finishes
    let act = net_init_callback(&mut d, 0x0A00_0001);
    assert_eq!(d.ip, 0x0A00_0001);
    assert!(matches!(act, BringupAction::StartSession { .. }));
}

// End-to-end: the scripted mock results walk the nine-step chain to
// its terminal state; the top-level handle is the one the open
// returned, and the session manager's initial accept is issued
// exactly once.
#[test]
fn end_to_end_mock_run_hands_over_to_the_session() {
    let chain = vec![
        InitChainState::OpenManageFd,
        InitChainState::GetLinkStatus,
        InitChainState::CheckMac,
        InitChainState::CloseManageFd,
        InitChainState::OpenTopFd,
        InitChainState::OpenRequestFd,
        InitChainState::NWC24Startup,
        InitChainState::SocketStartup,
        InitChainState::CheckIp,
    ];
    let (mut d, first) = do_init_chain(chain, false).unwrap();
    assert!(matches!(
        first,
        Some(IosCall::Open { path: DevicePath::NcdManage, mode: 0 })
    ));
    let results = [5, 0, 0, 0, 7, 9, -15, 0, 0x0A00_0001];
    let mut advances = 0usize;
    let mut session = None;
    for &r in results.iter() {
        let act = net_init_callback(&mut d, r);
        assert_eq!(d.retry_count, 0);
        match act {
            BringupAction::Issue(_) => advances += 1,
            BringupAction::StartSession {
                top_fd,
                accept_socket,
                ip,
            } => session = Some((top_fd, accept_socket, ip)),
            BringupAction::ArmRetry => panic!("no step may fail in this run"),
        }
    }
    // eight advances from one step to the next; the ninth success
    // hands over instead
    assert_eq!(advances, 8);
    assert_eq!(d.state, 9);
    assert_eq!(d.manage_fd, -1);
    assert_eq!(d.top_fd, 7);
    assert_eq!(d.request_fd, 9);
    assert_eq!(d.ip, 0x0A00_0001);
    let (top_fd, accept_socket, ip) = session.expect("the run must finish");
    assert_eq!(top_fd, 7);
    let mut accepts = 0usize;
    let (m, kick) = create_and_kickoff_net_manager(top_fd, accept_socket, ip);
    if let IosCall::Ioctl {
        fd,
        cmd: 1,
        input: IoctlInput::AcceptSock { socket },
        ..
    } = kick
    {
        assert_eq!(fd, 7);
        assert_eq!(socket, accept_socket);
        accepts += 1;
    }
    assert_eq!(accepts, 1);
    assert!(m.is_accept);
}

#[test]
fn accepted_issue_changes_nothing() {
    let (mut d, _first) = do_init_chain(init_chain(), false).unwrap();
    let arm = on_issue_result(&mut d, 0);
    assert!(!arm);
    assert_eq!(d.ioctl_err, 0);
    assert_eq!(d.state, 0);
}

#[test]
fn empty_chain_is_terminal_at_once() {
    let (d, first) = do_init_chain(Vec::new(), false).unwrap();
    assert!(first.is_none());
    assert_eq!(d.state, 0);
    assert_eq!(d.chain.len(), 0);
    assert!(net_init_retry_alarm_callback(&d).is_none());
}

#[test]
fn retry_timeout_is_a_fixed_multiple_of_the_tick_base() {
    assert_eq!(retry_timeout(0), 0);
    assert_eq!(retry_timeout(60750), 243_000_000);
    assert_eq!(retry_timeout(u32::MAX), u32::MAX as u64 * 4000);
}

#[test]
fn step_names_match_the_variants() {
    assert_eq!(InitChainState::OpenManageFd.get_name_str(), "OpenManageFd");
    assert_eq!(InitChainState::CheckIp.get_name_str(), "CheckIp");
    assert_eq!(
        InitChainState::SendSocketMessage.get_name_str(),
        "SendSocketMessage"
    );
    assert_eq!(InitChainState::ListenSocket.get_name_str(), "ListenSocket");
}
