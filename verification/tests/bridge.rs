use wiinet::bridge::resolve_issue;
use wiinet::bridge::AlarmFut;
use wiinet::bridge::AlarmPoll;
use wiinet::bridge::IosAsyncContext;
use wiinet::bridge::IosCloseFut;
use wiinet::bridge::IosIoctlFut;
use wiinet::bridge::IosIoctlvFut;
use wiinet::bridge::IosOpenFut;
use wiinet::bridge::PollOutcome;
use wiinet::bridge::PrimitiveCall;
use wiinet::calls::DevicePath;

#[test]
fn slot_is_a_one_shot_mailbox() {
    let mut ctx = IosAsyncContext::new();
    assert_eq!(ctx.take(), None);
    ctx.post(-61);
    assert_eq!(ctx.take(), Some(-61));
    assert_eq!(ctx.take(), None);
    ctx.post(5);
    assert_eq!(ctx.take(), Some(5));
}

#[test]
fn open_polls_in_two_phases() {
    let fut = IosOpenFut {
        path: DevicePath::NcdManage,
        mode: 0,
    };
    let mut ctx = IosAsyncContext::new();
    assert_eq!(
        fut.poll(&mut ctx),
        PollOutcome::Issue(PrimitiveCall::Open {
            path: DevicePath::NcdManage,
            mode: 0
        })
    );
    ctx.post(5);
    assert_eq!(fut.poll(&mut ctx), PollOutcome::Ready(Ok(5)));
    ctx.post(-6);
    assert_eq!(fut.poll(&mut ctx), PollOutcome::Ready(Err(-6)));
}

#[test]
fn close_polls_in_two_phases() {
    let fut = IosCloseFut { fd: 5 };
    let mut ctx = IosAsyncContext::new();
    assert_eq!(
        fut.poll(&mut ctx),
        PollOutcome::Issue(PrimitiveCall::Close { fd: 5 })
    );
    ctx.post(0);
    assert_eq!(fut.poll(&mut ctx), PollOutcome::Ready(Ok(0)));
}

// A single-buffer control call hands its raw result back unmapped:
// some commands answer with a negative value that is not an error.
#[test]
fn ioctl_keeps_negative_answers() {
    let fut = IosIoctlFut {
        fd: 9,
        command: 6,
        in_len: 0,
        out_len: 32,
    };
    let mut ctx = IosAsyncContext::new();
    assert_eq!(
        fut.poll(&mut ctx),
        PollOutcome::Issue(PrimitiveCall::Ioctl {
            fd: 9,
            cmd: 6,
            in_len: 0,
            out_len: 32
        })
    );
    ctx.post(-15);
    assert_eq!(fut.poll(&mut ctx), PollOutcome::Ready(Ok(-15)));
}

#[test]
fn ioctlv_maps_negative_answers_to_errors() {
    let fut = IosIoctlvFut {
        fd: 5,
        command: 7,
        in_cnt: 0,
        out_cnt: 1,
    };
    let mut ctx = IosAsyncContext::new();
    assert_eq!(
        fut.poll(&mut ctx),
        PollOutcome::Issue(PrimitiveCall::Ioctlv {
            fd: 5,
            cmd: 7,
            in_cnt: 0,
            out_cnt: 1
        })
    );
    ctx.post(-4);
    assert_eq!(fut.poll(&mut ctx), PollOutcome::Ready(Err(-4)));
    ctx.post(12);
    assert_eq!(fut.poll(&mut ctx), PollOutcome::Ready(Ok(12)));
}

// An immediate rejection resolves the operation as failed without a
// callback; an accepted call leaves it suspended.
#[test]
fn immediate_rejection_never_suspends() {
    assert_eq!(resolve_issue(-3), Some(Err(-3)));
    assert_eq!(resolve_issue(0), None);
    assert_eq!(resolve_issue(2), None);
}

#[test]
fn alarm_arms_then_resumes() {
    let fut = AlarmFut { timeout: 243_000_000 };
    let mut ctx = IosAsyncContext::new();
    assert_eq!(
        fut.poll(&mut ctx),
        AlarmPoll::Arm {
            timeout: 243_000_000
        }
    );
    ctx.post(0);
    assert_eq!(fut.poll(&mut ctx), AlarmPoll::Ready);
}
