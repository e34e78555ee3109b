//! Suspend/resume glue for the asynchronous device primitives.
//!
//! Every device call follows the same two-phase shape. A computation
//! polls its pending-result slot: if a completion already arrived, it
//! consumes the result and goes on; otherwise it describes the call
//! to issue and yields. The host issues the call with the slot as
//! correlation token, posts the completion result into the slot when
//! the callback fires, and polls again.
use vstd::prelude::*;

use crate::calls::DevicePath;

verus! {

/// One-shot mailbox for the result of a single in-flight operation:
/// written once by the completion callback, read and cleared once by
/// the resumed computation. It never holds two unread results.
pub struct IosAsyncContext {
    result: Option<i32>,
}

impl IosAsyncContext {
    /// The unread result, if a completion has been posted.
    pub closed spec fn stored(self) -> Option<i32> {
        self.result
    }

    /// An empty slot with no operation outstanding.
    pub fn new() -> (r: IosAsyncContext)
        ensures
            r.stored() is None,
    {
        IosAsyncContext { result: Option::None }
    }

    /// Post a completion result. The slot must be empty: at most one
    /// operation is ever in flight per slot, and its result is
    /// consumed before the next one is issued.
    pub fn post(&mut self, result: i32)
        requires
            old(self).stored() is None,
        ensures
            final(self).stored() == Option::Some(result),
    {
        self.result = Option::Some(result);
    }

    /// Read and clear the slot.
    pub fn take(&mut self) -> (r: Option<i32>)
        ensures
            final(self).stored() is None,
            r == old(self).stored(),
    {
        let r = self.result;
        self.result = Option::None;
        r
    }
}

/// A raw device call, as the primitives issue it: buffers are opaque
/// at this level, only handles, commands and sizes are described.
#[derive(Debug, Clone, Copy, PartialEq, Eq, Structural)]
pub enum PrimitiveCall {
    Open { path: DevicePath, mode: i32 },
    Close { fd: i32 },
    Ioctl { fd: i32, cmd: i32, in_len: i32, out_len: i32 },
    Ioctlv { fd: i32, cmd: i32, in_cnt: i32, out_cnt: i32 },
}

/// What one poll of a suspended primitive asks for: either the
/// operation's mapped result, or the call to issue before yielding.
#[derive(Debug, Clone, Copy, PartialEq, Eq)]
pub enum PollOutcome {
    Ready(Result<i32, i32>),
    Issue(PrimitiveCall),
}

/// Default result mapping of the primitives: a negative code is
/// failure, any other is success.
pub open spec fn standard_result(v: i32) -> Result<i32, i32> {
    if v < 0 {
        Result::Err(v)
    } else {
        Result::Ok(v)
    }
}

/// Re-map a raw result so that a negative value inside `Ok` becomes
/// an error, for calls whose completion result is a plain status.
pub fn map_standard_result(result: Result<i32, i32>) -> (r: Result<i32, i32>)
    ensures
        r == (match result {
            Result::Ok(v) => standard_result(v),
            Result::Err(e) => Result::<i32, i32>::Err(e),
        }),
{
    if let Result::Ok(value) = result {
        if value < 0 {
            return Result::Err(value);
        }
    }
    result
}

/// Interpret the synchronous return of an issuing call: a negative
/// return is an immediate rejection, with no callback to follow, and
/// resolves the operation as failed without suspending; a
/// non-negative return means the call was accepted and the
/// computation stays suspended.
pub fn resolve_issue(ret: i32) -> (r: Option<Result<i32, i32>>)
    ensures
        ret < 0 ==> r == Option::Some(Result::<i32, i32>::Err(ret)),
        ret >= 0 ==> r is None,
{
    if ret < 0 {
        Option::Some(Result::Err(ret))
    } else {
        Option::None
    }
}

/// Suspended open of a device node.
#[derive(Debug, Clone, Copy, PartialEq, Eq, Structural)]
pub struct IosOpenFut {
    pub path: DevicePath,
    pub mode: i32,
}

impl IosOpenFut {
    /// Consume an available result (negative is failure), or describe
    /// the open to issue.
    pub fn poll(&self, ctx: &mut IosAsyncContext) -> (o: PollOutcome)
        ensures
            old(ctx).stored() is Some ==> final(ctx).stored() is None && o == PollOutcome::Ready(
                standard_result(old(ctx).stored()->Some_0),
            ),
            old(ctx).stored() is None ==> *final(ctx) == *old(ctx) && o == PollOutcome::Issue(
                PrimitiveCall::Open { path: self.path, mode: self.mode },
            ),
    {
        match ctx.take() {
            Option::Some(result) => {
                if result < 0 {
                    PollOutcome::Ready(Result::Err(result))
                } else {
                    PollOutcome::Ready(Result::Ok(result))
                }
            },
            Option::None => PollOutcome::Issue(
                PrimitiveCall::Open { path: self.path, mode: self.mode },
            ),
        }
    }
}

/// Suspended close of a handle.
#[derive(Debug, Clone, Copy, PartialEq, Eq, Structural)]
pub struct IosCloseFut {
    pub fd: i32,
}

impl IosCloseFut {
    /// Consume an available result (negative is failure), or describe
    /// the close to issue.
    pub fn poll(&self, ctx: &mut IosAsyncContext) -> (o: PollOutcome)
        ensures
            old(ctx).stored() is Some ==> final(ctx).stored() is None && o == PollOutcome::Ready(
                standard_result(old(ctx).stored()->Some_0),
            ),
            old(ctx).stored() is None ==> *final(ctx) == *old(ctx) && o == PollOutcome::Issue(
                PrimitiveCall::Close { fd: self.fd },
            ),
    {
        match ctx.take() {
            Option::Some(result) => {
                if result < 0 {
                    PollOutcome::Ready(Result::Err(result))
                } else {
                    PollOutcome::Ready(Result::Ok(result))
                }
            },
            Option::None => PollOutcome::Issue(PrimitiveCall::Close { fd: self.fd }),
        }
    }
}

/// Suspended single-buffer control call. Some commands answer with a
/// negative value that is not an error, so the raw result is handed
/// back in `Ok` and the caller applies its own mapping.
#[derive(Debug, Clone, Copy, PartialEq, Eq, Structural)]
pub struct IosIoctlFut {
    pub fd: i32,
    pub command: i32,
    pub in_len: i32,
    pub out_len: i32,
}

impl IosIoctlFut {
    /// Consume an available result unmapped, or describe the control
    /// call to issue.
    pub fn poll(&self, ctx: &mut IosAsyncContext) -> (o: PollOutcome)
        ensures
            old(ctx).stored() is Some ==> final(ctx).stored() is None && o == PollOutcome::Ready(
                Result::<i32, i32>::Ok(old(ctx).stored()->Some_0),
            ),
            old(ctx).stored() is None ==> *final(ctx) == *old(ctx) && o == PollOutcome::Issue(
                PrimitiveCall::Ioctl {
                    fd: self.fd,
                    cmd: self.command,
                    in_len: self.in_len,
                    out_len: self.out_len,
                },
            ),
    {
        match ctx.take() {
            Option::Some(result) => PollOutcome::Ready(Result::Ok(result)),
            Option::None => PollOutcome::Issue(
                PrimitiveCall::Ioctl {
                    fd: self.fd,
                    cmd: self.command,
                    in_len: self.in_len,
                    out_len: self.out_len,
                },
            ),
        }
    }
}

/// Suspended scatter-gather control call.
#[derive(Debug, Clone, Copy, PartialEq, Eq, Structural)]
pub struct IosIoctlvFut {
    pub fd: i32,
    pub command: i32,
    pub in_cnt: i32,
    pub out_cnt: i32,
}

impl IosIoctlvFut {
    /// Consume an available result (negative is failure), or describe
    /// the scatter-gather call to issue.
    pub fn poll(&self, ctx: &mut IosAsyncContext) -> (o: PollOutcome)
        ensures
            old(ctx).stored() is Some ==> final(ctx).stored() is None && o == PollOutcome::Ready(
                standard_result(old(ctx).stored()->Some_0),
            ),
            old(ctx).stored() is None ==> *final(ctx) == *old(ctx) && o == PollOutcome::Issue(
                PrimitiveCall::Ioctlv {
                    fd: self.fd,
                    cmd: self.command,
                    in_cnt: self.in_cnt,
                    out_cnt: self.out_cnt,
                },
            ),
    {
        match ctx.take() {
            Option::Some(result) => {
                if result < 0 {
                    PollOutcome::Ready(Result::Err(result))
                } else {
                    PollOutcome::Ready(Result::Ok(result))
                }
            },
            Option::None => PollOutcome::Issue(
                PrimitiveCall::Ioctlv {
                    fd: self.fd,
                    cmd: self.command,
                    in_cnt: self.in_cnt,
                    out_cnt: self.out_cnt,
                },
            ),
        }
    }
}

/// Timer-based suspension for retry backoff. The first poll asks the
/// host to arm the one-shot timer; its expiry posts a zero result
/// into the slot, and the next poll resumes.
#[derive(Debug, Clone, Copy, PartialEq, Eq, Structural)]
pub struct AlarmFut {
    pub timeout: u64,
}

/// What one poll of a pending timer asks for.
#[derive(Debug, Clone, Copy, PartialEq, Eq, Structural)]
pub enum AlarmPoll {
    Ready,
    Arm { timeout: u64 },
}

impl AlarmFut {
    /// Resume if the timer fired, otherwise ask the host to arm it.
    pub fn poll(&self, ctx: &mut IosAsyncContext) -> (o: AlarmPoll)
        ensures
            old(ctx).stored() is Some ==> final(ctx).stored() is None && o == AlarmPoll::Ready,
            old(ctx).stored() is None ==> *final(ctx) == *old(ctx) && o == (AlarmPoll::Arm {
                timeout: self.timeout,
            }),
    {
        match ctx.take() {
            Option::Some(_) => AlarmPoll::Ready,
            Option::None => AlarmPoll::Arm { timeout: self.timeout },
        }
    }
}

} // verus!
