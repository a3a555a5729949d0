//! The decisions of one command execution: write (retried once), wait,
//! read and decode. The caller performs each action on the bus and reports
//! its outcome as the next event.
use vstd::prelude::*;

use crate::command::ResponseShape;
use crate::errors::{err_of, ErrorKind, EzoError, Result};
use crate::response::ResponseStatus;
use crate::{reply_payload, response_code, response_payload, spec_response_code, ResponseCode};

verus! {

/// Milliseconds to wait before writing a command again after a failed write.
pub const WRITE_RETRY_DELAY: u64 = 100;

/// Where an execution stands.
#[derive(Copy, Clone, Debug, PartialEq, Eq, Structural)]
pub enum Phase {
    /// Nothing has been done yet.
    Idle,
    /// The command is being written.
    Writing,
    /// The first write failed; waiting before the second.
    BackingOff,
    /// Waiting for the chip to process the command.
    Settling,
    /// The reply is being read.
    Reading,
    /// The execution has its result.
    Finished,
}

/// What the caller reports after performing an action.
#[derive(Clone, Debug)]
pub enum Event {
    /// Begin the execution.
    Start,
    /// The command bytes were written.
    WriteOk,
    /// Writing the command bytes failed.
    WriteFailed,
    /// The requested wait is over.
    Slept,
    /// The reply buffer was read.
    ReadOk(Vec<u8>),
    /// Reading the reply buffer failed.
    ReadFailed,
}

/// A reply that an execution ends with.
#[derive(Clone, Debug)]
pub enum Reply {
    /// The status of a command that has no payload.
    Status(ResponseStatus),
    /// The text payload, to be handed to the command's response parser.
    Payload(String),
}

/// What the caller must do next.
#[derive(Debug)]
pub enum Action {
    /// Write the command bytes.
    Write,
    /// Wait this many milliseconds.
    Sleep(u64),
    /// Read a reply buffer of this many bytes.
    Read(usize),
    /// The execution is over, with this result.
    Finish(Result<Reply>),
}

/// The state of one command execution.
#[derive(Copy, Clone, Debug)]
pub struct Execution {
    /// Milliseconds the chip needs after the command, before its reply.
    pub delay: u64,
    /// What the chip answers.
    pub shape: ResponseShape,
    /// Size of the reply buffer to read.
    pub buffer_size: usize,
    /// Where the execution stands.
    pub phase: Phase,
    /// How many writes have been asked for.
    pub writes: u8,
}

/// What the status byte of a reply means for a command answered by an
/// acknowledgement alone.
pub open spec fn ack_result(buf: Seq<u8>) -> core::result::Result<ResponseStatus, ErrorKind> {
    if buf.len() == 0 {
        Err(ErrorKind::MalformedResponse)
    } else {
        match spec_response_code(buf[0]) {
            ResponseCode::Success => Ok(ResponseStatus::Ack),
            ResponseCode::Pending => Err(ErrorKind::PendingResponse),
            ResponseCode::DeviceError => Err(ErrorKind::DeviceErrorResponse),
            ResponseCode::NoDataExpected => Err(ErrorKind::NoDataExpectedResponse),
            ResponseCode::UnknownError => Err(ErrorKind::MalformedResponse),
        }
    }
}

/// Decodes the reply to a command answered by an acknowledgement alone.
pub fn acknowledgement(buf: &[u8]) -> (r: Result<ResponseStatus>)
    ensures
        r matches Ok(st) ==> ack_result(buf@) == Ok::<ResponseStatus, ErrorKind>(st),
        r matches Err(e) ==> ack_result(buf@) == Err::<ResponseStatus, ErrorKind>(e.kind),
{
    if buf.len() == 0 {
        return Err(EzoError { kind: ErrorKind::MalformedResponse });
    }
    match response_code(buf[0]) {
        ResponseCode::Success => Ok(ResponseStatus::Ack),
        ResponseCode::Pending => Err(EzoError { kind: ErrorKind::PendingResponse }),
        ResponseCode::DeviceError => Err(EzoError { kind: ErrorKind::DeviceErrorResponse }),
        ResponseCode::NoDataExpected => Err(EzoError { kind: ErrorKind::NoDataExpectedResponse }),
        ResponseCode::UnknownError => Err(EzoError { kind: ErrorKind::MalformedResponse }),
    }
}

/// `r` is the result of decoding the reply buffer `buf` for a command of the
/// given shape.
pub open spec fn decoded(shape: ResponseShape, buf: Seq<u8>, r: Result<Reply>) -> bool {
    match shape {
        ResponseShape::Payload => match r {
            Ok(Reply::Payload(s)) => reply_payload(buf) == Ok::<Seq<char>, ErrorKind>(s@),
            Err(e) => reply_payload(buf) == Err::<Seq<char>, ErrorKind>(e.kind),
            _ => false,
        },
        _ => match r {
            Ok(Reply::Status(st)) => ack_result(buf) == Ok::<ResponseStatus, ErrorKind>(st),
            Err(e) => ack_result(buf) == Err::<ResponseStatus, ErrorKind>(e.kind),
            _ => false,
        },
    }
}

impl Execution {
    /// A fresh execution of a command with the given settle delay, response
    /// shape and reply buffer size.
    pub open spec fn initial(delay: u64, shape: ResponseShape, buffer_size: usize) -> Execution {
        Execution { delay, shape, buffer_size, phase: Phase::Idle, writes: 0 }
    }

    /// The writes asked for agree with the phase, and there are at most two.
    pub open spec fn wf(self) -> bool {
        &&& self.writes <= 2
        &&& self.phase == Phase::Idle ==> self.writes == 0
        &&& self.phase == Phase::Writing ==> self.writes >= 1
        &&& self.phase == Phase::BackingOff ==> self.writes == 1
        &&& (self.phase == Phase::Settling || self.phase == Phase::Reading) ==> self.writes >= 1
    }

    /// The events that the execution waits for in its phase.
    pub open spec fn spec_accepts(self, event: Event) -> bool {
        match self.phase {
            Phase::Idle => event is Start,
            Phase::Writing => event is WriteOk || event is WriteFailed,
            Phase::BackingOff => event is Slept,
            Phase::Settling => event is Slept,
            Phase::Reading => event is ReadOk || event is ReadFailed,
            Phase::Finished => false,
        }
    }

    /// Once the command is written and the chip has had its time: a command
    /// with no reply is done, any other has its reply read.
    pub open spec fn settled(pre: Execution, post: Execution, action: Action) -> bool {
        if pre.shape == ResponseShape::NoAck {
            post.phase == Phase::Finished && action == Action::Finish(
                Ok(Reply::Status(ResponseStatus::NoAck)),
            )
        } else {
            post.phase == Phase::Reading && action == Action::Read(pre.buffer_size)
        }
    }

    /// One step of an execution: the state `pre` takes `event`, becomes
    /// `post` and asks for `action`.
    pub open spec fn transition(pre: Execution, event: Event, post: Execution, action: Action) -> bool {
        &&& post.delay == pre.delay
        &&& post.shape == pre.shape
        &&& post.buffer_size == pre.buffer_size
        &&& match event {
            Event::Start => post.phase == Phase::Writing && post.writes == 1 && action
                == Action::Write,
            Event::WriteOk => post.writes == pre.writes && if pre.delay > 0 {
                post.phase == Phase::Settling && action == Action::Sleep(pre.delay)
            } else {
                Execution::settled(pre, post, action)
            },
            Event::WriteFailed => post.writes == pre.writes && if pre.writes < 2 {
                post.phase == Phase::BackingOff && action == Action::Sleep(WRITE_RETRY_DELAY)
            } else {
                post.phase == Phase::Finished && action == Action::Finish(
                    err_of::<Reply>(ErrorKind::UnwritableCommand),
                )
            },
            Event::Slept => if pre.phase == Phase::BackingOff {
                post.phase == Phase::Writing && post.writes == pre.writes + 1 && action
                    == Action::Write
            } else {
                post.writes == pre.writes && Execution::settled(pre, post, action)
            },
            Event::ReadFailed => post.writes == pre.writes && post.phase == Phase::Finished
                && action == Action::Finish(err_of::<Reply>(ErrorKind::I2CRead)),
            Event::ReadOk(buf) => post.writes == pre.writes && post.phase == Phase::Finished
                && match action {
                Action::Finish(r) => decoded(pre.shape, buf@, r),
                _ => false,
            },
        }
    }

    /// A fresh execution of a command with the given settle delay, response
    /// shape and reply buffer size.
    pub fn new(delay: u64, shape: ResponseShape, buffer_size: usize) -> (e: Execution)
        ensures
            e == Execution::initial(delay, shape, buffer_size),
            e.wf(),
    {
        Execution { delay, shape, buffer_size, phase: Phase::Idle, writes: 0 }
    }

    /// Whether the execution waits for this event.
    pub fn accepts(&self, event: &Event) -> (r: bool)
        ensures
            r == self.spec_accepts(*event),
    {
        match self.phase {
            Phase::Idle => matches!(event, Event::Start),
            Phase::Writing => matches!(event, Event::WriteOk | Event::WriteFailed),
            Phase::BackingOff => matches!(event, Event::Slept),
            Phase::Settling => matches!(event, Event::Slept),
            Phase::Reading => matches!(event, Event::ReadOk(_) | Event::ReadFailed),
            Phase::Finished => false,
        }
    }

    fn after_settling(&mut self) -> (action: Action)
        ensures
            final(self).delay == old(self).delay,
            final(self).shape == old(self).shape,
            final(self).buffer_size == old(self).buffer_size,
            final(self).writes == old(self).writes,
            Execution::settled(*old(self), *final(self), action),
    {
        match self.shape {
            ResponseShape::NoAck => {
                self.phase = Phase::Finished;
                Action::Finish(Ok(Reply::Status(ResponseStatus::NoAck)))
            },
            _ => {
                self.phase = Phase::Reading;
                Action::Read(self.buffer_size)
            },
        }
    }

    /// Takes the outcome of the last action and decides the next one.
    pub fn step(&mut self, event: Event) -> (action: Action)
        requires
            old(self).wf(),
            old(self).spec_accepts(event),
        ensures
            final(self).wf(),
            Execution::transition(*old(self), event, *final(self), action),
    {
        match event {
            Event::Start => {
                self.phase = Phase::Writing;
                self.writes = 1;
                Action::Write
            },
            Event::WriteOk => {
                if self.delay > 0 {
                    self.phase = Phase::Settling;
                    Action::Sleep(self.delay)
                } else {
                    self.after_settling()
                }
            },
            Event::WriteFailed => {
                if self.writes < 2 {
                    self.phase = Phase::BackingOff;
                    Action::Sleep(WRITE_RETRY_DELAY)
                } else {
                    self.phase = Phase::Finished;
                    Action::Finish(Err(EzoError { kind: ErrorKind::UnwritableCommand }))
                }
            },
            Event::Slept => {
                if self.phase == Phase::BackingOff {
                    self.phase = Phase::Writing;
                    self.writes = self.writes + 1;
                    Action::Write
                } else {
                    self.after_settling()
                }
            },
            Event::ReadFailed => {
                self.phase = Phase::Finished;
                Action::Finish(Err(EzoError { kind: ErrorKind::I2CRead }))
            },
            Event::ReadOk(buf) => {
                self.phase = Phase::Finished;
                let r = match self.shape {
                    ResponseShape::Payload => match response_payload(buf.as_slice()) {
                        Ok(s) => Ok(Reply::Payload(s)),
                        Err(e) => Err(e),
                    },
                    _ => match acknowledgement(buf.as_slice()) {
                        Ok(st) => Ok(Reply::Status(st)),
                        Err(e) => Err(e),
                    },
                };
                Action::Finish(r)
            },
        }
    }
}

/// No execution asks for a third write: each `Write` action raises the count
/// of writes by one, any other action leaves it, and a well-formed execution
/// stays well-formed, with at most two writes.
pub proof fn lemma_at_most_two_writes(pre: Execution, event: Event, post: Execution, action: Action)
    requires
        pre.wf(),
        pre.spec_accepts(event),
        Execution::transition(pre, event, post, action),
    ensures
        post.wf(),
        post.writes <= 2,
        action is Write ==> post.writes == pre.writes + 1,
        !(action is Write) ==> post.writes == pre.writes,
{
}

/// The write is retried exactly once. After a failed first write the
/// execution waits `WRITE_RETRY_DELAY` and writes again. If the second write
/// succeeds the execution goes on without an error, having written twice; if
/// it fails too, the execution ends with `UnwritableCommand` and waits for
/// nothing more.
pub proof fn lemma_write_retried_once(
    delay: u64,
    shape: ResponseShape,
    buffer_size: usize,
    second_ok: bool,
    e1: Execution,
    e2: Execution,
    e3: Execution,
    e4: Execution,
    a1: Action,
    a2: Action,
    a3: Action,
    a4: Action,
)
    requires
        Execution::transition(Execution::initial(delay, shape, buffer_size), Event::Start, e1, a1),
        Execution::transition(e1, Event::WriteFailed, e2, a2),
        Execution::transition(e2, Event::Slept, e3, a3),
        Execution::transition(
            e3,
            if second_ok {
                Event::WriteOk
            } else {
                Event::WriteFailed
            },
            e4,
            a4,
        ),
    ensures
        a1 == Action::Write,
        a2 == Action::Sleep(WRITE_RETRY_DELAY),
        a3 == Action::Write,
        e4.writes == 2,
        second_ok ==> !(a4 is Write),
        second_ok ==> !(a4 matches Action::Finish(Err(_))),
        !second_ok ==> e4.phase == Phase::Finished && a4 == Action::Finish(
            err_of::<Reply>(ErrorKind::UnwritableCommand),
        ),
        !second_ok ==> forall|ev: Event| !e4.spec_accepts(ev),
{
}

} // verus!
