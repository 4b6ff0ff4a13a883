//! One capture session: a device bound to a running stream and to the channel
//! that carries its sample blocks to the drawing side.

use vstd::prelude::*;
use crate::device::{Device, DeviceView};
use crate::frame::{after_receive, after_send, received, samples_of, FrameChannel};
use crate::sample::SampleBlock;

verus! {

/// Encoding of the samples that a device delivers.
#[derive(Clone, Copy, Debug, PartialEq, Eq, Structural)]
pub enum SampleFormat {
    I8,
    I16,
    I32,
    I64,
    U8,
    U16,
    U32,
    U64,
    F32,
    F64,
}

/// The input configuration that a device advertises as its default. A session
/// carries it as the device gave it and assumes none of its own.
#[derive(Clone, Copy, Debug, PartialEq, Eq, Structural)]
pub struct StreamConfig {
    pub channels: u16,
    pub sample_rate: u32,
    pub sample_format: SampleFormat,
}

/// Why a session could not be opened.
#[derive(Clone, Copy, Debug, PartialEq, Eq, Structural)]
pub enum CaptureError {
    /// The device is not among those that can capture.
    DeviceNotFound,
    /// The host refused to build the stream.
    StreamBuildError,
    /// The stream was built and the host refused to start it.
    StreamStartError,
}

/// Where a session stands in its life. `Stopped` and `Errored` are final.
#[derive(Clone, Copy, Debug, PartialEq, Eq, Structural)]
pub enum SessionStatus {
    Running,
    Stopped,
    Errored,
}

/// A capture session on one device.
#[derive(Debug, PartialEq, Eq)]
pub struct CaptureSession {
    device: Device,
    config: StreamConfig,
    status: SessionStatus,
    channel: FrameChannel,
}

/// A session as contracts see it.
pub ghost struct SessionView {
    pub device: DeviceView,
    pub config: StreamConfig,
    pub status: SessionStatus,
    pub unread: Option<Seq<i32>>,
}

/// The session that starts on `device` with `config`: running, with nothing
/// to read yet.
pub open spec fn started(device: DeviceView, config: StreamConfig) -> SessionView {
    SessionView { device, config, status: SessionStatus::Running, unread: None }
}

/// The session after a stop.
pub open spec fn stopped(session: SessionView) -> SessionView {
    if session.status == SessionStatus::Running {
        SessionView { status: SessionStatus::Stopped, ..session }
    } else {
        session
    }
}

/// The session after its stream reported an error.
pub open spec fn failed(session: SessionView) -> SessionView {
    if session.status == SessionStatus::Running {
        SessionView { status: SessionStatus::Errored, ..session }
    } else {
        session
    }
}

/// The session after its stream delivered `block`.
pub open spec fn delivered(session: SessionView, block: Seq<i32>) -> SessionView {
    if session.status == SessionStatus::Running {
        SessionView { unread: after_send(session.unread, block), ..session }
    } else {
        session
    }
}

/// The session after its unread block, if any, was taken.
pub open spec fn drained(session: SessionView) -> SessionView {
    SessionView { unread: after_receive(session.unread), ..session }
}

impl View for CaptureSession {
    type V = SessionView;

    closed spec fn view(&self) -> SessionView {
        SessionView {
            device: self.device@,
            config: self.config,
            status: self.status,
            unread: self.channel@,
        }
    }
}

impl CaptureSession {
    /// The session for a stream that the host has just started on `device`
    /// with `config`. Its channel is new and empty.
    pub fn start(device: Device, config: StreamConfig) -> (session: CaptureSession)
        ensures
            session@ == started(device@, config),
    {
        CaptureSession {
            device,
            config,
            status: SessionStatus::Running,
            channel: FrameChannel::new(),
        }
    }

    /// Marks the session as stopped. From then on it takes no block.
    pub fn stop(&mut self)
        ensures
            final(self)@ == stopped(old(self)@),
    {
        match self.status {
            SessionStatus::Running => {
                self.status = SessionStatus::Stopped;
            },
            _ => {},
        }
    }

    /// Records that the stream reported an error. The session is not started
    /// again: capture resumes only with a new session.
    pub fn fail(&mut self)
        ensures
            final(self)@ == failed(old(self)@),
    {
        match self.status {
            SessionStatus::Running => {
                self.status = SessionStatus::Errored;
            },
            _ => {},
        }
    }

    /// Takes one block from the capture callback. A running session hands it
    /// to its channel, where it replaces an unread one; any other drops it.
    pub fn deliver(&mut self, block: SampleBlock)
        ensures
            final(self)@ == delivered(old(self)@, block@),
    {
        match self.status {
            SessionStatus::Running => {
                self.channel.send(block);
            },
            _ => {},
        }
    }

    /// Takes the newest block delivered since the last call, if there is one.
    pub fn receive_latest(&mut self) -> (block: Option<SampleBlock>)
        ensures
            samples_of(block) == received(old(self)@.unread),
            final(self)@ == drained(old(self)@),
    {
        self.channel.receive_latest()
    }

    /// The device that the session captures from.
    pub fn device(&self) -> (device: &Device)
        ensures
            device@ == self@.device,
    {
        &self.device
    }

    /// The configuration that the stream runs with.
    pub fn config(&self) -> (config: StreamConfig)
        ensures
            config == self@.config,
    {
        self.config
    }

    /// Where the session stands in its life.
    pub fn status(&self) -> (status: SessionStatus)
        ensures
            status == self@.status,
    {
        self.status
    }

    /// Whether the session still captures.
    pub fn is_running(&self) -> (running: bool)
        ensures
            running == (self@.status == SessionStatus::Running),
    {
        match self.status {
            SessionStatus::Running => true,
            _ => false,
        }
    }
}

/// Once a session has stopped or failed it stays as it is: it takes no
/// further block and neither a stop nor an error changes it.
pub proof fn ended_session_is_final(session: SessionView, block: Seq<i32>)
    requires
        session.status != SessionStatus::Running,
    ensures
        delivered(session, block) == session,
        stopped(session) == session,
        failed(session) == session,
{
}

/// After a stop no block reaches the channel, whatever the session was
/// before.
pub proof fn stop_ends_delivery(session: SessionView, block: Seq<i32>)
    ensures
        stopped(session).status != SessionStatus::Running,
        delivered(stopped(session), block) == stopped(session),
{
}

} // verus!
