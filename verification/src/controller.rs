//! The session controller: which view is shown, which devices are on offer,
//! and which capture session is held.
//!
//! The controller touches neither the host audio subsystem nor the window. It
//! is a state machine: [`SessionController::update`] takes one [`Message`],
//! changes the state and returns the [`Command`]s that the caller has to carry
//! out, in order. What the host answers comes back as further messages. The
//! state machine itself is the spec function [`step`]; `update` computes it.
//!
//! Three choices are made here. The waveform view is shown only while a
//! session is held. Leaving the waveform view with the escape key keeps the
//! session capturing in the background; it ends when another device is
//! selected or on [`Message::StopSession`]. A device is looked up among those
//! of the last listing, before anything is stopped.

use vstd::prelude::*;
use crate::device::{
    capture_capable,
    listing_holds_the_capture_devices,
    lookup,
    lookup_finds_what_is_listed,
    Device,
    DeviceCatalog,
    DeviceView,
};
use crate::sample::SampleBlock;
use crate::session::{
    delivered,
    drained,
    failed,
    started,
    CaptureError,
    CaptureSession,
    SessionStatus,
    SessionView,
    StreamConfig,
};
use crate::waveform::{render, traces, Bounds, Polyline};

verus! {

/// The screen that is shown.
#[derive(Clone, Copy, Debug, PartialEq, Eq, Structural)]
pub enum Page {
    Main,
    Waveform,
}

/// The colour scheme in use.
#[derive(Clone, Copy, Debug, PartialEq, Eq, Structural)]
pub enum Theme {
    Dark,
    Green,
}

/// What the controller is doing, as the user sees it.
#[derive(Clone, Copy, Debug, PartialEq, Eq, Structural)]
pub enum Phase {
    /// The main view, no selector.
    Idle,
    /// The main view with the device selector over it.
    DeviceListOpen,
    /// The waveform view.
    Capturing,
}

/// A key press, as far as the controller cares.
#[derive(Clone, Copy, Debug, PartialEq, Eq, Structural)]
pub enum Event {
    TabPressed { shift: bool },
    EscapePressed,
    Other,
}

/// Anything that went wrong and has to be shown to the user.
#[derive(Clone, Copy, Debug, PartialEq, Eq, Structural)]
pub enum Failure {
    /// The host could not be asked for its devices.
    DeviceEnumerationError,
    /// A session could not be opened.
    Capture(CaptureError),
    /// A running stream reported an error.
    StreamRuntimeError,
}

/// What happened: an action of the user, a tick of the clock, or an answer of
/// the host to an earlier [`Command`].
#[derive(Debug, PartialEq, Eq)]
pub enum Message {
    /// The user asked for the device selector.
    ShowOutputModal,
    /// The user dismissed the device selector.
    HideOutputModal,
    /// The display refreshes.
    Tick,
    /// The user picked the device with this identifier.
    SelectedDevice(String),
    /// A key was pressed.
    Event(Event),
    /// The host's answer to [`Command::ListDevices`]: all its devices, or
    /// `None` where it could not be asked.
    DevicesListed(Option<Vec<Device>>),
    /// The host built and started the stream asked for by
    /// [`Command::OpenStream`], with this configuration.
    SessionOpened(StreamConfig),
    /// The host could not open the stream asked for by
    /// [`Command::OpenStream`].
    SessionFailed(CaptureError),
    /// The running stream reported an error.
    StreamFailed,
    /// The user asked to end the capture.
    StopSession,
}

/// What the caller has to do for the controller. The commands of one update
/// are carried out in the order given, and the outcome of an `OpenStream` is
/// reported before any other message.
#[derive(Debug, PartialEq, Eq)]
pub enum Command {
    /// Ask the host for its devices and report them with
    /// [`Message::DevicesListed`].
    ListDevices,
    /// Halt the stream that is held and release its device. The callback must
    /// not fire once this is done.
    StopStream,
    /// Open a stream on the device with its default input configuration,
    /// start it, and report [`Message::SessionOpened`] or
    /// [`Message::SessionFailed`].
    OpenStream(Device),
    /// Show the failure to the user.
    Report(Failure),
    /// Move the keyboard focus to the previous widget.
    FocusPrevious,
    /// Move the keyboard focus to the next widget.
    FocusNext,
}

/// A message with its texts as character sequences.
#[verifier::ext_equal]
pub ghost enum MessageView {
    ShowOutputModal,
    HideOutputModal,
    Tick,
    SelectedDevice(Seq<char>),
    Event(Event),
    DevicesListed(Option<Seq<DeviceView>>),
    SessionOpened(StreamConfig),
    SessionFailed(CaptureError),
    StreamFailed,
    StopSession,
}

/// A command with its texts as character sequences.
#[verifier::ext_equal]
pub ghost enum CommandView {
    ListDevices,
    StopStream,
    OpenStream(DeviceView),
    Report(Failure),
    FocusPrevious,
    FocusNext,
}

/// The capture that a controller holds: none, one that the host has been
/// asked to open, or a session.
#[verifier::ext_equal]
pub ghost enum CaptureView {
    Off,
    Opening(DeviceView),
    On(SessionView),
}

/// The state of a controller.
#[verifier::ext_equal]
pub ghost struct ControllerView {
    pub page: Page,
    pub show_output_modal: bool,
    pub theme: Theme,
    pub devices: Seq<DeviceView>,
    pub capture: CaptureView,
}

impl View for Message {
    type V = MessageView;

    open spec fn view(&self) -> MessageView {
        match self {
            Message::ShowOutputModal => MessageView::ShowOutputModal,
            Message::HideOutputModal => MessageView::HideOutputModal,
            Message::Tick => MessageView::Tick,
            Message::SelectedDevice(id) => MessageView::SelectedDevice(id@),
            Message::Event(event) => MessageView::Event(*event),
            Message::DevicesListed(answer) => MessageView::DevicesListed(
                match answer {
                    Some(all) => Some(all.deep_view()),
                    None => None,
                },
            ),
            Message::SessionOpened(config) => MessageView::SessionOpened(*config),
            Message::SessionFailed(error) => MessageView::SessionFailed(*error),
            Message::StreamFailed => MessageView::StreamFailed,
            Message::StopSession => MessageView::StopSession,
        }
    }
}

impl DeepView for Command {
    type V = CommandView;

    open spec fn deep_view(&self) -> CommandView {
        match self {
            Command::ListDevices => CommandView::ListDevices,
            Command::StopStream => CommandView::StopStream,
            Command::OpenStream(device) => CommandView::OpenStream(device@),
            Command::Report(failure) => CommandView::Report(*failure),
            Command::FocusPrevious => CommandView::FocusPrevious,
            Command::FocusNext => CommandView::FocusNext,
        }
    }
}

impl View for Command {
    type V = CommandView;

    open spec fn view(&self) -> CommandView {
        self.deep_view()
    }
}

/// The state of a controller that has seen no message: the main view, no
/// selector, no devices, no capture.
pub open spec fn initial() -> ControllerView {
    ControllerView {
        page: Page::Main,
        show_output_modal: false,
        theme: Theme::Dark,
        devices: Seq::empty(),
        capture: CaptureView::Off,
    }
}

/// What the user sees in a state.
pub open spec fn phase_of(state: ControllerView) -> Phase {
    if state.page == Page::Waveform {
        Phase::Capturing
    } else if state.show_output_modal {
        Phase::DeviceListOpen
    } else {
        Phase::Idle
    }
}

/// What holds of every state that a controller reaches: the waveform view is
/// shown only over a session, and every device on offer can capture.
pub open spec fn well_formed(state: ControllerView) -> bool {
    &&& state.page == Page::Waveform ==> state.capture is On
    &&& forall|i: int| 0 <= i < state.devices.len() ==> (#[trigger] state.devices[i]).supports_capture
}

/// The state after each of `messages` was taken in turn.
pub open spec fn after(state: ControllerView, messages: Seq<MessageView>) -> ControllerView
    decreases messages.len(),
{
    if messages.len() == 0 {
        state
    } else {
        step(after(state, messages.drop_last()), messages.last()).0
    }
}

/// The user picks the device `id`. An identifier that the last listing does
/// not hold changes nothing and is reported. Otherwise the host is asked to
/// open the device, after stopping the session that is held, if any. While the
/// host is still opening an earlier pick, a new one is dropped.
pub open spec fn select(state: ControllerView, id: Seq<char>) -> (ControllerView, Seq<CommandView>) {
    match lookup(state.devices, id) {
        None => (state, seq![CommandView::Report(Failure::Capture(CaptureError::DeviceNotFound))]),
        Some(device) => match state.capture {
            CaptureView::Opening(_) => (state, Seq::empty()),
            CaptureView::Off => (
                ControllerView { capture: CaptureView::Opening(device), ..state },
                seq![CommandView::OpenStream(device)],
            ),
            CaptureView::On(_) => (
                ControllerView {
                    capture: CaptureView::Opening(device),
                    page: Page::Main,
                    ..state
                },
                seq![CommandView::StopStream, CommandView::OpenStream(device)],
            ),
        },
    }
}

/// The host opened the stream that was asked for: the session begins and the
/// waveform view replaces the selector. An answer that nothing waits for
/// changes nothing.
pub open spec fn opened(state: ControllerView, config: StreamConfig) -> (
    ControllerView,
    Seq<CommandView>,
) {
    match state.capture {
        CaptureView::Opening(device) => (
            ControllerView {
                capture: CaptureView::On(started(device, config)),
                show_output_modal: false,
                page: Page::Waveform,
                theme: Theme::Green,
                ..state
            },
            Seq::empty(),
        ),
        _ => (state, Seq::empty()),
    }
}

/// The host could not open the stream that was asked for: no session is
/// held, the view stays as it is, and the error is reported. An answer that
/// nothing waits for changes nothing.
pub open spec fn open_failed(state: ControllerView, error: CaptureError) -> (
    ControllerView,
    Seq<CommandView>,
) {
    match state.capture {
        CaptureView::Opening(_) => (
            ControllerView { capture: CaptureView::Off, ..state },
            seq![CommandView::Report(Failure::Capture(error))],
        ),
        _ => (state, Seq::empty()),
    }
}

/// The running stream reported an error: the session is marked as ended and
/// the error is reported. Nothing is restarted.
pub open spec fn stream_failed(state: ControllerView) -> (ControllerView, Seq<CommandView>) {
    match state.capture {
        CaptureView::On(session) => if session.status == SessionStatus::Running {
            (
                ControllerView { capture: CaptureView::On(failed(session)), ..state },
                seq![CommandView::Report(Failure::StreamRuntimeError)],
            )
        } else {
            (state, Seq::empty())
        },
        _ => (state, Seq::empty()),
    }
}

/// The user ends the capture: whatever the host holds is stopped and the
/// main view is shown.
pub open spec fn stop(state: ControllerView) -> (ControllerView, Seq<CommandView>) {
    match state.capture {
        CaptureView::Off => (state, Seq::empty()),
        _ => (
            ControllerView { capture: CaptureView::Off, page: Page::Main, ..state },
            seq![CommandView::StopStream],
        ),
    }
}

/// A key press. Tab moves the focus. Escape closes the selector on the main
/// view, and leaves the waveform view for the main view.
pub open spec fn key(state: ControllerView, event: Event) -> (ControllerView, Seq<CommandView>) {
    match event {
        Event::TabPressed { shift } => (
            state,
            if shift {
                seq![CommandView::FocusPrevious]
            } else {
                seq![CommandView::FocusNext]
            },
        ),
        Event::EscapePressed => match state.page {
            Page::Main => (
                ControllerView { show_output_modal: false, theme: Theme::Dark, ..state },
                Seq::empty(),
            ),
            Page::Waveform => (
                ControllerView { page: Page::Main, theme: Theme::Green, ..state },
                Seq::empty(),
            ),
        },
        Event::Other => (state, Seq::empty()),
    }
}

/// The host answered an enumeration. The capture devices among its devices
/// are on offer from now on; where it could not be asked, none is, and the
/// failure is reported.
pub open spec fn listed(state: ControllerView, answer: Option<Seq<DeviceView>>) -> (
    ControllerView,
    Seq<CommandView>,
) {
    match answer {
        Some(all) => (ControllerView { devices: capture_capable(all), ..state }, Seq::empty()),
        None => (
            ControllerView { devices: Seq::empty(), ..state },
            seq![CommandView::Report(Failure::DeviceEnumerationError)],
        ),
    }
}

/// The state machine: the state after `message` and the commands to carry
/// out, in order.
pub open spec fn step(state: ControllerView, message: MessageView) -> (
    ControllerView,
    Seq<CommandView>,
) {
    match message {
        MessageView::ShowOutputModal => (
            ControllerView { show_output_modal: true, ..state },
            seq![CommandView::ListDevices],
        ),
        MessageView::HideOutputModal => (
            ControllerView { show_output_modal: false, ..state },
            Seq::empty(),
        ),
        MessageView::Tick => (state, Seq::empty()),
        MessageView::SelectedDevice(id) => select(state, id),
        MessageView::Event(event) => key(state, event),
        MessageView::DevicesListed(answer) => listed(state, answer),
        MessageView::SessionOpened(config) => opened(state, config),
        MessageView::SessionFailed(error) => open_failed(state, error),
        MessageView::StreamFailed => stream_failed(state),
        MessageView::StopSession => stop(state),
    }
}

/// The state after the capture callback delivered `block`.
pub open spec fn fed(state: ControllerView, block: Seq<i32>) -> ControllerView {
    match state.capture {
        CaptureView::On(session) => ControllerView {
            capture: CaptureView::On(delivered(session, block)),
            ..state
        },
        _ => state,
    }
}

/// The block that the next poll draws, if there is one.
pub open spec fn unread(state: ControllerView) -> Option<Seq<i32>> {
    match state.capture {
        CaptureView::On(session) => session.unread,
        _ => None,
    }
}

/// The state after a poll.
pub open spec fn polled(state: ControllerView) -> ControllerView {
    match state.capture {
        CaptureView::On(session) => ControllerView {
            capture: CaptureView::On(drained(session)),
            ..state
        },
        _ => state,
    }
}

#[derive(Debug, PartialEq, Eq)]
enum Capture {
    Off,
    Opening(Device),
    On(CaptureSession),
}

impl View for Capture {
    type V = CaptureView;

    closed spec fn view(&self) -> CaptureView {
        match self {
            Capture::Off => CaptureView::Off,
            Capture::Opening(device) => CaptureView::Opening(device@),
            Capture::On(session) => CaptureView::On(session@),
        }
    }
}

/// Orchestrates device selection and holds the one capture session.
#[derive(Debug, PartialEq, Eq)]
pub struct SessionController {
    page: Page,
    show_output_modal: bool,
    theme: Theme,
    devices: Vec<Device>,
    capture: Capture,
}

impl View for SessionController {
    type V = ControllerView;

    closed spec fn view(&self) -> ControllerView {
        ControllerView {
            page: self.page,
            show_output_modal: self.show_output_modal,
            theme: self.theme,
            devices: self.devices.deep_view(),
            capture: self.capture@,
        }
    }
}

impl Default for SessionController {
    /// A controller that has seen no message.
    fn default() -> (controller: SessionController)
        ensures
            controller@ == initial(),
    {
        SessionController::new()
    }
}

fn one(command: Command) -> (commands: Vec<Command>)
    ensures
        commands.deep_view() == seq![command@],
{
    let mut commands: Vec<Command> = Vec::new();
    commands.push(command);
    proof {
        assert(commands.deep_view() =~= seq![command@]);
    }
    commands
}

fn none() -> (commands: Vec<Command>)
    ensures
        commands.deep_view() == Seq::<CommandView>::empty(),
{
    let commands: Vec<Command> = Vec::new();
    proof {
        assert(commands.deep_view() =~= Seq::<CommandView>::empty());
    }
    commands
}

impl SessionController {
    /// A controller that has seen no message.
    pub fn new() -> (controller: SessionController)
        ensures
            controller@ == initial(),
    {
        let devices: Vec<Device> = Vec::new();
        proof {
            assert(devices.deep_view() =~= Seq::<DeviceView>::empty());
        }
        SessionController {
            page: Page::Main,
            show_output_modal: false,
            theme: Theme::Dark,
            devices,
            capture: Capture::Off,
        }
    }

    /// Takes one message: changes the state as [`step`] says and returns the
    /// commands to carry out, in order.
    pub fn update(&mut self, message: Message) -> (commands: Vec<Command>)
        ensures
            final(self)@ == step(old(self)@, message@).0,
            commands.deep_view() == step(old(self)@, message@).1,
    {
        match message {
            Message::ShowOutputModal => {
                self.show_output_modal = true;
                one(Command::ListDevices)
            },
            Message::HideOutputModal => {
                self.show_output_modal = false;
                none()
            },
            Message::Tick => none(),
            Message::SelectedDevice(id) => self.select(&id),
            Message::Event(event) => self.key(event),
            Message::DevicesListed(answer) => self.listed(answer),
            Message::SessionOpened(config) => self.opened(config),
            Message::SessionFailed(error) => self.open_failed(error),
            Message::StreamFailed => self.stream_failed(),
            Message::StopSession => self.stop(),
        }
    }

    fn select(&mut self, id: &String) -> (commands: Vec<Command>)
        ensures
            final(self)@ == select(old(self)@, id@).0,
            commands.deep_view() == select(old(self)@, id@).1,
    {
        match DeviceCatalog::find(&self.devices, id) {
            None => one(Command::Report(Failure::Capture(CaptureError::DeviceNotFound))),
            Some(at) => {
                if self.is_opening() {
                    none()
                } else {
                    let held = self.holds_session();
                    let device = self.devices[at].clone();
                    let mut commands: Vec<Command> = Vec::new();
                    if held {
                        commands.push(Command::StopStream);
                        self.page = Page::Main;
                    }
                    commands.push(Command::OpenStream(device.clone()));
                    self.capture = Capture::Opening(device);
                    proof {
                        let d = old(self).devices[at as int]@;
                        if held {
                            assert(commands.deep_view() =~= seq![
                                CommandView::StopStream,
                                CommandView::OpenStream(d),
                            ]);
                        } else {
                            assert(commands.deep_view() =~= seq![CommandView::OpenStream(d)]);
                        }
                    }
                    commands
                }
            },
        }
    }

    fn opened(&mut self, config: StreamConfig) -> (commands: Vec<Command>)
        ensures
            final(self)@ == opened(old(self)@, config).0,
            commands.deep_view() == opened(old(self)@, config).1,
    {
        let mut capture = Capture::Off;
        core::mem::swap(&mut self.capture, &mut capture);
        match capture {
            Capture::Opening(device) => {
                self.capture = Capture::On(CaptureSession::start(device, config));
                self.show_output_modal = false;
                self.page = Page::Waveform;
                self.theme = Theme::Green;
            },
            other => {
                self.capture = other;
            },
        }
        none()
    }

    fn open_failed(&mut self, error: CaptureError) -> (commands: Vec<Command>)
        ensures
            final(self)@ == open_failed(old(self)@, error).0,
            commands.deep_view() == open_failed(old(self)@, error).1,
    {
        if self.is_opening() {
            self.capture = Capture::Off;
            one(Command::Report(Failure::Capture(error)))
        } else {
            none()
        }
    }

    fn stream_failed(&mut self) -> (commands: Vec<Command>)
        ensures
            final(self)@ == stream_failed(old(self)@).0,
            commands.deep_view() == stream_failed(old(self)@).1,
    {
        let mut capture = Capture::Off;
        core::mem::swap(&mut self.capture, &mut capture);
        match capture {
            Capture::On(mut session) => {
                let was_running = session.is_running();
                session.fail();
                self.capture = Capture::On(session);
                if was_running {
                    one(Command::Report(Failure::StreamRuntimeError))
                } else {
                    none()
                }
            },
            other => {
                self.capture = other;
                none()
            },
        }
    }

    fn stop(&mut self) -> (commands: Vec<Command>)
        ensures
            final(self)@ == stop(old(self)@).0,
            commands.deep_view() == stop(old(self)@).1,
    {
        if self.is_opening() || self.holds_session() {
            self.capture = Capture::Off;
            self.page = Page::Main;
            one(Command::StopStream)
        } else {
            none()
        }
    }

    fn key(&mut self, event: Event) -> (commands: Vec<Command>)
        ensures
            final(self)@ == key(old(self)@, event).0,
            commands.deep_view() == key(old(self)@, event).1,
    {
        match event {
            Event::TabPressed { shift } => {
                if shift {
                    one(Command::FocusPrevious)
                } else {
                    one(Command::FocusNext)
                }
            },
            Event::EscapePressed => {
                match self.page {
                    Page::Main => {
                        self.show_output_modal = false;
                        self.theme = Theme::Dark;
                    },
                    Page::Waveform => {
                        self.page = Page::Main;
                        self.theme = Theme::Green;
                    },
                }
                none()
            },
            Event::Other => none(),
        }
    }

    fn listed(&mut self, answer: Option<Vec<Device>>) -> (commands: Vec<Command>)
        ensures
            final(self)@ == listed(old(self)@, message_answer(answer)).0,
            commands.deep_view() == listed(old(self)@, message_answer(answer)).1,
    {
        match DeviceCatalog::list_capture_devices(answer) {
            Ok(devices) => {
                self.devices = devices;
                none()
            },
            Err(_) => {
                let devices: Vec<Device> = Vec::new();
                proof {
                    assert(devices.deep_view() =~= Seq::<DeviceView>::empty());
                }
                self.devices = devices;
                one(Command::Report(Failure::DeviceEnumerationError))
            },
        }
    }

    fn is_opening(&self) -> (b: bool)
        ensures
            b == (self@.capture is Opening),
    {
        match &self.capture {
            Capture::Opening(_) => true,
            _ => false,
        }
    }

    fn holds_session(&self) -> (b: bool)
        ensures
            b == (self@.capture is On),
    {
        match &self.capture {
            Capture::On(_) => true,
            _ => false,
        }
    }

    /// Takes one block from the capture callback. It reaches the drawing side
    /// only while a session is running; a block that was not drawn yet gives
    /// way to it.
    pub fn deliver(&mut self, block: SampleBlock)
        ensures
            final(self)@ == fed(old(self)@, block@),
    {
        let mut capture = Capture::Off;
        core::mem::swap(&mut self.capture, &mut capture);
        match capture {
            Capture::On(mut session) => {
                session.deliver(block);
                self.capture = Capture::On(session);
            },
            other => {
                self.capture = other;
            },
        }
    }

    /// Draws the newest block that arrived since the last poll across
    /// `bounds`. Returns `None` at once when no new block has arrived: the
    /// frame is skipped, nothing is drawn again.
    pub fn poll_latest_waveform(&mut self, bounds: Bounds) -> (line: Option<Polyline>)
        ensures
            final(self)@ == polled(old(self)@),
            match unread(old(self)@) {
                Some(samples) => line matches Some(path) && traces(path@, samples, bounds),
                None => line is None,
            },
    {
        let mut capture = Capture::Off;
        core::mem::swap(&mut self.capture, &mut capture);
        match capture {
            Capture::On(mut session) => {
                let block = session.receive_latest();
                self.capture = Capture::On(session);
                match block {
                    Some(block) => Some(render(&block, bounds)),
                    None => None,
                }
            },
            other => {
                self.capture = other;
                None
            },
        }
    }

    /// The screen to show.
    pub fn page(&self) -> (page: Page)
        ensures
            page == self@.page,
    {
        self.page
    }

    /// Whether the device selector is shown over the main view.
    pub fn show_output_modal(&self) -> (shown: bool)
        ensures
            shown == self@.show_output_modal,
    {
        self.show_output_modal
    }

    /// The colour scheme to use.
    pub fn theme(&self) -> (theme: Theme)
        ensures
            theme == self@.theme,
    {
        self.theme
    }

    /// The capture devices of the last listing, in the host's order.
    pub fn devices(&self) -> (devices: &Vec<Device>)
        ensures
            devices.deep_view() == self@.devices,
    {
        &self.devices
    }

    /// What the controller is doing, as the user sees it.
    pub fn phase(&self) -> (phase: Phase)
        ensures
            phase == phase_of(self@),
    {
        match self.page {
            Page::Waveform => Phase::Capturing,
            Page::Main => if self.show_output_modal {
                Phase::DeviceListOpen
            } else {
                Phase::Idle
            },
        }
    }

    /// The device that the host has been asked to open and has not answered
    /// for yet, if any.
    pub fn opening(&self) -> (device: Option<&Device>)
        ensures
            match self@.capture {
                CaptureView::Opening(asked) => device matches Some(d) && d@ == asked,
                _ => device is None,
            },
    {
        match &self.capture {
            Capture::Opening(device) => Some(device),
            _ => None,
        }
    }

    /// The session that is held, if any.
    pub fn session(&self) -> (session: Option<&CaptureSession>)
        ensures
            match self@.capture {
                CaptureView::On(held) => session matches Some(s) && s@ == held,
                _ => session is None,
            },
    {
        match &self.capture {
            Capture::On(session) => Some(session),
            _ => None,
        }
    }
}

/// A controller that has seen no message is idle and well formed.
pub proof fn initial_state_is_idle()
    ensures
        well_formed(initial()),
        phase_of(initial()) == Phase::Idle,
        initial().capture is Off,
{
}

/// No message leads out of the well-formed states, and neither does a block
/// that is delivered or a poll.
pub proof fn step_keeps_well_formed(state: ControllerView, message: MessageView)
    requires
        well_formed(state),
    ensures
        well_formed(step(state, message).0),
        forall|block: Seq<i32>| well_formed(#[trigger] fed(state, block)),
        well_formed(polled(state)),
{
    if let MessageView::DevicesListed(Some(all)) = message {
        listing_holds_the_capture_devices(all);
    }
}

/// Whatever messages a new controller takes, in whatever order, it never
/// shows the waveform view without a session and never offers a device that
/// cannot capture.
pub proof fn every_run_is_well_formed(messages: Seq<MessageView>)
    ensures
        well_formed(after(initial(), messages)),
    decreases messages.len(),
{
    if messages.len() > 0 {
        every_run_is_well_formed(messages.drop_last());
        step_keeps_well_formed(after(initial(), messages.drop_last()), messages.last());
    }
}

/// The views follow one another as the messages say: the selector opens over
/// the main view and is dismissed back to it; the waveform view comes with an
/// opened stream and is left with the escape key, for the main view without
/// the selector unless the selector was asked for meanwhile. Leaving the
/// waveform view leaves the session as it is.
pub proof fn phases_follow_the_messages(state: ControllerView, config: StreamConfig)
    ensures
        phase_of(state) == Phase::Idle ==> phase_of(step(state, MessageView::ShowOutputModal).0)
            == Phase::DeviceListOpen,
        phase_of(state) == Phase::DeviceListOpen ==> phase_of(
            step(state, MessageView::HideOutputModal).0,
        ) == Phase::Idle,
        phase_of(state) == Phase::DeviceListOpen ==> phase_of(
            step(state, MessageView::Event(Event::EscapePressed)).0,
        ) == Phase::Idle,
        state.capture is Opening ==> phase_of(step(state, MessageView::SessionOpened(config)).0)
            == Phase::Capturing,
        phase_of(state) == Phase::Capturing && !state.show_output_modal ==> phase_of(
            step(state, MessageView::Event(Event::EscapePressed)).0,
        ) == Phase::Idle,
        phase_of(state) == Phase::Capturing ==> step(
            state,
            MessageView::Event(Event::EscapePressed),
        ).0.capture == state.capture,
{
}

/// Selecting a listed device while a session is held gives exactly two
/// commands: stop the held stream, then open the new one. The old session is
/// gone from the state at once.
pub proof fn switching_stops_before_opening(state: ControllerView, id: Seq<char>)
    requires
        state.capture is On,
        lookup(state.devices, id) is Some,
    ensures
        step(state, MessageView::SelectedDevice(id)).1 == seq![
            CommandView::StopStream,
            CommandView::OpenStream(lookup(state.devices, id)->0),
        ],
        step(state, MessageView::SelectedDevice(id)).0.capture == CaptureView::Opening(
            lookup(state.devices, id)->0,
        ),
{
}

/// Whatever the state and the message: a command to open a stream comes from
/// a selection only, it is the last command of its step, no session is held
/// once it is given, and where one was held the command before it stops that
/// session's stream.
pub proof fn open_follows_stop(state: ControllerView, message: MessageView, at: int)
    requires
        0 <= at < step(state, message).1.len(),
        step(state, message).1[at] is OpenStream,
    ensures
        message is SelectedDevice,
        at == step(state, message).1.len() - 1,
        step(state, message).0.capture is Opening,
        state.capture is On ==> at == 1 && step(state, message).1[0] == CommandView::StopStream,
{
}

/// A stream is opened on capture devices of the last listing only.
pub proof fn only_listed_capture_devices_are_opened(
    state: ControllerView,
    message: MessageView,
    at: int,
)
    requires
        well_formed(state),
        0 <= at < step(state, message).1.len(),
        step(state, message).1[at] is OpenStream,
    ensures
        state.devices.contains(step(state, message).1[at]->OpenStream_0),
        (step(state, message).1[at]->OpenStream_0).supports_capture,
{
    let id = message->SelectedDevice_0;
    lookup_finds_what_is_listed(state.devices, id);
}

/// Selecting an identifier that the listing does not hold reports
/// `DeviceNotFound` and changes nothing: a session that is held stays as it
/// is and no command reaches its stream.
pub proof fn unknown_device_is_refused(state: ControllerView, id: Seq<char>)
    requires
        lookup(state.devices, id) is None,
    ensures
        step(state, MessageView::SelectedDevice(id)).0 == state,
        step(state, MessageView::SelectedDevice(id)).1 == seq![
            CommandView::Report(Failure::Capture(CaptureError::DeviceNotFound)),
        ],
{
}

/// A selection that the host could not open leaves the view where it was,
/// holds no session, and reports the host's error.
pub proof fn failed_selection_keeps_the_view(state: ControllerView, error: CaptureError)
    requires
        state.capture is Opening,
    ensures
        step(state, MessageView::SessionFailed(error)).0.page == state.page,
        step(state, MessageView::SessionFailed(error)).0.show_output_modal
            == state.show_output_modal,
        phase_of(step(state, MessageView::SessionFailed(error)).0) == phase_of(state),
        step(state, MessageView::SessionFailed(error)).0.capture is Off,
        step(state, MessageView::SessionFailed(error)).1 == seq![
            CommandView::Report(Failure::Capture(error)),
        ],
{
}

/// A running session is either the one that ran before the step or one that
/// the host has just opened: no step restarts a session that has ended.
pub proof fn ended_session_is_not_restarted(state: ControllerView, message: MessageView)
    requires
        step(state, message).0.capture matches CaptureView::On(after) && after.status
            == SessionStatus::Running,
    ensures
        (state.capture matches CaptureView::On(before) && before.status == SessionStatus::Running)
            || (message is SessionOpened && state.capture is Opening),
{
}

/// While a session runs, the block delivered last is the one that the next
/// poll draws, and the poll after that finds nothing new. Without a running
/// session a delivered block changes nothing.
pub proof fn delivered_block_is_drawn_once(state: ControllerView, block: Seq<i32>)
    ensures
        (state.capture matches CaptureView::On(session) && session.status
            == SessionStatus::Running) ==> unread(fed(state, block)) == Some(block),
        !(state.capture matches CaptureView::On(session) && session.status
            == SessionStatus::Running) ==> fed(state, block) == state,
        unread(polled(fed(state, block))) is None,
{
}

/// A host without capture devices leaves nothing on offer and reports no
/// error.
pub proof fn host_without_capture_devices_lists_nothing(
    state: ControllerView,
    all: Seq<DeviceView>,
)
    requires
        forall|i: int| 0 <= i < all.len() ==> !(#[trigger] all[i]).supports_capture,
    ensures
        step(state, MessageView::DevicesListed(Some(all))).0.devices.len() == 0,
        step(state, MessageView::DevicesListed(Some(all))).1.len() == 0,
{
    listing_holds_the_capture_devices(all);
}

/// The host's answer as a message carries it.
pub open spec fn message_answer(answer: Option<Vec<Device>>) -> Option<Seq<DeviceView>> {
    match answer {
        Some(all) => Some(all.deep_view()),
        None => None,
    }
}

} // verus!
