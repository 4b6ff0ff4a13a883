use stream_intro::controller::{
    Command, Event, Failure, Message, Page, Phase, SessionController, Theme,
};
use stream_intro::device::Device;
use stream_intro::sample::{SampleBlock, FULL_SCALE};
use stream_intro::session::{CaptureError, SampleFormat, SessionStatus, StreamConfig};
use stream_intro::waveform::{Bounds, PathStep, Point};

fn device(id: &str, name: &str, supports_capture: bool) -> Device {
    Device { id: id.to_string(), name: name.to_string(), supports_capture }
}

fn microphone() -> Device {
    device("Built-in Microphone", "Built-in Microphone", true)
}

fn interface() -> Device {
    device("USB Interface", "USB Interface", true)
}

fn speakers() -> Device {
    device("Speakers", "Speakers", false)
}

fn config() -> StreamConfig {
    StreamConfig { channels: 2, sample_rate: 48_000, sample_format: SampleFormat::F32 }
}

fn area() -> Bounds {
    Bounds { width: 400, height: 200 }
}

fn select(id: &str) -> Message {
    Message::SelectedDevice(id.to_string())
}

/// A stand-in for the host: it keeps a log of what it was asked to do and
/// answers every request to open a stream as it was told to.
struct Host {
    devices: Option<Vec<Device>>,
    open_answer: Result<StreamConfig, CaptureError>,
    log: Vec<String>,
    reported: Vec<Failure>,
    focus: Vec<&'static str>,
}

impl Host {
    fn new(devices: Vec<Device>) -> Host {
        Host {
            devices: Some(devices),
            open_answer: Ok(config()),
            log: Vec::new(),
            reported: Vec::new(),
            focus: Vec::new(),
        }
    }

    /// Carries out the commands of one update, in order, and feeds the
    /// answers back until the controller asks for nothing more.
    fn send(&mut self, controller: &mut SessionController, message: Message) {
        let mut queue = vec![message];
        while !queue.is_empty() {
            let next = queue.remove(0);
            for command in controller.update(next) {
                match command {
                    Command::ListDevices => {
                        self.log.push("list".to_string());
                        queue.push(Message::DevicesListed(self.devices.clone()));
                    }
                    Command::StopStream => self.log.push("stop".to_string()),
                    Command::OpenStream(device) => {
                        self.log.push(format!("open {}", device.id));
                        queue.push(match self.open_answer {
                            Ok(config) => Message::SessionOpened(config),
                            Err(error) => Message::SessionFailed(error),
                        });
                    }
                    Command::Report(failure) => self.reported.push(failure),
                    Command::FocusPrevious => self.focus.push("previous"),
                    Command::FocusNext => self.focus.push("next"),
                }
            }
        }
    }
}

fn capturing(host: &mut Host, id: &str) -> SessionController {
    let mut controller = SessionController::new();
    host.send(&mut controller, Message::ShowOutputModal);
    host.send(&mut controller, select(id));
    assert_eq!(controller.phase(), Phase::Capturing);
    controller
}

#[test]
fn new_controller_is_idle() {
    let controller = SessionController::new();
    assert_eq!(controller.phase(), Phase::Idle);
    assert_eq!(controller.page(), Page::Main);
    assert!(!controller.show_output_modal());
    assert_eq!(controller.theme(), Theme::Dark);
    assert!(controller.devices().is_empty());
    assert!(controller.session().is_none());
    assert!(controller.opening().is_none());
}

#[test]
fn default_controller_is_a_new_one() {
    assert_eq!(SessionController::default(), SessionController::new());
}

#[test]
fn opening_the_selector_asks_for_the_devices() {
    let mut controller = SessionController::new();
    assert_eq!(controller.update(Message::ShowOutputModal), vec![Command::ListDevices]);
    assert_eq!(controller.phase(), Phase::DeviceListOpen);
    assert!(controller.show_output_modal());
}

#[test]
fn devices_are_listed_anew_each_time_the_selector_opens() {
    let mut host = Host::new(vec![microphone()]);
    let mut controller = SessionController::new();
    host.send(&mut controller, Message::ShowOutputModal);
    assert_eq!(controller.devices(), &vec![microphone()]);
    host.send(&mut controller, Message::HideOutputModal);
    host.devices = Some(vec![interface(), microphone()]);
    host.send(&mut controller, Message::ShowOutputModal);
    assert_eq!(controller.devices(), &vec![interface(), microphone()]);
    assert_eq!(host.log, vec!["list", "list"]);
}

#[test]
fn listing_keeps_the_capture_devices_only() {
    let mut controller = SessionController::new();
    let commands = controller.update(Message::DevicesListed(Some(vec![
        speakers(),
        microphone(),
        interface(),
    ])));
    assert_eq!(commands, Vec::new());
    assert_eq!(controller.devices(), &vec![microphone(), interface()]);
}

#[test]
fn host_without_capture_devices_gives_an_empty_list_and_no_error() {
    let mut host = Host::new(vec![speakers()]);
    let mut controller = SessionController::new();
    host.send(&mut controller, Message::ShowOutputModal);
    assert!(controller.devices().is_empty());
    assert!(host.reported.is_empty());
    assert_eq!(controller.phase(), Phase::DeviceListOpen);
}

#[test]
fn failed_enumeration_empties_the_list_and_is_reported() {
    let mut host = Host::new(vec![microphone()]);
    let mut controller = SessionController::new();
    host.send(&mut controller, Message::ShowOutputModal);
    host.devices = None;
    host.send(&mut controller, Message::ShowOutputModal);
    assert!(controller.devices().is_empty());
    assert_eq!(host.reported, vec![Failure::DeviceEnumerationError]);
    assert_eq!(controller.phase(), Phase::DeviceListOpen);
}

#[test]
fn dismissing_the_selector_returns_to_idle() {
    let mut controller = SessionController::new();
    controller.update(Message::ShowOutputModal);
    assert_eq!(controller.update(Message::HideOutputModal), Vec::new());
    assert_eq!(controller.phase(), Phase::Idle);
}

#[test]
fn tick_changes_nothing() {
    let mut host = Host::new(vec![microphone()]);
    let mut controller = capturing(&mut host, "Built-in Microphone");
    let mut twin = capturing(&mut Host::new(vec![microphone()]), "Built-in Microphone");
    assert_eq!(controller.update(Message::Tick), Vec::new());
    assert_eq!(controller, twin);
    assert_eq!(twin.update(Message::Tick), Vec::new());
}

#[test]
fn selecting_a_device_opens_it_and_shows_the_waveform() {
    let mut host = Host::new(vec![speakers(), microphone()]);
    let mut controller = SessionController::new();
    host.send(&mut controller, Message::ShowOutputModal);
    host.send(&mut controller, select("Built-in Microphone"));
    assert_eq!(host.log, vec!["list", "open Built-in Microphone"]);
    assert_eq!(controller.phase(), Phase::Capturing);
    assert_eq!(controller.page(), Page::Waveform);
    assert!(!controller.show_output_modal());
    assert_eq!(controller.theme(), Theme::Green);
    let session = controller.session().unwrap();
    assert_eq!(session.device(), &microphone());
    assert_eq!(session.config(), config());
    assert_eq!(session.status(), SessionStatus::Running);
    assert!(host.reported.is_empty());
}

#[test]
fn selection_waits_for_the_host_before_it_shows_the_waveform() {
    let mut controller = SessionController::new();
    controller.update(Message::ShowOutputModal);
    controller.update(Message::DevicesListed(Some(vec![microphone()])));
    assert_eq!(
        controller.update(select("Built-in Microphone")),
        vec![Command::OpenStream(microphone())]
    );
    assert_eq!(controller.phase(), Phase::DeviceListOpen);
    assert_eq!(controller.opening(), Some(&microphone()));
    assert!(controller.session().is_none());
    assert_eq!(controller.update(Message::SessionOpened(config())), Vec::new());
    assert_eq!(controller.phase(), Phase::Capturing);
    assert!(controller.opening().is_none());
}

#[test]
fn session_carries_the_default_configuration_of_the_device() {
    let mut host = Host::new(vec![microphone()]);
    let odd = StreamConfig { channels: 1, sample_rate: 22_050, sample_format: SampleFormat::I16 };
    host.open_answer = Ok(odd);
    let controller = capturing(&mut host, "Built-in Microphone");
    assert_eq!(controller.session().unwrap().config(), odd);
}

#[test]
fn switching_devices_stops_the_old_stream_before_opening_the_new() {
    let mut host = Host::new(vec![microphone(), interface()]);
    let mut controller = capturing(&mut host, "Built-in Microphone");
    host.send(&mut controller, Message::Event(Event::EscapePressed));
    host.send(&mut controller, Message::ShowOutputModal);
    host.log.clear();
    host.send(&mut controller, select("USB Interface"));
    assert_eq!(host.log, vec!["stop", "open USB Interface"]);
    assert_eq!(controller.session().unwrap().device(), &interface());
    assert_eq!(controller.phase(), Phase::Capturing);
}

#[test]
fn switching_gives_stop_then_open_as_its_commands() {
    let mut host = Host::new(vec![microphone(), interface()]);
    let mut controller = capturing(&mut host, "Built-in Microphone");
    assert_eq!(
        controller.update(select("USB Interface")),
        vec![Command::StopStream, Command::OpenStream(interface())]
    );
    assert!(controller.session().is_none());
    assert_eq!(controller.opening(), Some(&interface()));
    assert_eq!(controller.page(), Page::Main);
}

#[test]
fn selecting_the_same_device_again_reopens_it() {
    let mut host = Host::new(vec![microphone()]);
    let mut controller = capturing(&mut host, "Built-in Microphone");
    host.log.clear();
    host.send(&mut controller, select("Built-in Microphone"));
    assert_eq!(host.log, vec!["stop", "open Built-in Microphone"]);
}

#[test]
fn old_blocks_are_discarded_with_the_old_session() {
    let mut host = Host::new(vec![microphone(), interface()]);
    let mut controller = capturing(&mut host, "Built-in Microphone");
    controller.deliver(SampleBlock::new(vec![1, 2, 3]));
    host.send(&mut controller, select("USB Interface"));
    assert_eq!(controller.poll_latest_waveform(area()), None);
}

#[test]
fn unknown_device_is_refused_and_nothing_changes() {
    let mut host = Host::new(vec![microphone()]);
    let mut controller = capturing(&mut host, "Built-in Microphone");
    controller.deliver(SampleBlock::new(vec![0, FULL_SCALE]));
    let mut twin = capturing(&mut Host::new(vec![microphone()]), "Built-in Microphone");
    twin.deliver(SampleBlock::new(vec![0, FULL_SCALE]));
    host.log.clear();

    assert_eq!(
        controller.update(select("Line In")),
        vec![Command::Report(Failure::Capture(CaptureError::DeviceNotFound))]
    );
    assert_eq!(controller, twin);
    assert_eq!(controller.session().unwrap().status(), SessionStatus::Running);
    assert_eq!(controller.session().unwrap().device(), &microphone());
    assert!(controller.poll_latest_waveform(area()).is_some());

    host.send(&mut controller, select("Line In"));
    assert!(host.log.is_empty());
    assert_eq!(host.reported, vec![Failure::Capture(CaptureError::DeviceNotFound)]);
}

#[test]
fn device_that_cannot_capture_is_not_found() {
    let mut host = Host::new(vec![speakers(), microphone()]);
    let mut controller = SessionController::new();
    host.send(&mut controller, Message::ShowOutputModal);
    host.send(&mut controller, select("Speakers"));
    assert_eq!(host.reported, vec![Failure::Capture(CaptureError::DeviceNotFound)]);
    assert_eq!(host.log, vec!["list"]);
    assert_eq!(controller.phase(), Phase::DeviceListOpen);
}

#[test]
fn selection_before_any_listing_finds_nothing() {
    let mut controller = SessionController::new();
    assert_eq!(
        controller.update(select("Built-in Microphone")),
        vec![Command::Report(Failure::Capture(CaptureError::DeviceNotFound))]
    );
    assert_eq!(controller, SessionController::new());
}

#[test]
fn host_errors_keep_the_selector_open() {
    for error in [
        CaptureError::DeviceNotFound,
        CaptureError::StreamBuildError,
        CaptureError::StreamStartError,
    ] {
        let mut host = Host::new(vec![microphone()]);
        host.open_answer = Err(error);
        let mut controller = SessionController::new();
        host.send(&mut controller, Message::ShowOutputModal);
        host.send(&mut controller, select("Built-in Microphone"));
        assert_eq!(host.reported, vec![Failure::Capture(error)]);
        assert_eq!(controller.phase(), Phase::DeviceListOpen);
        assert!(controller.session().is_none());
        assert!(controller.opening().is_none());
        assert_eq!(controller.theme(), Theme::Dark);
    }
}

#[test]
fn another_device_can_be_tried_after_a_failure() {
    let mut host = Host::new(vec![microphone(), interface()]);
    host.open_answer = Err(CaptureError::StreamBuildError);
    let mut controller = SessionController::new();
    host.send(&mut controller, Message::ShowOutputModal);
    host.send(&mut controller, select("Built-in Microphone"));
    host.open_answer = Ok(config());
    host.send(&mut controller, select("USB Interface"));
    assert_eq!(host.log, vec!["list", "open Built-in Microphone", "open USB Interface"]);
    assert_eq!(controller.session().unwrap().device(), &interface());
}

#[test]
fn selection_made_while_the_host_is_opening_is_dropped() {
    let mut controller = SessionController::new();
    controller.update(Message::DevicesListed(Some(vec![microphone(), interface()])));
    controller.update(select("Built-in Microphone"));
    assert_eq!(controller.update(select("USB Interface")), Vec::new());
    assert_eq!(controller.opening(), Some(&microphone()));
}

#[test]
fn answers_that_nothing_waits_for_are_ignored() {
    let mut controller = SessionController::new();
    assert_eq!(controller.update(Message::SessionOpened(config())), Vec::new());
    assert_eq!(
        controller.update(Message::SessionFailed(CaptureError::StreamStartError)),
        Vec::new()
    );
    assert_eq!(controller.update(Message::StreamFailed), Vec::new());
    assert_eq!(controller, SessionController::new());

    let mut host = Host::new(vec![microphone()]);
    let mut running = capturing(&mut host, "Built-in Microphone");
    let odd = StreamConfig { channels: 1, sample_rate: 8_000, sample_format: SampleFormat::U8 };
    assert_eq!(running.update(Message::SessionOpened(odd)), Vec::new());
    assert_eq!(running.session().unwrap().config(), config());
}

#[test]
fn microphone_block_is_drawn_with_its_peaks_on_the_edges() {
    let mut host = Host::new(vec![speakers(), microphone()]);
    let mut controller = SessionController::new();
    host.send(&mut controller, Message::ShowOutputModal);
    host.send(&mut controller, select("Built-in Microphone"));
    assert_eq!(controller.session().unwrap().config(), config());

    controller.deliver(SampleBlock::new(vec![0, FULL_SCALE, -FULL_SCALE, 0]));
    let line = controller.poll_latest_waveform(area()).unwrap();
    assert_eq!(line.len(), 4);
    assert_eq!(line.segment_count(), 3);
    assert_eq!(line.steps[1].point().y, 0);
    assert_eq!(line.steps[2].point().y, 200);
    assert_eq!(
        line.steps,
        vec![
            PathStep::MoveTo(Point { x: 0, y: 100 }),
            PathStep::LineTo(Point { x: 100, y: 0 }),
            PathStep::LineTo(Point { x: 200, y: 200 }),
            PathStep::LineTo(Point { x: 300, y: 100 }),
        ]
    );
}

#[test]
fn poll_without_new_data_returns_at_once_with_nothing() {
    let mut host = Host::new(vec![microphone()]);
    let mut controller = capturing(&mut host, "Built-in Microphone");
    assert_eq!(controller.poll_latest_waveform(area()), None);
    controller.deliver(SampleBlock::new(vec![1]));
    assert!(controller.poll_latest_waveform(area()).is_some());
    assert_eq!(controller.poll_latest_waveform(area()), None);
}

#[test]
fn poll_draws_the_newest_block_only() {
    let mut host = Host::new(vec![microphone()]);
    let mut controller = capturing(&mut host, "Built-in Microphone");
    controller.deliver(SampleBlock::new(vec![0, 0, 0]));
    controller.deliver(SampleBlock::new(vec![FULL_SCALE]));
    let line = controller.poll_latest_waveform(area()).unwrap();
    assert_eq!(line.steps, vec![PathStep::MoveTo(Point { x: 0, y: 0 })]);
}

#[test]
fn blocks_without_a_session_are_dropped() {
    let mut controller = SessionController::new();
    controller.deliver(SampleBlock::new(vec![1, 2]));
    assert_eq!(controller.poll_latest_waveform(area()), None);
    assert_eq!(controller, SessionController::new());
}

#[test]
fn escape_on_the_main_view_closes_the_selector() {
    let mut controller = SessionController::new();
    controller.update(Message::ShowOutputModal);
    assert_eq!(controller.update(Message::Event(Event::EscapePressed)), Vec::new());
    assert_eq!(controller.phase(), Phase::Idle);
    assert_eq!(controller.theme(), Theme::Dark);
}

#[test]
fn escape_on_the_waveform_view_keeps_the_session_running() {
    let mut host = Host::new(vec![microphone()]);
    let mut controller = capturing(&mut host, "Built-in Microphone");
    host.log.clear();
    host.send(&mut controller, Message::Event(Event::EscapePressed));
    assert_eq!(controller.phase(), Phase::Idle);
    assert_eq!(controller.page(), Page::Main);
    assert_eq!(controller.theme(), Theme::Green);
    assert!(host.log.is_empty());
    assert_eq!(controller.session().unwrap().status(), SessionStatus::Running);
    controller.deliver(SampleBlock::new(vec![0]));
    assert!(controller.poll_latest_waveform(area()).is_some());

    host.send(&mut controller, Message::Event(Event::EscapePressed));
    assert_eq!(controller.theme(), Theme::Dark);
    assert!(controller.session().is_some());
}

#[test]
fn tab_moves_the_focus() {
    let mut host = Host::new(Vec::new());
    let mut controller = SessionController::new();
    host.send(&mut controller, Message::Event(Event::TabPressed { shift: false }));
    host.send(&mut controller, Message::Event(Event::TabPressed { shift: true }));
    host.send(&mut controller, Message::Event(Event::Other));
    assert_eq!(host.focus, vec!["next", "previous"]);
    assert_eq!(controller, SessionController::new());
}

#[test]
fn stream_error_ends_the_session_without_restart() {
    let mut host = Host::new(vec![microphone()]);
    let mut controller = capturing(&mut host, "Built-in Microphone");
    host.log.clear();
    host.send(&mut controller, Message::StreamFailed);
    assert_eq!(host.reported, vec![Failure::StreamRuntimeError]);
    assert!(host.log.is_empty());
    assert_eq!(controller.session().unwrap().status(), SessionStatus::Errored);
    assert_eq!(controller.phase(), Phase::Capturing);

    controller.deliver(SampleBlock::new(vec![1]));
    assert_eq!(controller.poll_latest_waveform(area()), None);
    for message in [Message::Tick, Message::StreamFailed, Message::HideOutputModal] {
        host.send(&mut controller, message);
    }
    assert_eq!(controller.session().unwrap().status(), SessionStatus::Errored);
    assert_eq!(host.reported, vec![Failure::StreamRuntimeError]);
}

#[test]
fn capture_resumes_after_an_error_by_selecting_again() {
    let mut host = Host::new(vec![microphone()]);
    let mut controller = capturing(&mut host, "Built-in Microphone");
    host.send(&mut controller, Message::StreamFailed);
    host.log.clear();
    host.send(&mut controller, select("Built-in Microphone"));
    assert_eq!(host.log, vec!["stop", "open Built-in Microphone"]);
    assert_eq!(controller.session().unwrap().status(), SessionStatus::Running);
}

#[test]
fn stopping_the_session_releases_it_and_shows_the_main_view() {
    let mut host = Host::new(vec![microphone()]);
    let mut controller = capturing(&mut host, "Built-in Microphone");
    host.log.clear();
    host.send(&mut controller, Message::StopSession);
    assert_eq!(host.log, vec!["stop"]);
    assert!(controller.session().is_none());
    assert_eq!(controller.phase(), Phase::Idle);
    controller.deliver(SampleBlock::new(vec![1]));
    assert_eq!(controller.poll_latest_waveform(area()), None);

    host.log.clear();
    host.send(&mut controller, Message::StopSession);
    assert!(host.log.is_empty());
}

#[test]
fn stopping_while_the_host_is_opening_gives_the_pick_up() {
    let mut controller = SessionController::new();
    controller.update(Message::DevicesListed(Some(vec![microphone()])));
    controller.update(select("Built-in Microphone"));
    assert_eq!(controller.update(Message::StopSession), vec![Command::StopStream]);
    assert!(controller.opening().is_none());
    assert_eq!(controller.update(Message::SessionOpened(config())), Vec::new());
    assert!(controller.session().is_none());
}

#[test]
fn waveform_view_is_never_shown_without_a_session() {
    let messages = || {
        vec![
            Message::ShowOutputModal,
            Message::DevicesListed(Some(vec![microphone(), interface(), speakers()])),
            select("Built-in Microphone"),
            Message::SessionOpened(config()),
            Message::Event(Event::EscapePressed),
            select("USB Interface"),
            Message::SessionFailed(CaptureError::StreamBuildError),
            select("Nothing"),
            Message::StreamFailed,
            Message::StopSession,
            Message::HideOutputModal,
            Message::Tick,
            Message::Event(Event::TabPressed { shift: true }),
            Message::DevicesListed(None),
        ]
    };
    let count = messages().len();
    for first in 0..count {
        for second in 0..count {
            for third in 0..count {
                let mut controller = SessionController::new();
                controller.update(Message::DevicesListed(Some(vec![microphone(), interface()])));
                for pick in [first, second, third, first, third] {
                    let mut all = messages();
                    let commands = controller.update(all.swap_remove(pick));
                    if controller.page() == Page::Waveform {
                        assert!(controller.session().is_some());
                    }
                    assert!(!(controller.session().is_some() && controller.opening().is_some()));
                    if let Some(at) =
                        commands.iter().position(|c| matches!(c, Command::OpenStream(_)))
                    {
                        assert_eq!(at, commands.len() - 1);
                        assert!(controller.session().is_none());
                    }
                }
            }
        }
    }
}
