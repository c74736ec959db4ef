use web_serial_logger::app::{
    worker_report, App, Command, MISSING_FILE_WARNING, MISSING_PORT_WARNING,
};
use web_serial_logger::view::{AlertType, Events};

type TestApp = App<&'static str, u32, u64>;

fn warning_text(cmd: Command<u64>) -> String {
    match cmd {
        Command::Notify(alert) => {
            assert_eq!(alert.kind, AlertType::Warning);
            alert.message
        }
        _ => panic!("expected a warning"),
    }
}

#[test]
fn new_app_is_idle() {
    let app = TestApp::new();
    assert!(app.file().is_none());
    assert!(app.serial_port().is_none());
    assert!(!app.is_recording());
    assert!(!app.setup_locked());
}

#[test]
fn start_without_file_warns_about_file_first() {
    let mut app = TestApp::new();
    let text = warning_text(app.handle_view_event(Events::StartClicked));
    assert_eq!(text, "Please select the output file!");
    assert_eq!(text, MISSING_FILE_WARNING);
    app.device_chosen(9, None, None);
    let text = warning_text(app.handle_view_event(Events::StartClicked));
    assert_eq!(text, "Please select the output file!");
}

#[test]
fn start_without_port_warns_about_port() {
    let mut app = TestApp::new();
    app.file_chosen("log.bin");
    let text = warning_text(app.handle_view_event(Events::StartClicked));
    assert_eq!(text, "Please select the serial port!");
    assert_eq!(text, MISSING_PORT_WARNING);
}

#[test]
fn choose_buttons_ask_when_idle() {
    let mut app = TestApp::new();
    assert!(matches!(app.handle_view_event(Events::OpenFileClicked), Command::ChooseFile));
    assert!(matches!(app.handle_view_event(Events::SelectDeviceClicked), Command::ChooseDevice));
    assert!(matches!(app.handle_view_event(Events::StopClicked), Command::Nothing));
}

#[test]
fn full_recording_cycle() {
    let mut app = TestApp::new();
    app.file_chosen("a.bin");
    app.file_chosen("b.bin");
    assert_eq!(app.file(), Some(&"b.bin"));
    let label = app.device_chosen(3, Some(0x2341), Some(0x0043));
    assert_eq!(label, "VID:PID = 2341:0043");
    assert_eq!(app.serial_port(), Some(&3));
    assert!(matches!(app.handle_view_event(Events::StartClicked), Command::StartRecording));
    app.recording_started(77);
    assert!(app.is_recording());
    assert!(app.setup_locked());
    // While recording, the setup buttons do nothing.
    assert!(matches!(app.handle_view_event(Events::OpenFileClicked), Command::Nothing));
    assert!(matches!(app.handle_view_event(Events::SelectDeviceClicked), Command::Nothing));
    assert!(matches!(app.handle_view_event(Events::StartClicked), Command::Nothing));
    // Stop hands back the recording and leaves none in progress.
    assert!(matches!(app.handle_view_event(Events::StopClicked), Command::StopRecording(77)));
    assert!(!app.is_recording());
    assert!(app.setup_locked());
    assert!(matches!(app.handle_view_event(Events::StopClicked), Command::Nothing));
    app.recording_finished();
    assert!(!app.is_recording());
    assert!(!app.setup_locked());
    assert_eq!(app.file(), Some(&"b.bin"));
    assert_eq!(app.serial_port(), Some(&3));
}

#[test]
fn device_label_formats() {
    let mut app = TestApp::new();
    assert_eq!(app.device_chosen(1, Some(0xabcd), Some(0x1)), "VID:PID = abcd:0001");
    assert_eq!(app.device_chosen(1, Some(0), Some(0xffff)), "VID:PID = 0000:ffff");
    assert_eq!(app.device_chosen(1, Some(0x2341), None), "VID:PID = (unknown)");
    assert_eq!(app.device_chosen(1, None, Some(0x43)), "VID:PID = (unknown)");
    assert_eq!(app.device_chosen(1, None, None), "VID:PID = (unknown)");
    let (v, p) = (0x10c4u16, 0xea60u16);
    assert_eq!(
        app.device_chosen(1, Some(v), Some(p)),
        format!("VID:PID = {:04x}:{:04x}", v, p)
    );
}

#[test]
fn worker_report_texts() {
    let done = worker_report(&Ok(0));
    assert_eq!(done.kind, AlertType::Success);
    assert_eq!(done.message, "Done, got 0 bytes!");
    let done = worker_report(&Ok(123456));
    assert_eq!(done.message, "Done, got 123456 bytes!");
    let failed = worker_report(&Err("JsValue(\"port lost\")".to_string()));
    assert_eq!(failed.kind, AlertType::Warning);
    assert_eq!(failed.message, "Worker stopped: JsValue(\"port lost\")");
}
