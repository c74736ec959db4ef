//! The controller: what each click and each end of a recording does to the
//! chosen file, the chosen serial port and the recording in progress.
//!
//! The handles themselves (`F` for the output file, `P` for the serial port,
//! `H` for a running recording) belong to the browser; the controller keeps
//! them and decides, and the caller carries out the command it returns.

use vstd::prelude::*;
use crate::text::{
    all_digits, decimal_digits, digits_value, hex4, hex_digit_value, lemma_decimal_text,
    lemma_hex4_denotes, push_char, push_decimal, push_hex4,
};
use crate::view::{Alert, AlertType, Events};

verus! {

/// The warning shown when Start is clicked before a file was chosen.
pub const MISSING_FILE_WARNING: &'static str = "Please select the output file!";

/// The warning shown when Start is clicked before a serial port was chosen.
pub const MISSING_PORT_WARNING: &'static str = "Please select the serial port!";

/// What the caller does after a click.
pub enum Command<H> {
    /// Ask the user for an output file, then report it to `file_chosen`.
    ChooseFile,
    /// Ask the user for a serial port, then report it to `device_chosen`.
    ChooseDevice,
    /// Show this alert.
    Notify(Alert),
    /// Start recording from the chosen port into the chosen file, then
    /// report the new recording to `recording_started`.
    StartRecording,
    /// Stop this recording.
    StopRecording(H),
    /// Nothing to do.
    Nothing,
}

/// The controller's state as a plain value.
pub struct AppModel<F, P, H> {
    pub file: Option<F>,
    pub serial_port: Option<P>,
    /// The recording in progress, if any.
    pub handle: Option<H>,
    /// Whether the open-file, select-device and start buttons are disabled.
    pub setup_locked: bool,
}

impl<F, P, H> AppModel<F, P, H> {
    pub open spec fn recording(self) -> bool {
        self.handle is Some
    }

    /// A recording in progress has a chosen file and a chosen port, and the
    /// setup buttons stay disabled while it runs.
    pub open spec fn wf(self) -> bool {
        self.recording() ==> {
            &&& self.setup_locked
            &&& self.file is Some
            &&& self.serial_port is Some
        }
    }
}

/// The controller.
pub struct App<F, P, H> {
    file: Option<F>,
    serial_port: Option<P>,
    handle: Option<H>,
    setup_locked: bool,
}

impl<F, P, H> View for App<F, P, H> {
    type V = AppModel<F, P, H>;

    closed spec fn view(&self) -> AppModel<F, P, H> {
        AppModel {
            file: self.file,
            serial_port: self.serial_port,
            handle: self.handle,
            setup_locked: self.setup_locked,
        }
    }
}

/// The text that names a serial device by its USB ids.
pub open spec fn device_label(vid: Option<u16>, pid: Option<u16>) -> Seq<char> {
    match (vid, pid) {
        (Some(v), Some(p)) => "VID:PID = "@ + hex4(v as nat) + ":"@ + hex4(p as nat),
        _ => "VID:PID = (unknown)"@,
    }
}

/// The alert that reports how a recording ended: the bytes it wrote, or
/// the error that stopped it.
pub open spec fn report_kind(result: Result<usize, String>) -> AlertType {
    match result {
        Ok(_) => AlertType::Success,
        Err(_) => AlertType::Warning,
    }
}

pub open spec fn report_text(result: Result<usize, String>) -> Seq<char> {
    match result {
        Ok(n) => "Done, got "@ + decimal_digits(n as nat) + " bytes!"@,
        Err(e) => "Worker stopped: "@ + e@,
    }
}

/// The alert for the end of a recording; `result` holds the number of bytes
/// written, or the text of the error that stopped it.
pub fn worker_report(result: &Result<usize, String>) -> (alert: Alert)
    ensures
        alert.kind == report_kind(*result),
        alert.message@ == report_text(*result),
        result is Ok ==> alert.kind == AlertType::Success,
        result is Err ==> alert.kind == AlertType::Warning,
        result matches Ok(n) ==> alert.message@ == "Done, got "@ + decimal_digits(n as nat)
            + " bytes!"@,
        result matches Err(e) ==> alert.message@ == "Worker stopped: "@ + e@,
{
    match result {
        Ok(n) => {
            let mut message = String::from_str("Done, got ");
            push_decimal(&mut message, *n as u64);
            message.append(" bytes!");
            Alert { kind: AlertType::Success, message }
        },
        Err(e) => {
            let mut message = String::from_str("Worker stopped: ");
            message.append(e.as_str());
            Alert { kind: AlertType::Warning, message }
        },
    }
}

/// A finished recording is reported as a success whose text is
/// `Done, got `, then the count in decimal (digits only, no leading zero,
/// denoting exactly `n`), then ` bytes!`.
pub proof fn lemma_report_states_count(n: usize)
    ensures
        report_kind(Ok(n)) == AlertType::Success,
        ({
            let t = report_text(Ok(n));
            let d = t.subrange(10, t.len() - 7);
            &&& t.len() > 17
            &&& t.subrange(0, 10) == "Done, got "@
            &&& t.subrange(t.len() - 7, t.len() as int) == " bytes!"@
            &&& all_digits(d)
            &&& digits_value(d) == n
            &&& (n > 0 ==> d[0] != '0')
        }),
{
    reveal_strlit("Done, got ");
    reveal_strlit(" bytes!");
    lemma_decimal_text(n as nat);
    let t = report_text(Ok(n));
    let digits = decimal_digits(n as nat);
    assert(t.subrange(0, 10) =~= "Done, got "@);
    assert(t.subrange(10, t.len() - 7) =~= digits);
    assert(t.subrange(t.len() - 7, t.len() as int) =~= " bytes!"@);
}

/// A failed recording is reported as a warning whose text is
/// `Worker stopped: ` followed by the error's text.
pub proof fn lemma_report_states_error(e: String)
    ensures
        report_kind(Err(e)) == AlertType::Warning,
        ({
            let t = report_text(Err(e));
            &&& t.subrange(0, 16) == "Worker stopped: "@
            &&& t.subrange(16, t.len() as int) == e@
        }),
{
    reveal_strlit("Worker stopped: ");
    let t = report_text(Err(e));
    assert(t.subrange(0, 16) =~= "Worker stopped: "@);
    assert(t.subrange(16, t.len() as int) =~= e@);
}

/// Whether `c` is a lowercase hexadecimal digit.
pub open spec fn is_lower_hex_digit(c: char) -> bool {
    ('0' <= c && c <= '9') || ('a' <= c && c <= 'f')
}

/// The number that four hexadecimal digits starting at `i` in `t` denote.
pub open spec fn hex_field_value(t: Seq<char>, i: int) -> int {
    4096 * hex_digit_value(t[i]) + 256 * hex_digit_value(t[i + 1]) + 16 * hex_digit_value(t[i + 2])
        + hex_digit_value(t[i + 3])
}

/// When both ids are known, the label is `VID:PID = `, four lowercase hex
/// digits denoting the vendor id, `:`, and four denoting the product id.
pub proof fn lemma_device_label_names_ids(v: u16, p: u16)
    ensures
        ({
            let t = device_label(Some(v), Some(p));
            &&& t.len() == 19
            &&& t.subrange(0, 10) == "VID:PID = "@
            &&& t[14] == ':'
            &&& forall|i: int| 10 <= i < 19 && i != 14 ==> is_lower_hex_digit(#[trigger] t[i])
            &&& hex_field_value(t, 10) == v
            &&& hex_field_value(t, 15) == p
        }),
{
    reveal_strlit("VID:PID = ");
    reveal_strlit(":");
    lemma_hex4_denotes(v);
    lemma_hex4_denotes(p);
    let t = device_label(Some(v), Some(p));
    let hv = hex4(v as nat);
    let hp = hex4(p as nat);
    assert(t =~= "VID:PID = "@ + hv + seq![':'] + hp);
    assert(t.subrange(0, 10) =~= "VID:PID = "@);
    assert forall|i: int| 10 <= i < 19 && i != 14 implies is_lower_hex_digit(#[trigger] t[i]) by {
        if i < 14 {
            assert(t[i] == hv[i - 10]);
        } else {
            assert(t[i] == hp[i - 15]);
        }
    }
    assert(t[10] == hv[0] && t[11] == hv[1] && t[12] == hv[2] && t[13] == hv[3]);
    assert(t[15] == hp[0] && t[16] == hp[1] && t[17] == hp[2] && t[18] == hp[3]);
}

/// When either id is unknown, the label says so.
pub proof fn lemma_device_label_unknown(vid: Option<u16>, pid: Option<u16>)
    requires
        !(vid is Some && pid is Some),
    ensures
        device_label(vid, pid) == "VID:PID = (unknown)"@,
{
}

impl<F, P, H> App<F, P, H> {
    #[verifier::type_invariant]
    spec fn inv(self) -> bool {
        self@.wf()
    }

    /// No file, no port, no recording; all buttons enabled.
    pub fn new() -> (app: Self)
        ensures
            app@.file is None,
            app@.serial_port is None,
            app@.handle is None,
            !app@.setup_locked,
            app@.wf(),
    {
        App { file: None, serial_port: None, handle: None, setup_locked: false }
    }

    /// The chosen output file.
    pub fn file(&self) -> (f: Option<&F>)
        ensures
            match f {
                Some(f) => self@.file == Some(*f),
                None => self@.file is None,
            },
    {
        self.file.as_ref()
    }

    /// The chosen serial port.
    pub fn serial_port(&self) -> (p: Option<&P>)
        ensures
            match p {
                Some(p) => self@.serial_port == Some(*p),
                None => self@.serial_port is None,
            },
    {
        self.serial_port.as_ref()
    }

    /// Whether a recording is in progress.
    pub fn is_recording(&self) -> (b: bool)
        ensures
            b == self@.recording(),
            self@.wf(),
    {
        proof {
            use_type_invariant(self);
        }
        self.handle.is_some()
    }

    /// Whether the open-file, select-device and start buttons are disabled.
    pub fn setup_locked(&self) -> (b: bool)
        ensures
            b == self@.setup_locked,
            self@.wf(),
    {
        proof {
            use_type_invariant(self);
        }
        self.setup_locked
    }

    /// Decides what a click does.  While a recording is in progress only
    /// Stop has an effect; Start needs a file and then a port; Stop hands
    /// back the recording to stop, and leaves none in progress.
    pub fn handle_view_event(&mut self, event: Events) -> (cmd: Command<H>)
        ensures
            final(self)@.wf(),
            match event {
                Events::OpenFileClicked => {
                    &&& final(self)@ == old(self)@
                    &&& if old(self)@.recording() { cmd is Nothing } else { cmd is ChooseFile }
                },
                Events::SelectDeviceClicked => {
                    &&& final(self)@ == old(self)@
                    &&& if old(self)@.recording() { cmd is Nothing } else { cmd is ChooseDevice }
                },
                Events::StartClicked => {
                    &&& final(self)@ == old(self)@
                    &&& if old(self)@.recording() {
                        cmd is Nothing
                    } else if old(self)@.file is None {
                        cmd matches Command::Notify(a) && a.kind == AlertType::Warning
                            && a.message@ == MISSING_FILE_WARNING@
                    } else if old(self)@.serial_port is None {
                        cmd matches Command::Notify(a) && a.kind == AlertType::Warning
                            && a.message@ == MISSING_PORT_WARNING@
                    } else {
                        cmd is StartRecording
                    }
                },
                Events::StopClicked => match old(self)@.handle {
                    Some(h) => {
                        &&& cmd == Command::StopRecording(h)
                        &&& final(self)@ == (AppModel { handle: None, ..old(self)@ })
                    },
                    None => {
                        &&& cmd is Nothing
                        &&& final(self)@ == old(self)@
                    },
                },
            },
    {
        proof {
            use_type_invariant(&*self);
        }
        let recording = self.handle.is_some();
        match event {
            Events::OpenFileClicked => {
                if recording {
                    Command::Nothing
                } else {
                    Command::ChooseFile
                }
            },
            Events::SelectDeviceClicked => {
                if recording {
                    Command::Nothing
                } else {
                    Command::ChooseDevice
                }
            },
            Events::StartClicked => {
                if recording {
                    Command::Nothing
                } else if self.file.is_none() {
                    Command::Notify(Alert {
                        kind: AlertType::Warning,
                        message: String::from_str(MISSING_FILE_WARNING),
                    })
                } else if self.serial_port.is_none() {
                    Command::Notify(Alert {
                        kind: AlertType::Warning,
                        message: String::from_str(MISSING_PORT_WARNING),
                    })
                } else {
                    Command::StartRecording
                }
            },
            Events::StopClicked => {
                let mut current = App::new();
                std::mem::swap(self, &mut current);
                let App { file, serial_port, handle, setup_locked } = current;
                *self = App { file, serial_port, handle: None, setup_locked };
                match handle {
                    Some(h) => Command::StopRecording(h),
                    None => Command::Nothing,
                }
            },
        }
    }

    /// Keeps the file the user chose, in place of any earlier one.  The file
    /// is chosen only while no recording is in progress.
    pub fn file_chosen(&mut self, file: F)
        requires
            !old(self)@.recording(),
        ensures
            final(self)@ == (AppModel { file: Some(file), ..old(self)@ }),
            final(self)@.wf(),
    {
        proof {
            use_type_invariant(&*self);
        }
        self.file = Some(file);
    }

    /// Keeps the port the user chose, in place of any earlier one, and
    /// returns the text that names it by its USB vendor and product ids.  The
    /// port is chosen only while no recording is in progress.
    pub fn device_chosen(&mut self, port: P, vid: Option<u16>, pid: Option<u16>) -> (label: String)
        requires
            !old(self)@.recording(),
        ensures
            final(self)@ == (AppModel { serial_port: Some(port), ..old(self)@ }),
            final(self)@.wf(),
            label@ == device_label(vid, pid),
            (vid, pid) matches (Some(v), Some(p)) ==> label@ == "VID:PID = "@ + hex4(v as nat)
                + ":"@ + hex4(p as nat),
            !(vid is Some && pid is Some) ==> label@ == "VID:PID = (unknown)"@,
    {
        proof {
            use_type_invariant(&*self);
        }
        let label = match (vid, pid) {
            (Some(v), Some(p)) => {
                let mut label = String::from_str("VID:PID = ");
                push_hex4(&mut label, v);
                let ghost before = label@;
                push_char(&mut label, ':');
                proof {
                    reveal_strlit(":");
                    assert(label@ =~= before + ":"@);
                }
                push_hex4(&mut label, p);
                label
            },
            _ => String::from_str("VID:PID = (unknown)"),
        };
        self.serial_port = Some(port);
        label
    }

    /// A recording has started: it is now in progress and the setup buttons
    /// are disabled.  A recording starts only from the chosen file and port,
    /// and only when none is in progress.
    pub fn recording_started(&mut self, handle: H)
        requires
            !old(self)@.recording(),
            old(self)@.file is Some,
            old(self)@.serial_port is Some,
        ensures
            final(self)@ == (AppModel { handle: Some(handle), setup_locked: true, ..old(self)@ }),
            final(self)@.wf(),
    {
        self.setup_locked = true;
        self.handle = Some(handle);
    }

    /// The recording has ended: none is in progress and the setup buttons
    /// are enabled again.
    pub fn recording_finished(&mut self)
        ensures
            final(self)@ == (AppModel { handle: None, setup_locked: false, ..old(self)@ }),
            final(self)@.wf(),
    {
        self.handle = None;
        self.setup_locked = false;
    }
}

} // verus!
