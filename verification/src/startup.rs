//! The decisions taken when the page loads: locating its elements and
//! checking that the browser offers the APIs the tool needs.

use vstd::prelude::*;
use crate::view::{Alert, AlertType};

verus! {

/// The error shown when the browser lacks the Web Serial API.
pub const SERIAL_UNSUPPORTED: &'static str = "The browser does not support the Web Serial API!";

/// The error shown when the browser lacks the File System Access API.
pub const FILE_ACCESS_UNSUPPORTED: &'static str =
    "The browser does not support the File System Access API!";

/// The error for a page element that `selectors` does not find.
pub fn missing_element_message(selectors: &str) -> (message: String)
    ensures
        message@ == "could not locate '"@ + selectors@ + "'"@,
{
    let mut message = String::from_str("could not locate '");
    message.append(selectors);
    message.append("'");
    message
}

/// The texts of the startup errors for the APIs that the browser lacks.
pub open spec fn startup_texts(serial_supported: bool, file_access_supported: bool) -> Seq<Seq<char>> {
    (if serial_supported { Seq::empty() } else { seq![SERIAL_UNSUPPORTED@] })
        + (if file_access_supported { Seq::empty() } else { seq![FILE_ACCESS_UNSUPPORTED@] })
}

/// The errors to show at startup: one for each missing API, serial first.
pub fn startup_alerts(serial_supported: bool, file_access_supported: bool) -> (alerts: Vec<Alert>)
    ensures
        alerts@.len() == startup_texts(serial_supported, file_access_supported).len(),
        forall|i: int|
            0 <= i < alerts@.len() ==> {
                &&& #[trigger] alerts@[i].kind == AlertType::Error
                &&& alerts@[i].message@ == startup_texts(serial_supported, file_access_supported)[i]
            },
        alerts@.len() == 0 <==> serial_supported && file_access_supported,
{
    let mut alerts: Vec<Alert> = Vec::new();
    if !serial_supported {
        alerts.push(Alert { kind: AlertType::Error, message: String::from_str(SERIAL_UNSUPPORTED) });
    }
    if !file_access_supported {
        alerts.push(
            Alert { kind: AlertType::Error, message: String::from_str(FILE_ACCESS_UNSUPPORTED) },
        );
    }
    alerts
}

/// Whether the page must be locked at startup: every button disabled and
/// the controller never started.  That is so exactly when an API is missing,
/// that is, exactly when `startup_alerts` reports an error.
pub fn startup_locks_all(serial_supported: bool, file_access_supported: bool) -> (locked: bool)
    ensures
        locked == !(serial_supported && file_access_supported),
        locked == (startup_texts(serial_supported, file_access_supported).len() > 0),
{
    !(serial_supported && file_access_supported)
}

} // verus!
