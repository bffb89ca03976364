//! Data types and result shaping for desktop notifications.
//!
//! Delivering a notification is the host toolkit's business; this module
//! holds the request and outcome records the command layer exchanges with
//! it.

use vstd::prelude::*;

verus! {

/// A notification request: what to show and how.
#[derive(Debug, Clone)]
pub struct NotificationConfig {
    pub title: String,
    pub body: String,
    pub icon: Option<String>,
    pub sound: Option<String>,
    pub duration: Option<i32>,
}

/// The outcome reported back for one notification request.
#[derive(Debug, Clone)]
pub struct NotificationResult {
    pub success: bool,
    pub message: String,
}

impl NotificationResult {
    /// The outcome for a notification that was delivered.
    pub fn sent() -> (r: Self)
        ensures
            r.success == true,
            r.message@ == "Notification sent successfully"@,
    {
        NotificationResult { success: true, message: "Notification sent successfully".to_owned() }
    }

    /// The outcome for a notification the toolkit could not deliver, with
    /// the toolkit's reason appended.
    pub fn failed(reason: &str) -> (r: Self)
        ensures
            r.success == false,
            r.message@ == "Failed to send notification: "@ + reason@,
    {
        let mut message = "Failed to send notification: ".to_owned();
        message.append(reason);
        NotificationResult { success: false, message }
    }
}

} // verus!
