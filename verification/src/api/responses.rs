//! The shapes of what the gateway answers.
use vstd::prelude::*;
use vstd::string::*;

verus! {

/// The answer to a login: the token of the new session.
#[derive(Clone, PartialEq, Eq, Debug)]
pub struct SessionResponse {
    pub token: String,
}

/// A device that is connected to the gateway.
#[derive(Clone, PartialEq, Eq, Debug)]
pub struct ConnectedDevice {
    pub hostname: String,
    pub id: String,
    pub ip: String,
    pub mac: String,
}

/// The mathematical value of a [`ConnectedDevice`].
pub ghost struct ConnectedDeviceView {
    pub hostname: Seq<char>,
    pub id: Seq<char>,
    pub ip: Seq<char>,
    pub mac: Seq<char>,
}

impl View for ConnectedDevice {
    type V = ConnectedDeviceView;

    open spec fn view(&self) -> ConnectedDeviceView {
        ConnectedDeviceView {
            hostname: self.hostname@,
            id: self.id@,
            ip: self.ip@,
            mac: self.mac@,
        }
    }
}

/// The host name under which a device is shown: its own, or `UNKNOWN` when
/// it has none.
pub open spec fn shown_hostname(hostname: Seq<char>) -> Seq<char> {
    if hostname.len() == 0 {
        "UNKNOWN"@
    } else {
        hostname
    }
}

/// The card that shows a device: six lines, the inner ones indented by
/// twelve spaces.
pub open spec fn device_text(device: ConnectedDeviceView) -> Seq<char> {
    "<===\n            <hostname> "@ + shown_hostname(device.hostname) + "\n            [id] "@
        + device.id + "\n            [ip] "@ + device.ip + "\n            [mac] "@ + device.mac
        + "\n            ===>"@
}

impl ConnectedDevice {
    /// The card that shows this device.
    pub fn to_string(&self) -> (text: String)
        ensures
            text@ == device_text(self@),
    {
        let mut text = String::from_str("<===\n            <hostname> ");
        if self.hostname.as_str().is_empty() {
            text.append("UNKNOWN");
        } else {
            text.append(self.hostname.as_str());
        }
        text.append("\n            [id] ");
        text.append(self.id.as_str());
        text.append("\n            [ip] ");
        text.append(self.ip.as_str());
        text.append("\n            [mac] ");
        text.append(self.mac.as_str());
        text.append("\n            ===>");
        text
    }
}

} // verus!
