//! What identifies a display: the driver that reaches it, and what the
//! display says of itself.

use vstd::prelude::*;
use crate::feature::Database;
use crate::value::Version;

verus! {

/// The driver through which a display is reached.
#[derive(Clone, Copy, Debug, PartialEq, Eq, Structural)]
pub enum Backend {
    /// The i2c-dev driver of Linux.
    I2cDevice,
    /// The monitor configuration interface of Windows.
    WinApi,
    /// The driver of NVIDIA.
    Nvapi,
    /// The interfaces of macOS.
    MacOS,
}

impl Backend {
    /// The name of the driver, as it is written on the command line and in
    /// the reports.
    pub open spec fn text(self) -> Seq<char> {
        match self {
            Backend::I2cDevice => "i2c-dev"@,
            Backend::WinApi => "winapi"@,
            Backend::Nvapi => "nvapi"@,
            Backend::MacOS => "macos"@,
        }
    }

    /// The name of the driver.
    pub fn name(&self) -> (name: &'static str)
        ensures
            name@ == self.text(),
    {
        match self {
            Backend::I2cDevice => "i2c-dev",
            Backend::WinApi => "winapi",
            Backend::Nvapi => "nvapi",
            Backend::MacOS => "macos",
        }
    }

    /// The driver of the given name, if there is one.
    pub fn from_name(name: &str) -> (backend: Option<Backend>)
        ensures
            match backend {
                Some(backend) => backend.text() == name@,
                None => forall|other: Backend| other.text() != name@,
            },
    {
        let given = String::from_str(name);
        if given == String::from_str("i2c-dev") {
            Some(Backend::I2cDevice)
        } else if given == String::from_str("winapi") {
            Some(Backend::WinApi)
        } else if given == String::from_str("nvapi") {
            Some(Backend::Nvapi)
        } else if given == String::from_str("macos") {
            Some(Backend::MacOS)
        } else {
            None
        }
    }
}

/// What is known of one display at one moment.
#[derive(Clone, Debug, PartialEq, Eq)]
pub struct DisplayInfo {
    /// The driver through which the display is reached.
    pub backend: Backend,
    /// What identifies the display to its driver.
    pub id: String,
    /// The three letters that name the manufacturer.
    pub manufacturer_id: Option<String>,
    /// The name of the model.
    pub model_name: Option<String>,
    /// The serial number, as text.
    pub serial_number: Option<String>,
    /// The version of the control-command standard that the display follows.
    pub mccs_version: Option<Version>,
    /// The descriptors of the display's controls, once they are known.
    pub mccs_database: Option<Database>,
}

impl DisplayInfo {
    /// The two lines that open every report on a display: the driver, then
    /// the display's identifier.
    pub open spec fn header(self) -> Seq<Seq<char>> {
        seq![
            "Display on "@ + self.backend.text() + ":"@,
            "\tID: "@ + self.id@,
        ]
    }
}

} // verus!
