use vstd::prelude::*;

verus! {

/// The command line of the host program: the path of its configuration file.
#[derive(Clone, Debug, PartialEq, Eq)]
pub struct AppCommand {
    pub config_file: String,
}

/// The static configuration of the host process: the port devices reach, the
/// chat credentials, the single permitted operator identity, an optional
/// logging directory, and the optional device allow-list.
#[derive(Clone, Debug, PartialEq, Eq)]
pub struct Config {
    pub port: u16,
    pub telegram_bot_token: String,
    pub telegram_user_id: i64,
    pub logging_dir: Option<String>,
    pub devices: Option<Vec<DeviceInfo>>,
}

/// A pre-declared device of the allow-list: its identifier and the display
/// name it gets when it first polls.
#[derive(Clone, Debug, PartialEq, Eq)]
pub struct DeviceInfo {
    pub id: String,
    pub name: String,
}

} // verus!
