//! Connection settings and the rule for which of them can be saved.
use vstd::prelude::*;

verus! {

/// Where the device is and how often to read it.
#[derive(Debug, Clone)]
pub struct Settings {
    pub host: String,
    pub port: u16,
    pub unit_id: u8,
    pub refresh_seconds: u64,
    pub demo_mode: bool,
}

/// Why settings cannot be saved.
#[derive(Debug, Clone, Copy, PartialEq, Eq)]
pub enum SettingsError {
    /// The port, the unit id or the refresh interval lies outside its range.
    InvalidValues,
}

/// Settings that can be saved: a port other than 0, a unit id in 1..=247
/// and a refresh interval of 2 to 60 seconds.
pub open spec fn settings_acceptable(port: u16, unit_id: u8, refresh_seconds: u64) -> bool {
    &&& port != 0
    &&& 1 <= unit_id <= 247
    &&& 2 <= refresh_seconds <= 60
}

impl Default for Settings {
    /// Demo mode, refreshing every 5 seconds, with the usual Modbus TCP port
    /// and unit id and a typical home-network address; these settings can be
    /// saved as they are.
    fn default() -> (res: Self)
        ensures
            res.host@ == "192.168.178.100"@,
            res.port == 502,
            res.unit_id == 1,
            res.refresh_seconds == 5,
            res.demo_mode,
            settings_acceptable(res.port, res.unit_id, res.refresh_seconds),
    {
        Settings {
            host: "192.168.178.100".to_owned(),
            port: 502,
            unit_id: 1,
            refresh_seconds: 5,
            demo_mode: true,
        }
    }
}

/// Checks settings before they are saved.
pub fn validate_settings(settings: &Settings) -> (res: Result<(), SettingsError>)
    ensures
        res is Ok <==> settings_acceptable(
            settings.port,
            settings.unit_id,
            settings.refresh_seconds,
        ),
        res is Err ==> res == Err::<(), SettingsError>(SettingsError::InvalidValues),
        res is Ok <==> (settings.port != 0 && 1 <= settings.unit_id <= 247 && 2
            <= settings.refresh_seconds <= 60),
        res is Ok ==> 2 <= settings.refresh_seconds <= 60,
        res is Ok ==> settings.port != 0,
        res is Ok ==> 1 <= settings.unit_id <= 247,
{
    if settings.port == 0 || settings.unit_id == 0 || settings.unit_id > 247
        || settings.refresh_seconds < 2 || settings.refresh_seconds > 60 {
        Err(SettingsError::InvalidValues)
    } else {
        Ok(())
    }
}

/// Settings can be saved exactly when the port is not 0, the unit id lies
/// in 1..=247 and the refresh interval in 2..=60 seconds: a refresh interval
/// of 0 or 1 s, or above a minute, a unit id of 0 or above 247, and port 0
/// are each refused whatever the other values.
pub proof fn lemma_settings_bounds(port: u16, unit_id: u8, refresh_seconds: u64)
    ensures
        settings_acceptable(port, unit_id, refresh_seconds) <==> (port != 0 && 1 <= unit_id <= 247
            && 2 <= refresh_seconds <= 60),
        refresh_seconds < 2 ==> !settings_acceptable(port, unit_id, refresh_seconds),
        refresh_seconds > 60 ==> !settings_acceptable(port, unit_id, refresh_seconds),
        (unit_id == 0 || unit_id > 247) ==> !settings_acceptable(port, unit_id, refresh_seconds),
        port == 0 ==> !settings_acceptable(port, unit_id, refresh_seconds),
{
}

} // verus!
