//! Live values of a Solarbank 4 E5000 Pro, taken from its register blocks,
//! and the values that demo mode shows.
//!
//! Power is in watts. Positive battery power means discharging, positive
//! grid power means drawing from the grid. Energy totals are in tenths of a
//! kilowatt-hour, as the device stores them.
use vstd::prelude::*;
use crate::registers::{register, int32, uint32, spec_register, spec_int32, spec_uint32};
use crate::text::{decode_string, decoded_text, trim_text, trimmed};

verus! {

/// First address of the block that holds every core live value.
pub const LIVE_START: u16 = 10000;
/// Number of registers in the live block.
pub const LIVE_COUNT: u16 = 51;
/// First address of the block with the energy totals.
pub const TOTALS_START: u16 = 10208;
/// Number of registers in the totals block.
pub const TOTALS_COUNT: u16 = 58;
/// First address of the device information block.
pub const INFO_START: u16 = 10090;
/// Number of registers in the information block.
pub const INFO_COUNT: u16 = 67;
/// First address of the model name.
pub const MODEL_START: u16 = 32768;
/// Number of registers of the model name.
pub const MODEL_COUNT: u16 = 5;
/// First address of the control (holding) registers.
pub const CONTROLS_START: u16 = 10060;
/// Number of control registers read.
pub const CONTROLS_COUNT: u16 = 13;

/// Battery state register.
pub const REG_BATTERY_STATE: u16 = 10001;
/// Photovoltaic power of the directly connected inputs.
pub const REG_PV_DIRECT: u16 = 10002;
/// Photovoltaic power of third-party inverters.
pub const REG_PV_THIRD_PARTY: u16 = 10004;
/// Battery power.
pub const REG_BATTERY_POWER: u16 = 10008;
/// House load.
pub const REG_LOAD_POWER: u16 = 10010;
/// Grid power.
pub const REG_GRID_POWER: u16 = 10012;
/// Battery state of charge in percent.
pub const REG_BATTERY_SOC: u16 = 10014;
/// Photovoltaic energy produced.
pub const REG_PV_TOTAL: u16 = 10018;
/// Maximum charging power.
pub const REG_MAX_CHARGE: u16 = 10036;
/// Maximum discharging power.
pub const REG_MAX_DISCHARGE: u16 = 10038;
/// Operating mode.
pub const REG_OPERATING_MODE: u16 = 10064;
/// AC output power.
pub const REG_AC_OUTPUT: u16 = 10208;
/// Rated battery energy.
pub const REG_RATED_ENERGY: u16 = 10250;
/// Energy charged.
pub const REG_CHARGE_TOTAL: u16 = 10262;
/// Energy discharged.
pub const REG_DISCHARGE_TOTAL: u16 = 10264;

/// Where the battery stands.
#[derive(Debug, Clone, Copy, PartialEq, Eq)]
pub enum BatteryStatus {
    Charging,
    Discharging,
    Sleeping,
    Ready,
}

/// How the device runs.
#[derive(Debug, Clone, Copy, PartialEq, Eq)]
pub enum OperatingMode {
    SelfConsumption,
    TimeOfUse,
    ThirdPartyControl,
    Custom,
    SocketOverlay,
    Smart,
    DynamicTariff,
    Unknown,
}

/// One reading of the device.
#[derive(Debug, Clone)]
pub struct Snapshot {
    pub timestamp_ms: u64,
    pub device_model: String,
    pub firmware: String,
    pub connected: bool,
    pub pv_w: i32,
    pub load_w: i32,
    pub battery_w: i32,
    pub grid_w: i32,
    pub ac_output_w: i32,
    pub battery_soc: u16,
    pub battery_status: BatteryStatus,
    pub operating_mode: OperatingMode,
    pub pv_total_tenth_kwh: u32,
    pub charge_total_tenth_kwh: u32,
    pub discharge_total_tenth_kwh: u32,
    pub rated_energy_tenth_kwh: u32,
    pub max_charge_w: i32,
    pub max_discharge_w: i32,
}

/// Why no live reading could be made.
#[derive(Debug, Clone, Copy, PartialEq, Eq)]
pub enum SnapshotError {
    /// No device address is set.
    MissingHost,
    /// The device reported a state of charge above 100 %.
    InvalidSoc(u16),
}

/// The battery status that a value of the battery state register stands for.
pub open spec fn status_from_code(code: u16) -> BatteryStatus {
    if code == 1 {
        BatteryStatus::Charging
    } else if code == 2 {
        BatteryStatus::Discharging
    } else if code == 3 {
        BatteryStatus::Sleeping
    } else {
        BatteryStatus::Ready
    }
}

/// The operating mode that the mode register stands for, if it was read.
pub open spec fn mode_from_register(value: Option<u16>) -> OperatingMode {
    match value {
        Some(0) => OperatingMode::SelfConsumption,
        Some(1) => OperatingMode::TimeOfUse,
        Some(3) => OperatingMode::ThirdPartyControl,
        Some(4) => OperatingMode::Custom,
        Some(5) => OperatingMode::SocketOverlay,
        Some(6) => OperatingMode::Smart,
        Some(7) => OperatingMode::DynamicTariff,
        _ => OperatingMode::Unknown,
    }
}

impl BatteryStatus {
    /// The status for a value of the battery state register.
    pub fn from_code(code: u16) -> (res: Self)
        ensures
            res == status_from_code(code),
            code == 1 ==> res == BatteryStatus::Charging,
            code == 2 ==> res == BatteryStatus::Discharging,
            code == 3 ==> res == BatteryStatus::Sleeping,
            (code == 0 || code > 3) ==> res == BatteryStatus::Ready,
    {
        if code == 1 {
            BatteryStatus::Charging
        } else if code == 2 {
            BatteryStatus::Discharging
        } else if code == 3 {
            BatteryStatus::Sleeping
        } else {
            BatteryStatus::Ready
        }
    }

    /// The text shown for the status.
    pub fn label(&self) -> (res: &'static str)
        ensures
            *self == BatteryStatus::Charging ==> res@ == "Lädt"@,
            *self == BatteryStatus::Discharging ==> res@ == "Entlädt"@,
            *self == BatteryStatus::Sleeping ==> res@ == "Schlafmodus"@,
            *self == BatteryStatus::Ready ==> res@ == "Bereit"@,
    {
        match self {
            BatteryStatus::Charging => "Lädt",
            BatteryStatus::Discharging => "Entlädt",
            BatteryStatus::Sleeping => "Schlafmodus",
            BatteryStatus::Ready => "Bereit",
        }
    }
}

impl OperatingMode {
    /// The mode for the mode register, if it was read.
    pub fn from_register(value: Option<u16>) -> (res: Self)
        ensures
            res == mode_from_register(value),
            value == Some(0u16) ==> res == OperatingMode::SelfConsumption,
            value == Some(1u16) ==> res == OperatingMode::TimeOfUse,
            value == Some(3u16) ==> res == OperatingMode::ThirdPartyControl,
            value == Some(4u16) ==> res == OperatingMode::Custom,
            value == Some(5u16) ==> res == OperatingMode::SocketOverlay,
            value == Some(6u16) ==> res == OperatingMode::Smart,
            value == Some(7u16) ==> res == OperatingMode::DynamicTariff,
            (value is None || value == Some(2u16) || value->0 > 7) ==> res == OperatingMode::Unknown,
    {
        match value {
            Some(0) => OperatingMode::SelfConsumption,
            Some(1) => OperatingMode::TimeOfUse,
            Some(3) => OperatingMode::ThirdPartyControl,
            Some(4) => OperatingMode::Custom,
            Some(5) => OperatingMode::SocketOverlay,
            Some(6) => OperatingMode::Smart,
            Some(7) => OperatingMode::DynamicTariff,
            _ => OperatingMode::Unknown,
        }
    }

    /// The text shown for the mode.
    pub fn label(&self) -> (res: &'static str)
        ensures
            *self == OperatingMode::SelfConsumption ==> res@ == "Eigenverbrauch"@,
            *self == OperatingMode::TimeOfUse ==> res@ == "Zeitplan (TOU)"@,
            *self == OperatingMode::ThirdPartyControl ==> res@ == "Drittanbieter-Steuerung"@,
            *self == OperatingMode::Custom ==> res@ == "Benutzerdefiniert"@,
            *self == OperatingMode::SocketOverlay ==> res@ == "Steckdosen-Overlay"@,
            *self == OperatingMode::Smart ==> res@ == "Smart-Modus"@,
            *self == OperatingMode::DynamicTariff ==> res@ == "Dynamischer Tarif"@,
            *self == OperatingMode::Unknown ==> res@ == "Unbekannt"@,
    {
        match self {
            OperatingMode::SelfConsumption => "Eigenverbrauch",
            OperatingMode::TimeOfUse => "Zeitplan (TOU)",
            OperatingMode::ThirdPartyControl => "Drittanbieter-Steuerung",
            OperatingMode::Custom => "Benutzerdefiniert",
            OperatingMode::SocketOverlay => "Steckdosen-Overlay",
            OperatingMode::Smart => "Smart-Modus",
            OperatingMode::DynamicTariff => "Dynamischer Tarif",
            OperatingMode::Unknown => "Unbekannt",
        }
    }
}

/// `v` held to the range of `i32`.
pub open spec fn clamp_i32(v: int) -> i32 {
    if v > i32::MAX {
        i32::MAX
    } else if v < i32::MIN {
        i32::MIN
    } else {
        v as i32
    }
}

/// Adds two powers, stopping at the bounds of `i32` instead of overflowing.
pub fn saturating_add_i32(a: i32, b: i32) -> (res: i32)
    ensures
        res == clamp_i32(a + b),
{
    let sum: i64 = a as i64 + b as i64;
    if sum > i32::MAX as i64 {
        i32::MAX
    } else if sum < i32::MIN as i64 {
        i32::MIN
    } else {
        sum as i32
    }
}

/// A signed 32-bit reading, 0 where the block does not hold it.
pub open spec fn reading_i32(block: Seq<u16>, start: u16, address: u16) -> i32 {
    match spec_int32(block, start, address) {
        Some(v) => v,
        None => 0,
    }
}

/// An unsigned 32-bit reading, 0 where the block does not hold it.
pub open spec fn reading_u32(block: Seq<u16>, start: u16, address: u16) -> u32 {
    match spec_uint32(block, start, address) {
        Some(v) => v,
        None => 0,
    }
}

/// A single register, 0 where the block does not hold it.
pub open spec fn reading_u16(block: Seq<u16>, start: u16, address: u16) -> u16 {
    match spec_register(block, start, address) {
        Some(v) => v,
        None => 0,
    }
}

/// The firmware version: the text of registers 22 to 27 of the information
/// block, or "–" where the block is shorter or the text is empty.
pub open spec fn firmware_text(info: Seq<u16>) -> Seq<char> {
    if info.len() >= 28 && decoded_text(info.subrange(22, 28)).len() > 0 {
        decoded_text(info.subrange(22, 28))
    } else {
        "–"@
    }
}

/// The model name: the text of the model registers, or the model this
/// library is made for where they hold none.
pub open spec fn model_text(model_regs: Seq<u16>) -> Seq<char> {
    if decoded_text(model_regs).len() > 0 {
        decoded_text(model_regs)
    } else {
        "Solarbank 4 E5000 Pro"@
    }
}

/// A live reading needs a device address that is more than white space.
pub fn check_host(host: &str) -> (res: Result<(), SnapshotError>)
    ensures
        trimmed(host@).len() == 0 ==> res == Err::<(), SnapshotError>(SnapshotError::MissingHost),
        trimmed(host@).len() > 0 ==> res is Ok,
{
    if trim_text(host).is_empty() {
        Err(SnapshotError::MissingHost)
    } else {
        Ok(())
    }
}

/// Builds the live reading from the register blocks that were read; a block
/// whose read failed is passed empty. Values that a block does not hold read
/// as 0. A state of charge above 100 % is refused.
pub fn build_live_snapshot(
    live: &[u16],
    totals: &[u16],
    info: &[u16],
    model_regs: &[u16],
    controls: &[u16],
    timestamp_ms: u64,
) -> (res: Result<Snapshot, SnapshotError>)
    ensures
        reading_u16(live@, LIVE_START, REG_BATTERY_SOC) > 100 ==> res == Err::<
            Snapshot,
            SnapshotError,
        >(SnapshotError::InvalidSoc(reading_u16(live@, LIVE_START, REG_BATTERY_SOC))),
        reading_u16(live@, LIVE_START, REG_BATTERY_SOC) <= 100 ==> res is Ok,
        res matches Ok(s) ==> s.battery_soc <= 100,
        res matches Ok(s) ==> {
            &&& s.timestamp_ms == timestamp_ms
            &&& s.device_model@ == model_text(model_regs@)
            &&& s.firmware@ == firmware_text(info@)
            &&& s.connected
            &&& s.pv_w == clamp_i32(
                reading_i32(live@, LIVE_START, REG_PV_DIRECT) + reading_i32(
                    live@,
                    LIVE_START,
                    REG_PV_THIRD_PARTY,
                ),
            )
            &&& s.load_w == reading_i32(live@, LIVE_START, REG_LOAD_POWER)
            &&& s.battery_w == reading_i32(live@, LIVE_START, REG_BATTERY_POWER)
            &&& s.grid_w == reading_i32(live@, LIVE_START, REG_GRID_POWER)
            &&& s.ac_output_w == reading_i32(totals@, TOTALS_START, REG_AC_OUTPUT)
            &&& s.battery_soc == reading_u16(live@, LIVE_START, REG_BATTERY_SOC)
            &&& s.battery_status == status_from_code(
                reading_u16(live@, LIVE_START, REG_BATTERY_STATE),
            )
            &&& s.operating_mode == mode_from_register(
                spec_register(controls@, CONTROLS_START, REG_OPERATING_MODE),
            )
            &&& s.pv_total_tenth_kwh == reading_u32(live@, LIVE_START, REG_PV_TOTAL)
            &&& s.charge_total_tenth_kwh == reading_u32(totals@, TOTALS_START, REG_CHARGE_TOTAL)
            &&& s.discharge_total_tenth_kwh == reading_u32(
                totals@,
                TOTALS_START,
                REG_DISCHARGE_TOTAL,
            )
            &&& s.rated_energy_tenth_kwh == reading_u32(totals@, TOTALS_START, REG_RATED_ENERGY)
            &&& s.max_charge_w == reading_i32(live@, LIVE_START, REG_MAX_CHARGE)
            &&& s.max_discharge_w == reading_i32(live@, LIVE_START, REG_MAX_DISCHARGE)
        },
{
    let direct_pv = int32(live, LIVE_START, REG_PV_DIRECT).unwrap_or(0);
    let third_party_pv = int32(live, LIVE_START, REG_PV_THIRD_PARTY).unwrap_or(0);
    let battery_w = int32(live, LIVE_START, REG_BATTERY_POWER).unwrap_or(0);
    let soc = register(live, LIVE_START, REG_BATTERY_SOC).unwrap_or(0);
    if soc > 100 {
        return Err(SnapshotError::InvalidSoc(soc));
    }
    let battery_status = BatteryStatus::from_code(
        register(live, LIVE_START, REG_BATTERY_STATE).unwrap_or(0),
    );
    let operating_mode = OperatingMode::from_register(
        register(controls, CONTROLS_START, REG_OPERATING_MODE),
    );

    let model_raw = decode_string(model_regs);
    let device_model = if model_raw.as_str().is_empty() {
        "Solarbank 4 E5000 Pro".to_owned()
    } else {
        model_raw
    };

    let mut firmware = "–".to_owned();
    if info.len() >= 28 {
        let version = decode_string(&info[22..28]);
        if !version.as_str().is_empty() {
            firmware = version;
        }
    }

    Ok(
        Snapshot {
            timestamp_ms,
            device_model,
            firmware,
            connected: true,
            pv_w: saturating_add_i32(direct_pv, third_party_pv),
            load_w: int32(live, LIVE_START, REG_LOAD_POWER).unwrap_or(0),
            battery_w,
            grid_w: int32(live, LIVE_START, REG_GRID_POWER).unwrap_or(0),
            ac_output_w: int32(totals, TOTALS_START, REG_AC_OUTPUT).unwrap_or(0),
            battery_soc: soc,
            battery_status,
            operating_mode,
            pv_total_tenth_kwh: uint32(live, LIVE_START, REG_PV_TOTAL).unwrap_or(0),
            charge_total_tenth_kwh: uint32(totals, TOTALS_START, REG_CHARGE_TOTAL).unwrap_or(0),
            discharge_total_tenth_kwh: uint32(totals, TOTALS_START, REG_DISCHARGE_TOTAL).unwrap_or(
                0,
            ),
            rated_energy_tenth_kwh: uint32(totals, TOTALS_START, REG_RATED_ENERGY).unwrap_or(0),
            max_charge_w: int32(live, LIVE_START, REG_MAX_CHARGE).unwrap_or(0),
            max_discharge_w: int32(live, LIVE_START, REG_MAX_DISCHARGE).unwrap_or(0),
        },
    )
}

/// The battery power that demo mode shows: the surplus of photovoltaic
/// power over the load, less 18 W, held to ±800 W.
pub open spec fn demo_battery(pv_w: int, load_w: int) -> int {
    let raw = pv_w - load_w - 18;
    if raw > 800 {
        800
    } else if raw < -800 {
        -800
    } else {
        raw
    }
}

/// The status that demo mode shows for a battery power: discharging above
/// 10 W, charging below -10 W, ready in between.
pub open spec fn demo_status(battery_w: int) -> BatteryStatus {
    if battery_w > 10 {
        BatteryStatus::Discharging
    } else if battery_w < -10 {
        BatteryStatus::Charging
    } else {
        BatteryStatus::Ready
    }
}

/// The demo reading for the given photovoltaic power, load and state of
/// charge: the battery takes up the surplus (see `demo_battery`), the grid
/// covers the rest, and the fixed totals of a 5 kWh device are shown.
pub fn demo_snapshot_from_flows(timestamp_ms: u64, pv_w: i32, load_w: i32, soc: u16) -> (res:
    Snapshot)
    requires
        i32::MIN <= pv_w - load_w - 18 <= i32::MAX,
        i32::MIN <= load_w - pv_w - demo_battery(pv_w as int, load_w as int) <= i32::MAX,
        i32::MIN <= pv_w - demo_battery(pv_w as int, load_w as int) <= i32::MAX,
    ensures
        res.timestamp_ms == timestamp_ms,
        res.device_model@ == "Solarbank 4 E5000 Pro"@,
        res.firmware@ == "Demo 1.0.0"@,
        res.connected,
        res.pv_w == pv_w,
        res.load_w == load_w,
        res.battery_w == demo_battery(pv_w as int, load_w as int),
        res.grid_w == load_w - pv_w - res.battery_w,
        res.ac_output_w == (if pv_w - res.battery_w > 0 {
            pv_w - res.battery_w
        } else {
            0
        }),
        res.battery_soc == (if soc < 100 {
            soc
        } else {
            100
        }),
        res.battery_soc <= 100,
        res.battery_status == demo_status(res.battery_w as int),
        res.operating_mode == OperatingMode::SelfConsumption,
        res.pv_total_tenth_kwh == 4268,
        res.charge_total_tenth_kwh == 3184,
        res.discharge_total_tenth_kwh == 2861,
        res.rated_energy_tenth_kwh == 50,
        res.max_charge_w == 2400,
        res.max_discharge_w == 2400,
{
    let surplus: i32 = pv_w - load_w - 18;
    let battery: i32 = if surplus > 800 {
        800
    } else if surplus < -800 {
        -800
    } else {
        surplus
    };
    let grid: i32 = load_w - pv_w - battery;
    let output: i32 = pv_w - battery;
    let battery_status = if battery > 10 {
        BatteryStatus::Discharging
    } else if battery < -10 {
        BatteryStatus::Charging
    } else {
        BatteryStatus::Ready
    };
    Snapshot {
        timestamp_ms,
        device_model: "Solarbank 4 E5000 Pro".to_owned(),
        firmware: "Demo 1.0.0".to_owned(),
        connected: true,
        pv_w,
        load_w,
        battery_w: battery,
        grid_w: grid,
        ac_output_w: if output > 0 {
            output
        } else {
            0
        },
        battery_soc: if soc < 100 {
            soc
        } else {
            100
        },
        battery_status,
        operating_mode: OperatingMode::SelfConsumption,
        pv_total_tenth_kwh: 4268,
        charge_total_tenth_kwh: 3184,
        discharge_total_tenth_kwh: 2861,
        rated_energy_tenth_kwh: 50,
        max_charge_w: 2400,
        max_discharge_w: 2400,
    }
}

/// The operating-mode register is read by this table: 0 self-consumption,
/// 1 time of use, 3 third-party control, 4 custom, 5 socket overlay, 6 smart,
/// 7 dynamic tariff; 2, any value above 7, and a register that could not be
/// read mean the mode is unknown. Distinct known values give distinct modes.
pub proof fn lemma_operating_mode_table(v: u16)
    ensures
        mode_from_register(Some(0u16)) == OperatingMode::SelfConsumption,
        mode_from_register(Some(1u16)) == OperatingMode::TimeOfUse,
        mode_from_register(Some(3u16)) == OperatingMode::ThirdPartyControl,
        mode_from_register(Some(4u16)) == OperatingMode::Custom,
        mode_from_register(Some(5u16)) == OperatingMode::SocketOverlay,
        mode_from_register(Some(6u16)) == OperatingMode::Smart,
        mode_from_register(Some(7u16)) == OperatingMode::DynamicTariff,
        mode_from_register(None) == OperatingMode::Unknown,
        (v == 2 || v > 7) ==> mode_from_register(Some(v)) == OperatingMode::Unknown,
        (v != 2 && v <= 7) ==> mode_from_register(Some(v)) != OperatingMode::Unknown,
        forall|a: u16, b: u16|
            a != b && mode_from_register(Some(a)) != OperatingMode::Unknown ==> #[trigger] mode_from_register(Some(a)) != #[trigger] mode_from_register(Some(b)),
{
}

/// The battery state register is read by this table: 1 charging,
/// 2 discharging, 3 sleeping, anything else ready.
pub proof fn lemma_battery_status_table(code: u16)
    ensures
        status_from_code(1) == BatteryStatus::Charging,
        status_from_code(2) == BatteryStatus::Discharging,
        status_from_code(3) == BatteryStatus::Sleeping,
        (code == 0 || code > 3) ==> status_from_code(code) == BatteryStatus::Ready,
{
}

/// Power balances in demo mode: photovoltaic power, battery discharge and
/// grid draw add up to the load; the battery stays within ±800 W; the status
/// follows the sign of the battery power.
pub proof fn lemma_demo_power_balance(pv_w: int, load_w: int)
    ensures
        pv_w + demo_battery(pv_w, load_w) + (load_w - pv_w - demo_battery(pv_w, load_w))
            == load_w,
        -800 <= demo_battery(pv_w, load_w) <= 800,
        demo_status(demo_battery(pv_w, load_w)) == BatteryStatus::Discharging ==> demo_battery(
            pv_w,
            load_w,
        ) > 0,
        demo_status(demo_battery(pv_w, load_w)) == BatteryStatus::Charging ==> demo_battery(
            pv_w,
            load_w,
        ) < 0,
{
}

} // verus!
