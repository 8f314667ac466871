use solix_monitor::snapshot::{
    build_live_snapshot, check_host, demo_snapshot_from_flows, saturating_add_i32, BatteryStatus,
    OperatingMode, SnapshotError,
};

fn live_block() -> Vec<u16> {
    let mut live = vec![0u16; 51];
    live[1] = 1; // charging
    live[2] = 0; live[3] = 500; // direct pv
    live[4] = 0; live[5] = 120; // third-party pv
    live[8] = 0xFFFF; live[9] = 0xFE0C; // battery -500
    live[10] = 0; live[11] = 400; // load
    live[12] = 0xFFFF; live[13] = 0xFF38; // grid -200
    live[14] = 57; // soc
    live[18] = 0; live[19] = 4268; // pv total
    live[36] = 0; live[37] = 2400;
    live[38] = 0; live[39] = 2300;
    live
}

fn totals_block() -> Vec<u16> {
    let mut totals = vec![0u16; 58];
    totals[0] = 0; totals[1] = 310; // ac output
    totals[42] = 0; totals[43] = 50; // rated energy
    totals[54] = 0; totals[55] = 3184; // charged
    totals[56] = 0; totals[57] = 2861; // discharged
    totals
}

#[test]
fn live_snapshot_from_blocks() {
    let mut info = vec![0u16; 67];
    info[22] = 0x7631; info[23] = 0x2E35; info[24] = 0x2E30; // "v1.5.0"
    let model = vec![0x4135, 0x3030, 0x3000, 0, 0]; // "A5000"
    let mut controls = vec![0u16; 13];
    controls[4] = 6;
    let s = build_live_snapshot(&live_block(), &totals_block(), &info, &model, &controls, 1234).unwrap();
    assert_eq!(s.timestamp_ms, 1234);
    assert_eq!(s.device_model, "A5000");
    assert_eq!(s.firmware, "v1.5.0");
    assert!(s.connected);
    assert_eq!(s.pv_w, 620);
    assert_eq!(s.load_w, 400);
    assert_eq!(s.battery_w, -500);
    assert_eq!(s.grid_w, -200);
    assert_eq!(s.ac_output_w, 310);
    assert_eq!(s.battery_soc, 57);
    assert_eq!(s.battery_status, BatteryStatus::Charging);
    assert_eq!(s.operating_mode, OperatingMode::Smart);
    assert_eq!(s.pv_total_tenth_kwh, 4268);
    assert_eq!(s.charge_total_tenth_kwh, 3184);
    assert_eq!(s.discharge_total_tenth_kwh, 2861);
    assert_eq!(s.rated_energy_tenth_kwh, 50);
    assert_eq!(s.max_charge_w, 2400);
    assert_eq!(s.max_discharge_w, 2300);
}

#[test]
fn missing_blocks_read_as_defaults() {
    let s = build_live_snapshot(&live_block(), &[], &[], &[], &[], 0).unwrap();
    assert_eq!(s.device_model, "Solarbank 4 E5000 Pro");
    assert_eq!(s.firmware, "–");
    assert_eq!(s.ac_output_w, 0);
    assert_eq!(s.charge_total_tenth_kwh, 0);
    assert_eq!(s.operating_mode, OperatingMode::Unknown);
    let empty = build_live_snapshot(&[], &[], &[], &[], &[], 0).unwrap();
    assert_eq!(empty.battery_soc, 0);
    assert_eq!(empty.battery_status, BatteryStatus::Ready);
    assert_eq!(empty.pv_w, 0);
}

#[test]
fn blank_firmware_falls_back() {
    let mut info = vec![0u16; 67];
    info[22] = 0x2020;
    let s = build_live_snapshot(&live_block(), &[], &info, &[], &[], 0).unwrap();
    assert_eq!(s.firmware, "–");
    let short_info = vec![0x4141u16; 27];
    let s = build_live_snapshot(&live_block(), &[], &short_info, &[], &[], 0).unwrap();
    assert_eq!(s.firmware, "–");
}

#[test]
fn soc_above_hundred_is_refused() {
    let mut live = live_block();
    live[14] = 101;
    assert_eq!(build_live_snapshot(&live, &[], &[], &[], &[], 0).unwrap_err(), SnapshotError::InvalidSoc(101));
    live[14] = 100;
    assert_eq!(build_live_snapshot(&live, &[], &[], &[], &[], 0).unwrap().battery_soc, 100);
}

#[test]
fn status_and_mode_codes() {
    assert_eq!(BatteryStatus::from_code(1), BatteryStatus::Charging);
    assert_eq!(BatteryStatus::from_code(2), BatteryStatus::Discharging);
    assert_eq!(BatteryStatus::from_code(3), BatteryStatus::Sleeping);
    assert_eq!(BatteryStatus::from_code(0), BatteryStatus::Ready);
    assert_eq!(BatteryStatus::from_code(9), BatteryStatus::Ready);
    assert_eq!(OperatingMode::from_register(Some(0)), OperatingMode::SelfConsumption);
    assert_eq!(OperatingMode::from_register(Some(1)), OperatingMode::TimeOfUse);
    assert_eq!(OperatingMode::from_register(Some(2)), OperatingMode::Unknown);
    assert_eq!(OperatingMode::from_register(Some(3)), OperatingMode::ThirdPartyControl);
    assert_eq!(OperatingMode::from_register(Some(7)), OperatingMode::DynamicTariff);
    assert_eq!(OperatingMode::from_register(None), OperatingMode::Unknown);
    assert_eq!(BatteryStatus::Charging.label(), "Lädt");
    assert_eq!(BatteryStatus::Discharging.label(), "Entlädt");
    assert_eq!(OperatingMode::TimeOfUse.label(), "Zeitplan (TOU)");
    assert_eq!(OperatingMode::Unknown.label(), "Unbekannt");
}

#[test]
fn pv_power_saturates() {
    assert_eq!(saturating_add_i32(i32::MAX, 1), i32::MAX);
    assert_eq!(saturating_add_i32(i32::MIN, -1), i32::MIN);
    assert_eq!(saturating_add_i32(500, 120), 620);
    let mut live = live_block();
    live[2] = 0x7FFF; live[3] = 0xFFFF;
    assert_eq!(build_live_snapshot(&live, &[], &[], &[], &[], 0).unwrap().pv_w, i32::MAX);
}

#[test]
fn host_must_not_be_blank() {
    assert_eq!(check_host("  \t"), Err(SnapshotError::MissingHost));
    assert_eq!(check_host(""), Err(SnapshotError::MissingHost));
    assert_eq!(check_host(" 192.168.1.5 "), Ok(()));
}

#[test]
fn demo_power_balances() {
    let s = demo_snapshot_from_flows(99, 720, 410, 72);
    assert_eq!(s.battery_w, 292);
    assert_eq!(s.grid_w, -602);
    assert_eq!(s.pv_w + s.battery_w + s.grid_w, s.load_w);
    assert_eq!(s.ac_output_w, 428);
    assert_eq!(s.battery_status, BatteryStatus::Discharging);
    assert_eq!(s.battery_soc, 72);
    assert_eq!(s.device_model, "Solarbank 4 E5000 Pro");
    assert_eq!(s.firmware, "Demo 1.0.0");
    assert_eq!(s.operating_mode, OperatingMode::SelfConsumption);
    assert_eq!(s.pv_total_tenth_kwh, 4268);
    assert_eq!(s.rated_energy_tenth_kwh, 50);
    assert_eq!(s.timestamp_ms, 99);
}

#[test]
fn demo_battery_is_limited() {
    let s = demo_snapshot_from_flows(0, 2000, 100, 120);
    assert_eq!(s.battery_w, 800);
    assert_eq!(s.battery_soc, 100);
    let s = demo_snapshot_from_flows(0, 100, 2000, 50);
    assert_eq!(s.battery_w, -800);
    assert_eq!(s.battery_status, BatteryStatus::Charging);
    assert_eq!(s.ac_output_w, 900);
    assert_eq!(s.pv_w + s.battery_w + s.grid_w, s.load_w);
    let s = demo_snapshot_from_flows(0, 428, 400, 50);
    assert_eq!(s.battery_w, 10);
    assert_eq!(s.battery_status, BatteryStatus::Ready);
    let s = demo_snapshot_from_flows(0, 0, 1000, 50);
    assert_eq!(s.ac_output_w, 800);
}
