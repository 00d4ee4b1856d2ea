use atk_mouse::command::Command;
use atk_mouse::download_data::{GetWirelessMouseOnline, MouseStatus};
use atk_mouse::dpi::{Color, Dpi, Pair, Preset};
use atk_mouse::dpi_profiles::{ColorPairSetting, DpiPairSetting};
use atk_mouse::manager::{LoadPhase, MouseManager};
use atk_mouse::mouse_info::{MouseInfo, PollingRate};
use atk_mouse::silent_height::SilentHeightMode;
use atk_mouse::types::{Duration, Milliseconds};
use atk_mouse::Error;

fn online_response(byte: u8) -> Command<GetWirelessMouseOnline> {
    let mut raw = [0u8; 16];
    raw[0x0] = 0x03;
    raw[0x5] = byte;
    Command::try_from(&raw).unwrap()
}

/// A well-formed mouse information response with the given payload.
fn info_response(poll_rate: u8, count: u8, active: u8) -> Command<MouseInfo> {
    let mut raw = [0u8; 16];
    raw[0x0] = 0x07;
    raw[0x4] = 0x06;
    raw[0x5] = poll_rate;
    raw[0x7] = count;
    raw[0x9] = active;
    Command::try_from(&raw).unwrap()
}

/// A well-formed DPI pair response for the given pair address code.
fn dpi_pair_response(addr_lo: u8, g1: [u8; 4], g2: [u8; 4]) -> Command<DpiPairSetting> {
    let mut raw = [0u8; 16];
    raw[0x0] = 0x08;
    raw[0x3] = addr_lo;
    raw[0x4] = 0x08;
    raw[0x5..0x9].copy_from_slice(&g1);
    raw[0x9..0xd].copy_from_slice(&g2);
    Command::try_from(&raw).unwrap()
}

fn color_pair_response(addr_lo: u8, g1: [u8; 4], g2: [u8; 4]) -> Command<ColorPairSetting> {
    let mut raw = [0u8; 16];
    raw[0x0] = 0x08;
    raw[0x3] = addr_lo;
    raw[0x4] = 0x08;
    raw[0x5..0x9].copy_from_slice(&g1);
    raw[0x9..0xd].copy_from_slice(&g2);
    Command::try_from(&raw).unwrap()
}

#[test]
fn manager_starts_dormant_and_empty() {
    let m = MouseManager::new();
    assert_eq!(m.status, MouseStatus::Dormant);
    assert_eq!(m.profile.mouse_info.num_profile, 0);
}

#[test]
fn wait_step_blocks_until_active() {
    let mut m = MouseManager::new();
    assert!(!m.wait_step(&online_response(0x0)));
    assert_eq!(m.status, MouseStatus::Dormant);
    assert!(!m.wait_step(&online_response(0x7)));
    assert!(m.wait_step(&online_response(0x1)));
    assert_eq!(m.status, MouseStatus::Active);
}

#[test]
fn load_queries_have_the_documented_shape() {
    let q = MouseManager::load_query(LoadPhase::MousePerf).unwrap();
    assert_eq!(q.len(), 16);
    assert_eq!(q[0x0], 0x08); // GetEEPROM
    assert_eq!(q[0x2], 0x00);
    assert_eq!(q[0x3], 0xa9); // StabilizationTime
    assert_eq!(q[0x4], 0x0a);

    let q = MouseManager::load_query(LoadPhase::Info).unwrap();
    assert_eq!(q[0x3], 0x00); // ReportRate
    assert_eq!(q[0x4], 0x06);

    let q = MouseManager::load_query(LoadPhase::Color4).unwrap();
    assert_eq!(q[0x3], 0x44); // DpiPair7Color

    assert!(MouseManager::load_query(LoadPhase::Done).is_none());
}

#[test]
fn load_pass_walks_all_phases_and_fills_the_cache() {
    let mut m = MouseManager::new();

    let mut perf = [0u8; 16];
    perf[0x5] = 25; // stabilization ms
    perf[0x7] = 1; // motion sync on
    let next = m.load_apply(LoadPhase::MousePerf, &perf).unwrap();
    assert_eq!(next, LoadPhase::SensorPerf);
    assert_eq!(m.profile.mouse_perf.stabilization_time.as_unit(), 25);
    assert!(m.profile.mouse_perf.motion_sync);

    let sensor = [0u8; 16];
    let next = m.load_apply(next, &sensor).unwrap();
    assert_eq!(next, LoadPhase::FarDistance);

    let mut far = [0u8; 16];
    far[0x5] = 1;
    let next = m.load_apply(next, &far).unwrap();
    assert_eq!(next, LoadPhase::Info);
    assert!(m.profile.far_distance.far_distance_mode());

    let mut info = [0u8; 16];
    info[0x5] = 0x10; // 2000 Hz
    info[0x7] = 3;
    info[0x9] = 1;
    let next = m.load_apply(next, &info).unwrap();
    assert_eq!(next, LoadPhase::Dpi1);
    assert_eq!(m.profile.mouse_info.poll_rate, PollingRate::Hz2000);
    assert_eq!(m.profile.mouse_info.num_profile, 3);

    let mut dpi = [0u8; 16];
    dpi[0x3] = 0x0c; // DpiPair1
    dpi[0x4] = 0x08;
    dpi[0x5..0x9].copy_from_slice(&[0x02, 0x02, 0x00, 0x51]);
    dpi[0x9..0xd].copy_from_slice(&[0x02, 0x02, 0x00, 0x51]);
    let mut phase = next;
    for lo in [0x0c, 0x14, 0x1c, 0x24] {
        dpi[0x3] = lo;
        phase = m.load_apply(phase, &dpi).unwrap();
    }
    assert_eq!(phase, LoadPhase::Color1);
    assert_eq!(m.profile.dpi_pair4.dpi_first.dpi(), 150);

    let mut color = [0u8; 16];
    color[0x4] = 0x08;
    color[0x5..0x9].copy_from_slice(&[1, 2, 3, 0x4f]);
    color[0x9..0xd].copy_from_slice(&[1, 2, 3, 0x4f]);
    for lo in [0x2c, 0x34, 0x3c, 0x44] {
        color[0x3] = lo;
        phase = m.load_apply(phase, &color).unwrap();
    }
    assert_eq!(phase, LoadPhase::Silent);
    assert_eq!(m.profile.color_pair2.color_first, Color::new(1, 2, 3));

    let mut silent = [0u8; 16];
    silent[0x5] = 0x2;
    phase = m.load_apply(phase, &silent).unwrap();
    assert_eq!(phase, LoadPhase::Led);
    assert_eq!(m.profile.silent_mode.mode, SilentHeightMode::TwoMm);

    let mut led = [0u8; 16];
    led[0x5] = 0x2; // breathing
    led[0x7] = 0x80; // medium
    led[0x9] = 0x5; // fast
    led[0xb] = 0x1; // enabled
    phase = m.load_apply(phase, &led).unwrap();
    assert_eq!(phase, LoadPhase::Done);
    assert!(m.profile.dpi_led.enabled);
}

#[test]
fn load_apply_rejects_wrong_length_and_keeps_cache() {
    let mut m = MouseManager::new();
    let before = m.profile.mouse_perf;
    let short = [0u8; 7];
    let r = m.load_apply(LoadPhase::MousePerf, &short);
    assert_eq!(r.unwrap_err(), Error::LengthMismatch);
    assert_eq!(
        m.profile.mouse_perf.stabilization_time.as_unit(),
        before.stabilization_time.as_unit()
    );
}

#[test]
fn load_apply_rejects_unknown_poll_rate_and_keeps_cache() {
    let mut m = MouseManager::new();
    let mut info = [0u8; 16];
    info[0x5] = 0x33; // no such polling rate
    info[0x7] = 5;
    let r = m.load_apply(LoadPhase::Info, &info);
    assert_eq!(r.unwrap_err(), Error::InvalidEnumValue);
    assert_eq!(m.profile.mouse_info.num_profile, 0);
}

#[test]
fn merge_overrides_only_provided_fields() {
    let mut m = MouseManager::new();
    let mut perf = [0u8; 16];
    perf[0x5] = 40;
    perf[0x7] = 1;
    m.load_apply(LoadPhase::MousePerf, &perf).unwrap();
    m.status = MouseStatus::Active;

    let cmd = m.set_mouse_performance_command(
        Some(Duration::<Milliseconds>::new(10)),
        None,
        None,
        Some(true),
        None,
    );
    let bytes = cmd.as_bytes();
    assert_eq!(bytes[0x0], 0x07); // SetEEPROM
    assert_eq!(bytes[0x3], 0xa9);
    assert_eq!(bytes[0x5], 10); // overridden
    assert_eq!(bytes[0x7], 1); // kept from cache
    assert_eq!(bytes[0xb], 1); // overridden
    assert_eq!(bytes[0xd], 0); // kept from cache
}

#[test]
fn applied_responses_carry_device_confirmed_values() {
    let mut m = MouseManager::new();
    // The device may clamp: whatever was requested, the cache takes
    // what the response says.
    let resp = dpi_pair_response(0x0c, [0x02, 0x02, 0x00, 0x51], [0x04, 0x04, 0x00, 0x4d]);
    m.apply_dpi_pair_response(resp).unwrap();
    assert_eq!(m.profile.dpi_pair1.dpi_first, Dpi::new(150));
    assert_eq!(m.profile.dpi_pair1.dpi_second, Dpi::new(250));
    assert_eq!(m.profile.dpi_pair1.pair, Pair::Pair1);

    let resp = color_pair_response(0x3c, [9, 9, 9, 0x3a], [1, 1, 1, 0x52]);
    m.apply_color_pair_response(resp).unwrap();
    assert_eq!(m.profile.color_pair3.color_first, Color::new(9, 9, 9));
    // Other pairs untouched.
    assert_eq!(m.profile.color_pair1, ColorPairSetting::default());
}

#[test]
fn corrupted_pair_response_leaves_cache_unchanged() {
    let mut m = MouseManager::new();
    let before = m.profile.dpi_pair1;
    let resp = dpi_pair_response(0x0c, [0x02, 0x02, 0x00, 0x00], [0x02, 0x02, 0x00, 0x51]);
    assert_eq!(m.apply_dpi_pair_response(resp).unwrap_err(), Error::ChecksumError);
    assert_eq!(m.profile.dpi_pair1, before);
}

#[test]
fn ninth_profile_is_rejected_and_cache_untouched() {
    let mut m = MouseManager::new();
    m.apply_mouse_info_response(info_response(0x1, 8, 0)).unwrap();
    let before_info = m.profile.mouse_info;
    let r = m.new_dpi_profile_slot();
    assert_eq!(r.unwrap_err(), Error::ProfileLimitReached);
    assert_eq!(m.profile.mouse_info, before_info);
}

#[test]
fn new_profile_takes_the_next_free_slot() {
    let mut m = MouseManager::new();
    m.apply_mouse_info_response(info_response(0x1, 2, 0)).unwrap();
    assert_eq!(m.new_dpi_profile_slot().unwrap(), Preset::Preset3);
}

#[test]
fn new_profile_cycle_reflects_device_confirmed_values() {
    let mut m = MouseManager::new();
    m.apply_mouse_info_response(info_response(0x1, 2, 0)).unwrap();
    m.status = MouseStatus::Active;

    let slot = m.new_dpi_profile_slot().unwrap();
    assert_eq!(slot, Preset::Preset3);

    // Step one: increment the on-device count; the cache then takes
    // the count the device confirms.
    let cmd = m.increment_profile_count_command();
    assert_eq!(cmd.as_bytes()[0x7], 3);
    m.apply_mouse_info_response(info_response(0x1, 3, 0)).unwrap();
    assert_eq!(m.profile.mouse_info.num_profile, 3);

    // Step two: write the DPI for the new slot; the device clamps the
    // requested 150 to 400, and the cache reflects the clamped value.
    // The startup pass had filled the pair's cache entry.
    let seeded = dpi_pair_response(0x14, [0x02, 0x02, 0x00, 0x51], [0x02, 0x02, 0x00, 0x51]);
    m.apply_dpi_pair_response(seeded).unwrap();
    let cmd = m.set_dpi_profile_dpi_command(slot, Dpi::new(150));
    assert_eq!(cmd.as_bytes()[0x3], 0x14); // DpiPair3: slot 3 folds into pair 2
    let confirmed = dpi_pair_response(0x14, [0x07, 0x07, 0x00, 0x47], [0x02, 0x02, 0x00, 0x51]);
    m.apply_dpi_pair_response(confirmed).unwrap();
    assert_eq!(m.profile.dpi_pair2.dpi_first.dpi(), 400);

    // Step three: write the color for the new slot.
    let cmd = m.set_dpi_profile_color_command(slot, Color::new(1, 2, 3));
    assert_eq!(cmd.as_bytes()[0x5..0x9], [1, 2, 3, 0x4f]);
    let confirmed = color_pair_response(0x34, [1, 2, 3, 0x4f], [255, 255, 255, 0x58]);
    m.apply_color_pair_response(confirmed).unwrap();
    assert_eq!(m.profile.color_pair2.color_first, Color::new(1, 2, 3));
}

#[test]
fn silent_height_command_encodes_requested_mode() {
    let mut m = MouseManager::new();
    m.status = MouseStatus::Active;
    let cmd = m.set_silent_height_command(SilentHeightMode::OneMm);
    let bytes = cmd.as_bytes();
    assert_eq!(bytes[0x0], 0x07);
    assert_eq!(bytes[0x3], 0x0a);
    assert_eq!(bytes[0x5], 0x1);
    assert_eq!(bytes[0x6], 0x54);
}

#[test]
fn far_distance_command_encodes_requested_flag() {
    let mut m = MouseManager::new();
    m.status = MouseStatus::Active;
    let cmd = m.set_far_distance_command(true);
    let bytes = cmd.as_bytes();
    assert_eq!(bytes[0x0], 0x15); // SetFarDistanceMode
    assert_eq!(bytes[0x5], 0x1);
}

#[test]
fn profile_gears_pair_dpi_with_color() {
    let mut m = MouseManager::new();
    let resp = dpi_pair_response(0x0c, [0x02, 0x02, 0x00, 0x51], [0x04, 0x04, 0x00, 0x4d]);
    m.apply_dpi_pair_response(resp).unwrap();
    let resp = color_pair_response(0x2c, [9, 9, 9, 0x3a], [1, 1, 1, 0x52]);
    m.apply_color_pair_response(resp).unwrap();
    let (first, second) = m.profile.dpi_profile(Pair::Pair1);
    assert_eq!(first.dpi, Dpi::new(150));
    assert_eq!(first.color, Color::new(9, 9, 9));
    assert_eq!(second.dpi, Dpi::new(250));
    assert_eq!(second.color, Color::new(1, 1, 1));
}
