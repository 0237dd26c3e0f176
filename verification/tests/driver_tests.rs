use epd2in7::color::Color;
use epd2in7::command::BOOSTER_SOFT_START;
use epd2in7::command::DATA_START_TRANSMISSION_1;
use epd2in7::command::DATA_START_TRANSMISSION_2;
use epd2in7::command::DEEP_SLEEP;
use epd2in7::command::DISPLAY_REFRESH;
use epd2in7::command::GET_STATUS;
use epd2in7::command::LUT_BLACK_TO_BLACK;
use epd2in7::command::LUT_BLACK_TO_WHITE;
use epd2in7::command::LUT_FOR_VCOM;
use epd2in7::command::LUT_WHITE_TO_BLACK;
use epd2in7::command::LUT_WHITE_TO_WHITE;
use epd2in7::command::PANEL_SETTING;
use epd2in7::command::PARTIAL_DATA_START_TRANSMISSION_1;
use epd2in7::command::PARTIAL_DISPLAY_REFRESH;
use epd2in7::command::PLL_CONTROL;
use epd2in7::command::POWER_OFF;
use epd2in7::command::POWER_ON;
use epd2in7::command::POWER_OPTIMIZATION;
use epd2in7::command::POWER_SETTING;
use epd2in7::command::VCM_DC_SETTING;
use epd2in7::command::VCOM_AND_DATA_INTERVAL_SETTING;
use epd2in7::constants::LUT_BB;
use epd2in7::constants::LUT_BW;
use epd2in7::constants::LUT_VCOM_DC;
use epd2in7::constants::LUT_WB;
use epd2in7::constants::LUT_WW;
use epd2in7::driver::DEFAULT_BACKGROUND_COLOR;
use epd2in7::driver::DriverError;
use epd2in7::driver::Epd2in7;
use epd2in7::driver::HEIGHT;
use epd2in7::driver::RefreshLut;
use epd2in7::driver::WIDTH;
use epd2in7::interface::BusEvent;
use epd2in7::recorder::RecordingInterface;

const FRAME_BYTES: usize = 5808;

fn push_cmd(v: &mut Vec<BusEvent>, c: u8) {
    v.push(BusEvent::Command(c));
}

fn push_data(v: &mut Vec<BusEvent>, bytes: &[u8]) {
    for &b in bytes {
        v.push(BusEvent::Data(b));
    }
}

fn push_cmd_data(v: &mut Vec<BusEvent>, c: u8, bytes: &[u8]) {
    push_cmd(v, c);
    push_data(v, bytes);
}

fn push_wait(v: &mut Vec<BusEvent>) {
    push_cmd(v, GET_STATUS);
    v.push(BusEvent::BusyWait);
}

fn push_repeated(v: &mut Vec<BusEvent>, byte: u8, count: usize) {
    for _ in 0..count {
        v.push(BusEvent::Data(byte));
    }
}

fn expected_init() -> Vec<BusEvent> {
    let mut v = Vec::new();
    v.push(BusEvent::Reset);
    push_cmd_data(&mut v, POWER_SETTING, &[0x03, 0x00, 0x2b, 0x2b, 0x09]);
    push_cmd_data(&mut v, BOOSTER_SOFT_START, &[0x07, 0x07, 0x17]);
    push_cmd_data(&mut v, POWER_OPTIMIZATION, &[0x60, 0xa5]);
    push_cmd_data(&mut v, POWER_OPTIMIZATION, &[0x89, 0xa5]);
    push_cmd_data(&mut v, POWER_OPTIMIZATION, &[0x90, 0x00]);
    push_cmd_data(&mut v, POWER_OPTIMIZATION, &[0x93, 0x2a]);
    push_cmd_data(&mut v, POWER_OPTIMIZATION, &[0xa0, 0xa5]);
    push_cmd_data(&mut v, POWER_OPTIMIZATION, &[0xa1, 0x00]);
    push_cmd_data(&mut v, POWER_OPTIMIZATION, &[0x73, 0x41]);
    push_cmd_data(&mut v, PARTIAL_DISPLAY_REFRESH, &[0x00]);
    push_cmd(&mut v, POWER_ON);
    push_wait(&mut v);
    push_cmd_data(&mut v, PANEL_SETTING, &[0xaf]);
    push_cmd_data(&mut v, PLL_CONTROL, &[0x3a]);
    push_cmd_data(&mut v, VCM_DC_SETTING, &[0x12]);
    push_cmd_data(&mut v, LUT_FOR_VCOM, &LUT_VCOM_DC);
    push_cmd_data(&mut v, LUT_WHITE_TO_WHITE, &LUT_WW);
    push_cmd_data(&mut v, LUT_BLACK_TO_WHITE, &LUT_BW);
    push_cmd_data(&mut v, LUT_WHITE_TO_BLACK, &LUT_BB);
    push_cmd_data(&mut v, LUT_BLACK_TO_BLACK, &LUT_WB);
    v
}

fn ready_epd() -> Epd2in7<RecordingInterface> {
    Epd2in7::new(RecordingInterface::new()).unwrap()
}

#[test]
fn epd_size() {
    assert_eq!(WIDTH, 176);
    assert_eq!(HEIGHT, 264);
    assert_eq!(DEFAULT_BACKGROUND_COLOR, Color::White);
}

#[test]
fn init_emits_documented_sequence() {
    let epd = ready_epd();
    assert_eq!(epd.interface().events, expected_init());
    assert_eq!(*epd.background_color(), Color::White);
}

#[test]
fn wake_up_reruns_full_init_each_time() {
    let mut epd = ready_epd();
    epd.wake_up().unwrap();
    epd.wake_up().unwrap();
    let mut expected = expected_init();
    expected.extend(expected_init());
    expected.extend(expected_init());
    assert_eq!(epd.interface().events, expected);
    assert_eq!(*epd.background_color(), Color::White);
}

#[test]
fn update_and_display_frame_streams_then_refreshes() {
    let mut epd = ready_epd();
    let before = epd.interface().events.len();
    let buffer = vec![0u8; FRAME_BYTES];
    epd.update_and_display_frame(&buffer).unwrap();
    let mut expected = Vec::new();
    push_cmd(&mut expected, DATA_START_TRANSMISSION_2);
    push_repeated(&mut expected, 0x00, FRAME_BYTES);
    push_cmd(&mut expected, DISPLAY_REFRESH);
    push_wait(&mut expected);
    assert_eq!(&epd.interface().events[before..], &expected[..]);
    // The busy-wait is the last transaction and ended with the line ready.
    assert_eq!(*epd.interface().events.last().unwrap(), BusEvent::BusyWait);
    assert!(!epd.is_busy());
}

#[test]
fn clear_frame_fills_both_planes_with_background_byte() {
    let mut epd = ready_epd();
    let before = epd.interface().events.len();
    epd.clear_frame().unwrap();
    let mut expected = Vec::new();
    push_cmd(&mut expected, DATA_START_TRANSMISSION_1);
    push_repeated(&mut expected, 0xff, FRAME_BYTES);
    push_cmd(&mut expected, DATA_START_TRANSMISSION_2);
    push_repeated(&mut expected, 0xff, FRAME_BYTES);
    assert_eq!(&epd.interface().events[before..], &expected[..]);
}

#[test]
fn clear_frame_uses_current_background_color() {
    let mut epd = ready_epd();
    epd.set_background_color(Color::Black);
    let before = epd.interface().events.len();
    epd.clear_frame().unwrap();
    let after = &epd.interface().events[before..];
    let data_bytes: Vec<&BusEvent> = after
        .iter()
        .filter(|e| matches!(e, BusEvent::Data(_)))
        .collect();
    assert_eq!(data_bytes.len(), 2 * FRAME_BYTES);
    for e in data_bytes {
        assert_eq!(*e, BusEvent::Data(0x00));
    }
}

#[test]
fn sleep_emits_documented_sequence() {
    let mut epd = ready_epd();
    let before = epd.interface().events.len();
    epd.sleep().unwrap();
    let mut expected = Vec::new();
    push_wait(&mut expected);
    push_cmd_data(&mut expected, VCOM_AND_DATA_INTERVAL_SETTING, &[0xf7]);
    push_cmd(&mut expected, POWER_OFF);
    push_wait(&mut expected);
    push_cmd_data(&mut expected, DEEP_SLEEP, &[0xa5]);
    assert_eq!(&epd.interface().events[before..], &expected[..]);
}

#[test]
fn update_partial_frame_masks_geometry_and_streams_window() {
    let mut epd = ready_epd();
    let before = epd.interface().events.len();
    // x = 17 and width = 100 are not byte-aligned: the header masks them
    // down to 16 and 96; y = 300 and height = 50 pass through unmasked.
    let buffer = vec![0xabu8; (96 / 8) * 50];
    epd.update_partial_frame(&buffer, 17, 300, 100, 50).unwrap();
    let mut expected = Vec::new();
    push_cmd(&mut expected, PARTIAL_DATA_START_TRANSMISSION_1);
    push_data(&mut expected, &[0x00, 16, 0x01, 44, 0x00, 96, 0x00, 50]);
    push_repeated(&mut expected, 0xab, (96 / 8) * 50);
    push_cmd(&mut expected, DISPLAY_REFRESH);
    push_wait(&mut expected);
    assert_eq!(&epd.interface().events[before..], &expected[..]);
}

#[test]
fn display_partial_frame_reflashes_without_payload() {
    let mut epd = ready_epd();
    let before = epd.interface().events.len();
    epd.display_partial_frame(16, 40, 96, 50).unwrap();
    let mut expected = Vec::new();
    push_cmd(&mut expected, PARTIAL_DISPLAY_REFRESH);
    push_data(&mut expected, &[0x00, 16, 0x00, 40, 0x00, 96, 0x00, 50]);
    push_wait(&mut expected);
    assert_eq!(&epd.interface().events[before..], &expected[..]);
}

#[test]
fn partial_paths_use_distinct_command_codes() {
    // Stream-and-refresh path.
    let mut epd = ready_epd();
    let before = epd.interface().events.len();
    let buffer = vec![0u8; (96 / 8) * 50];
    epd.update_partial_frame(&buffer, 16, 40, 96, 50).unwrap();
    let update_path: Vec<BusEvent> = epd.interface().events[before..].to_vec();

    // Re-flash path on the same window.
    let mut epd = ready_epd();
    let before = epd.interface().events.len();
    epd.display_partial_frame(16, 40, 96, 50).unwrap();
    let display_path: Vec<BusEvent> = epd.interface().events[before..].to_vec();

    assert_ne!(update_path[0], display_path[0]);
    assert_eq!(
        update_path[0],
        BusEvent::Command(PARTIAL_DATA_START_TRANSMISSION_1)
    );
    assert_eq!(display_path[0], BusEvent::Command(PARTIAL_DISPLAY_REFRESH));
    assert!(update_path.contains(&BusEvent::Command(DISPLAY_REFRESH)));
    assert!(!display_path.contains(&BusEvent::Command(DISPLAY_REFRESH)));
}

#[test]
fn update_frame_rejects_wrong_buffer_length() {
    let mut epd = ready_epd();
    let before = epd.interface().events.len();
    let short = vec![0u8; FRAME_BYTES - 1];
    assert_eq!(
        epd.update_frame(&short),
        Err(DriverError::InvalidBufferLength)
    );
    let long = vec![0u8; FRAME_BYTES + 1];
    assert_eq!(
        epd.update_frame(&long),
        Err(DriverError::InvalidBufferLength)
    );
    // Nothing was transmitted by the rejected calls.
    assert_eq!(epd.interface().events.len(), before);
    let exact = vec![0u8; FRAME_BYTES];
    assert_eq!(epd.update_frame(&exact), Ok(()));
}

#[test]
fn update_and_display_frame_rejects_wrong_buffer_length() {
    let mut epd = ready_epd();
    let before = epd.interface().events.len();
    let short = vec![0u8; 100];
    assert_eq!(
        epd.update_and_display_frame(&short),
        Err(DriverError::InvalidBufferLength)
    );
    assert_eq!(epd.interface().events.len(), before);
}

#[test]
fn update_partial_frame_rejects_wrong_buffer_length() {
    let mut epd = ready_epd();
    let before = epd.interface().events.len();
    // The masked window 96 x 50 takes exactly 600 bytes.
    let short = vec![0u8; 599];
    assert_eq!(
        epd.update_partial_frame(&short, 16, 40, 96, 50),
        Err(DriverError::InvalidBufferLength)
    );
    assert_eq!(epd.interface().events.len(), before);
    let exact = vec![0u8; 600];
    assert_eq!(epd.update_partial_frame(&exact, 16, 40, 96, 50), Ok(()));
}

#[test]
fn set_lut_ignores_refresh_rate_selector() {
    let mut epd = ready_epd();
    let before = epd.interface().events.len();
    epd.set_lut(None).unwrap();
    let with_none: Vec<BusEvent> = epd.interface().events[before..].to_vec();

    let before = epd.interface().events.len();
    epd.set_lut(Some(RefreshLut::Quick)).unwrap();
    let with_quick: Vec<BusEvent> = epd.interface().events[before..].to_vec();

    assert_eq!(with_none, with_quick);
    assert_eq!(with_none[0], BusEvent::Command(LUT_FOR_VCOM));
    // One command byte per table, then 44 + 4 * 42 payload bytes.
    assert_eq!(with_none.len(), 5 + 44 + 4 * 42);
}

#[test]
fn geometry_accessors_report_fixed_size() {
    let epd = ready_epd();
    assert_eq!(epd.width(), 176);
    assert_eq!(epd.height(), 264);
}

#[test]
fn background_color_round_trip() {
    let mut epd = ready_epd();
    assert_eq!(*epd.background_color(), Color::White);
    epd.set_background_color(Color::Black);
    assert_eq!(*epd.background_color(), Color::Black);
    assert_eq!(Color::Black.get_byte_value(), 0x00);
    assert_eq!(Color::White.get_byte_value(), 0xff);
}

#[test]
fn init_resets_before_any_command_and_luts_come_last() {
    let events = expected_init();
    assert_eq!(events[0], BusEvent::Reset);
    let panel = events
        .iter()
        .position(|e| *e == BusEvent::Command(PANEL_SETTING))
        .unwrap();
    let pll = events
        .iter()
        .position(|e| *e == BusEvent::Command(PLL_CONTROL))
        .unwrap();
    let lut = events
        .iter()
        .position(|e| *e == BusEvent::Command(LUT_FOR_VCOM))
        .unwrap();
    assert!(0 < panel && panel < pll && pll < lut);
    // The recorded stream of a real construction matches this layout.
    let epd = ready_epd();
    assert_eq!(epd.interface().events, events);
}
