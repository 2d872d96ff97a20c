//! The direction and descriptor codecs, plan validation, and error
//! messages, on concrete values.

use rs_flash::cli::{
    choose_log_config, default_log_modules, dump_output_path, validate_data_arg, DataRole,
    LogConfig, LogFilterVar,
};
use rs_flash::descriptor::{flash_table_bytes, parse_flash_table, FlashTable};
use rs_flash::direction::Direction;
use rs_flash::errors::{u32_hex, ImageError, TransferError, UsageError};
use rs_flash::plan::TransferPlan;

fn table(direction: Direction, flash_size: u32, buffer_size: u32) -> FlashTable {
    FlashTable { direction, flash_size, buffer_size, buffer_addr: 0x2000_0100, control_addr: 0x2000_0000 }
}

#[test]
fn direction_encodes_to_wire_values() {
    assert_eq!(Direction::Dump.as_u32(), 1);
    assert_eq!(Direction::Load.as_u32(), 2);
}

#[test]
fn direction_decodes_wire_values() {
    assert_eq!(Direction::from_u32(1), Some(Direction::Dump));
    assert_eq!(Direction::from_u32(2), Some(Direction::Load));
    assert_eq!(Direction::from_u32(0), None);
    assert_eq!(Direction::from_u32(3), None);
    assert_eq!(Direction::from_u32(0xffff_ffff), None);
}

#[test]
fn direction_round_trips_through_wire() {
    for d in [Direction::Dump, Direction::Load] {
        assert_eq!(Direction::from_u32(d.as_u32()), Some(d));
    }
}

#[test]
fn descriptor_parses_literal_words() {
    // flash_size = 1024, buffer_size = 256, direction = Load.
    let bytes = [
        0x00, 0x04, 0x00, 0x00, 0x00, 0x01, 0x00, 0x00, 0x02, 0x00, 0x00, 0x00,
    ];
    let table = parse_flash_table(&bytes, 0x2000_0100, 0x2000_0000).unwrap();
    assert_eq!(table.flash_size, 1024);
    assert_eq!(table.buffer_size, 256);
    assert_eq!(table.direction, Direction::Load);
    let plan = TransferPlan::new(&table).unwrap();
    assert_eq!(plan.chunk_count, 4);
}

#[test]
fn descriptor_rejects_wrong_size() {
    let bytes = [0u8; 8];
    let err = parse_flash_table(&bytes, 0, 4).unwrap_err();
    assert_eq!(err, ImageError::FlashTableWrongSize);
    assert_eq!(err.message(), "flash table is wrong size");
}

#[test]
fn descriptor_rejects_direction_zero() {
    let mut bytes = [0u8; 12];
    bytes[0] = 0x10;
    bytes[4] = 0x10;
    let err = parse_flash_table(&bytes, 0, 4).unwrap_err();
    assert_eq!(err, ImageError::InvalidDirection(0));
    assert_eq!(err.message(), "Invalid flash table direction 0x00000000");
}

#[test]
fn descriptor_reports_offending_direction_word() {
    let mut bytes = [0u8; 12];
    bytes[0] = 0x10;
    bytes[4] = 0x10;
    bytes[8] = 0x03;
    let err = parse_flash_table(&bytes, 0, 4).unwrap_err();
    assert_eq!(err, ImageError::InvalidDirection(3));
    assert_eq!(err.message(), "Invalid flash table direction 0x00000003");
}

#[test]
fn descriptor_round_trips_through_bytes() {
    let t = table(Direction::Dump, 32 * 1024, 1024);
    let bytes = flash_table_bytes(&t);
    assert_eq!(bytes.len(), 12);
    let parsed = parse_flash_table(bytes.as_slice(), t.buffer_addr, t.control_addr).unwrap();
    assert_eq!(parsed, t);
}

#[test]
fn hex_renders_fixed_width() {
    assert_eq!(u32_hex(0), "00000000");
    assert_eq!(u32_hex(0xdead_beef), "deadbeef");
    assert_eq!(u32_hex(0x0000_0003), "00000003");
    assert_eq!(u32_hex(0xffff_ffff), "ffffffff");
}

#[test]
fn plan_accepts_well_formed_geometry() {
    let plan = TransferPlan::new(&table(Direction::Dump, 32, 16)).unwrap();
    assert_eq!(plan.chunk_count, 2);
    assert_eq!(plan.flash_size, 32);
    assert_eq!(plan.buffer_size, 16);
    // A single-chunk geometry is fine too.
    let plan = TransferPlan::new(&table(Direction::Load, 1024, 1024)).unwrap();
    assert_eq!(plan.chunk_count, 1);
}

#[test]
fn plan_rejects_bad_geometry() {
    let err = TransferPlan::new(&table(Direction::Dump, 32, 0)).unwrap_err();
    assert_eq!(err, ImageError::BadGeometry);
    let err = TransferPlan::new(&table(Direction::Dump, 0, 16)).unwrap_err();
    assert_eq!(err, ImageError::BadGeometry);
    let err = TransferPlan::new(&table(Direction::Dump, 33, 16)).unwrap_err();
    assert_eq!(err, ImageError::BadGeometry);
}

#[test]
fn plan_rejects_aliased_control_word() {
    let mut t = table(Direction::Dump, 32, 16);
    t.control_addr = t.buffer_addr;
    let err = TransferPlan::new(&t).unwrap_err();
    assert_eq!(err, ImageError::BadLayout);
}

#[test]
fn load_requires_data_argument() {
    let err = validate_data_arg(Direction::Load, false).unwrap_err();
    assert_eq!(err, UsageError::DataMissingForLoad);
    assert_eq!(err.message(), "`--data` not specified, but ELF file loads data");
    let role = validate_data_arg(Direction::Load, true).unwrap();
    assert_eq!(role, DataRole::LoadInput);
}

#[test]
fn dump_forbids_data_argument() {
    let err = validate_data_arg(Direction::Dump, true).unwrap_err();
    assert_eq!(err, UsageError::DataWithDump);
    assert_eq!(err.message(), "`--data` is specified, but ELF file dumps data");
    let role = validate_data_arg(Direction::Dump, false).unwrap();
    assert_eq!(role, DataRole::DumpOutput);
}

#[test]
fn log_config_follows_environment() {
    match choose_log_config(LogFilterVar::Filter(String::from("debug"))).unwrap() {
        LogConfig::Custom(filters) => assert_eq!(filters, "debug"),
        LogConfig::Defaults => panic!("expected the custom filters"),
    }
    assert!(matches!(choose_log_config(LogFilterVar::Unset).unwrap(), LogConfig::Defaults));
    let err = choose_log_config(LogFilterVar::NotUnicode).unwrap_err();
    assert_eq!(err, UsageError::LogFilterNotUnicode);
    assert_eq!(err.message(), "`RUST_LOG` is not unicode");
}

#[test]
fn default_log_modules_cover_both_sides() {
    assert_eq!(default_log_modules(), vec!["rs_flash", "probe_rs", "target"]);
}

#[test]
fn dump_path_is_fixed() {
    assert_eq!(dump_output_path(), "dump.bin");
}

#[test]
fn transfer_error_messages() {
    assert_eq!(TransferError::TimedOut.message(), "Time out");
    assert_eq!(
        TransferError::BadControl(7).message(),
        "Invalid control word 0x00000007"
    );
    assert_eq!(
        TransferError::ShortRead.message(),
        "input chunk is smaller than the staging buffer"
    );
}

#[test]
fn image_error_messages() {
    assert_eq!(ImageError::Malformed.message(), "failed to parse ELF image");
    assert_eq!(ImageError::FlashTableMissing.message(), "flash table section not found");
    assert_eq!(ImageError::RttSymbolMissing.message(), "RTT symbol not found");
    assert_eq!(ImageError::BufferSymbolMissing.message(), "Flash buffer symbol not found");
    assert_eq!(ImageError::ControlSymbolMissing.message(), "Flash control symbol not found");
    assert_eq!(ImageError::VectorTableMissing.message(), "vector table section not found");
}
