use dispatcher::CommandError;
use dispatcher::CommandKind;
use dispatcher::CommandRegistry;
use dispatcher::SharedState;
use dispatcher::Timestamp;
use dispatcher::assemble_system_info;
use dispatcher::format_timestamp;
use dispatcher::get_mock_usb_devices;
use dispatcher::greet;

#[test]
fn greet_builds_the_exact_string() {
    assert_eq!(greet("Ada"), "Hello, Ada! Welcome to AcreetionOS Tauri proof-of-concept.");
    assert_eq!(greet(""), "Hello, ! Welcome to AcreetionOS Tauri proof-of-concept.");
}

#[test]
fn counter_starts_at_zero_and_counts() {
    let mut s = SharedState::new();
    assert_eq!(s.get(), 0);
    assert_eq!(s.increment(), 1);
    assert_eq!(s.increment(), 2);
    assert_eq!(s.increment(), 3);
    assert_eq!(s.get(), 3);
}

#[test]
fn reset_clears_any_prior_value() {
    let mut s = SharedState::new();
    for _ in 0..42 {
        let _ = s.increment();
    }
    assert_eq!(s.reset(), 0);
    assert_eq!(s.get(), 0);
}

#[test]
fn duplicate_registration_fails_and_keeps_the_first() {
    let mut reg = CommandRegistry::new();
    assert!(reg.register("foo".to_string(), CommandKind::Greet).is_ok());
    let second = reg.register("foo".to_string(), CommandKind::GetCounter);
    assert_eq!(second.unwrap_err(), CommandError::DuplicateCommand);
    assert_eq!(reg.resolve("foo"), Some(CommandKind::Greet));
}

#[test]
fn resolve_misses_what_was_never_registered() {
    let mut reg = CommandRegistry::new();
    assert_eq!(reg.resolve("foo"), None);
    assert!(reg.register("foo".to_string(), CommandKind::Greet).is_ok());
    assert_eq!(reg.resolve("bar"), None);
    assert_eq!(reg.resolve("foo"), Some(CommandKind::Greet));
}

#[test]
fn timestamp_fields_are_zero_padded() {
    let t = Timestamp { year: 2026, month: 1, day: 2, hour: 3, minute: 4, second: 5 };
    assert_eq!(format_timestamp(&t), "2026-01-02 03:04:05 UTC");
}

#[test]
fn timestamp_year_is_padded_to_four_digits() {
    let t = Timestamp { year: 7, month: 12, day: 31, hour: 23, minute: 59, second: 59 };
    assert_eq!(format_timestamp(&t), "0007-12-31 23:59:59 UTC");
}

#[test]
fn timestamp_year_keeps_extra_digits_and_sign() {
    let wide = Timestamp { year: 123456, month: 6, day: 15, hour: 12, minute: 30, second: 45 };
    assert_eq!(format_timestamp(&wide), "123456-06-15 12:30:45 UTC");
    let bce = Timestamp { year: -44, month: 3, day: 15, hour: 10, minute: 0, second: 0 };
    assert_eq!(format_timestamp(&bce), "-0044-03-15 10:00:00 UTC");
}

#[test]
fn system_info_records_a_failed_hostname_lookup_as_unknown() {
    let si = assemble_system_info("linux".to_string(), "aarch64".to_string(), None);
    assert_eq!(si.os, "linux");
    assert_eq!(si.arch, "aarch64");
    assert_eq!(si.version, "0.1.0");
    assert_eq!(si.hostname, "Unknown");
    let si = assemble_system_info(
        "linux".to_string(),
        "aarch64".to_string(),
        Some("box".to_string()),
    );
    assert_eq!(si.hostname, "box");
}

#[test]
fn mock_device_list_has_three_records_with_all_fields() {
    let ds = get_mock_usb_devices();
    assert_eq!(ds.len(), 3);
    for d in &ds {
        assert!(!d.name.is_empty());
        assert!(!d.port.is_empty());
        assert!(!d.vendor_id.is_empty());
        assert!(!d.product_id.is_empty());
    }
}
