use dispatcher::Args;
use dispatcher::CommandError;
use dispatcher::Dispatcher;
use dispatcher::Output;
use dispatcher::get_system_info;

fn make_dispatcher() -> Dispatcher {
    let info = get_system_info("linux".to_string(), "x86_64".to_string());
    Dispatcher::new(info)
}

fn empty_args() -> Args {
    Args::new()
}

#[test]
fn unknown_command_is_rejected() {
    let mut d = make_dispatcher();
    let r = d.dispatch("nonexistent", &empty_args());
    assert_eq!(r.unwrap_err(), CommandError::UnknownCommand);
}

#[test]
fn unknown_command_does_not_disturb_the_counter() {
    let mut d = make_dispatcher();
    let _ = d.dispatch("increment_counter", &empty_args());
    let _ = d.dispatch("nonexistent", &empty_args());
    match d.dispatch("get_counter", &empty_args()).unwrap() {
        Output::Int(v) => assert_eq!(v, 1),
        _ => panic!("get_counter did not return an integer"),
    }
    match d.dispatch("increment_counter", &empty_args()).unwrap() {
        Output::Int(v) => assert_eq!(v, 2),
        _ => panic!("increment_counter did not return an integer"),
    }
}

#[test]
fn greet_embeds_the_name() {
    let mut d = make_dispatcher();
    let mut args = Args::new();
    args.push("name".to_string(), "Ada".to_string());
    match d.dispatch("greet", &args).unwrap() {
        Output::Text(s) => {
            assert_eq!(s, "Hello, Ada! Welcome to AcreetionOS Tauri proof-of-concept.");
            assert!(s.contains("Ada"));
        },
        _ => panic!("greet did not return text"),
    }
}

#[test]
fn greet_without_name_is_invalid_arguments() {
    let mut d = make_dispatcher();
    let r = d.dispatch("greet", &empty_args());
    assert_eq!(r.unwrap_err(), CommandError::InvalidArguments);
}

#[test]
fn greet_takes_the_first_binding_of_a_key() {
    let mut d = make_dispatcher();
    let mut args = Args::new();
    args.push("name".to_string(), "Ada".to_string());
    args.push("name".to_string(), "Grace".to_string());
    match d.dispatch("greet", &args).unwrap() {
        Output::Text(s) => assert_eq!(
            s,
            "Hello, Ada! Welcome to AcreetionOS Tauri proof-of-concept."
        ),
        _ => panic!("greet did not return text"),
    }
}

#[test]
fn counter_counts_every_increment() {
    let mut d = make_dispatcher();
    for expected in 1..=10 {
        match d.dispatch("increment_counter", &empty_args()).unwrap() {
            Output::Int(v) => assert_eq!(v, expected),
            _ => panic!("increment_counter did not return an integer"),
        }
    }
    match d.dispatch("get_counter", &empty_args()).unwrap() {
        Output::Int(v) => assert_eq!(v, 10),
        _ => panic!("get_counter did not return an integer"),
    }
}

#[test]
fn reset_returns_zero_and_a_following_get_sees_zero() {
    let mut d = make_dispatcher();
    for _ in 0..7 {
        let _ = d.dispatch("increment_counter", &empty_args());
    }
    match d.dispatch("reset_counter", &empty_args()).unwrap() {
        Output::Int(v) => assert_eq!(v, 0),
        _ => panic!("reset_counter did not return an integer"),
    }
    match d.dispatch("get_counter", &empty_args()).unwrap() {
        Output::Int(v) => assert_eq!(v, 0),
        _ => panic!("get_counter did not return an integer"),
    }
}

#[test]
fn system_info_reports_what_it_was_built_with() {
    let mut d = make_dispatcher();
    match d.dispatch("get_system_info", &empty_args()).unwrap() {
        Output::Info(si) => {
            assert_eq!(si.os, "linux");
            assert_eq!(si.arch, "x86_64");
            assert_eq!(si.version, "0.1.0");
            assert!(!si.hostname.is_empty());
        },
        _ => panic!("get_system_info did not return a record"),
    }
}

#[test]
fn mock_devices_are_stable_across_calls() {
    let mut d = make_dispatcher();
    let first = match d.dispatch("get_mock_usb_devices", &empty_args()).unwrap() {
        Output::Devices(ds) => ds,
        _ => panic!("get_mock_usb_devices did not return a device list"),
    };
    let second = match d.dispatch("get_mock_usb_devices", &empty_args()).unwrap() {
        Output::Devices(ds) => ds,
        _ => panic!("get_mock_usb_devices did not return a device list"),
    };
    assert_eq!(first.len(), 3);
    assert_eq!(second.len(), 3);
    for i in 0..3 {
        assert_eq!(first[i].name, second[i].name);
        assert_eq!(first[i].port, second[i].port);
        assert_eq!(first[i].vendor_id, second[i].vendor_id);
        assert_eq!(first[i].product_id, second[i].product_id);
    }
    assert_eq!(first[0].name, "Arduino Uno");
    assert_eq!(first[0].port, "/dev/tty.usbmodem14101");
    assert_eq!(first[0].vendor_id, "2341");
    assert_eq!(first[0].product_id, "0043");
    assert_eq!(first[1].name, "ESP32 DevKit");
    assert_eq!(first[1].port, "/dev/tty.usbserial-0001");
    assert_eq!(first[1].vendor_id, "10C4");
    assert_eq!(first[1].product_id, "EA60");
    assert_eq!(first[2].name, "Raspberry Pi Pico");
    assert_eq!(first[2].port, "/dev/tty.usbmodem14201");
    assert_eq!(first[2].vendor_id, "2E8A");
    assert_eq!(first[2].product_id, "0005");
}

#[test]
fn timestamp_has_the_documented_shape() {
    let mut d = make_dispatcher();
    let s = match d.dispatch("get_timestamp", &empty_args()).unwrap() {
        Output::Text(s) => s,
        _ => panic!("get_timestamp did not return text"),
    };
    let b: Vec<char> = s.chars().collect();
    assert_eq!(b.len(), 23);
    assert!(b[0..4].iter().all(|c| c.is_ascii_digit()));
    assert_eq!(b[4], '-');
    assert!(b[5].is_ascii_digit() && b[6].is_ascii_digit());
    assert_eq!(b[7], '-');
    assert!(b[8].is_ascii_digit() && b[9].is_ascii_digit());
    assert_eq!(b[10], ' ');
    assert!(b[11].is_ascii_digit() && b[12].is_ascii_digit());
    assert_eq!(b[13], ':');
    assert!(b[14].is_ascii_digit() && b[15].is_ascii_digit());
    assert_eq!(b[16], ':');
    assert!(b[17].is_ascii_digit() && b[18].is_ascii_digit());
    assert!(s.ends_with(" UTC"));
}

#[test]
fn error_messages_name_their_kind() {
    assert_eq!(CommandError::UnknownCommand.message(), "unknown command");
    assert_eq!(CommandError::DuplicateCommand.message(), "command name already registered");
    assert_eq!(
        CommandError::InvalidArguments.message(),
        "arguments do not match the command's expected shape"
    );
    assert_eq!(CommandError::HandlerError.message(), "handler failed");
}
