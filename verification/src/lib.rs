mod args;
mod commands;
mod dispatch;
mod errors;
mod registry;
mod state;
mod timefmt;

pub use args::Args;
pub use args::lookup_in;
pub use commands::SystemInfo;
pub use commands::UsbDevice;
pub use commands::assemble_system_info;
pub use commands::get_mock_usb_devices;
pub use commands::get_system_info;
pub use commands::greet;
pub use commands::lemma_greeting_contains_name;
pub use commands::lemma_mock_devices_deterministic;
pub use commands::mock_devices_match;
pub use commands::spec_greeting;
pub use dispatch::Dispatcher;
pub use dispatch::Output;
pub use dispatch::counter_after;
pub use dispatch::counter_after_all;
pub use dispatch::lemma_increments_all_counted;
pub use dispatch::lemma_reset_then_get;
pub use errors::CommandError;
pub use errors::spec_error_message;
pub use registry::CommandKind;
pub use registry::CommandRegistry;
pub use registry::lemma_first_registration_wins;
pub use registry::lemma_resolve_push;
pub use registry::resolve_in;
pub use state::SharedState;
pub use state::lemma_no_lost_updates;
pub use state::value_after_increments;
pub use timefmt::Timestamp;
pub use timefmt::current_timestamp_text;
pub use timefmt::format_timestamp;
pub use timefmt::spec_decimal;
pub use timefmt::spec_digit;
pub use timefmt::spec_timestamp_text;
pub use timefmt::spec_two_digits;
pub use timefmt::spec_year_digits;
pub use timefmt::spec_zero_pad;
