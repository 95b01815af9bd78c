use vstd::prelude::*;

use crate::args::Args;
use crate::args::lookup_in;
use crate::commands::SystemInfo;
use crate::commands::UsbDevice;
use crate::commands::get_mock_usb_devices;
use crate::commands::greet;
use crate::commands::mock_devices_match;
use crate::commands::spec_greeting;
use crate::errors::CommandError;
use crate::registry::CommandKind;
use crate::registry::CommandRegistry;
use crate::registry::lemma_resolve_push;
use crate::registry::resolve_in;
use crate::state::SharedState;
use crate::timefmt::Timestamp;
use crate::timefmt::current_timestamp_text;
use crate::timefmt::spec_timestamp_text;

verus! {

/// A command's successful reply: one of the closed set of result shapes
/// the commands produce.
#[derive(Debug)]
pub enum Output {
    Text(String),
    Int(i32),
    Info(SystemInfo),
    Devices(Vec<UsbDevice>),
}

/// What dispatching a command does to the shared counter: increment
/// adds one, reset clears it, everything else leaves it alone.
pub open spec fn counter_after(k: CommandKind, v: int) -> int {
    match k {
        CommandKind::IncrementCounter => v + 1,
        CommandKind::ResetCounter => 0,
        _ => v,
    }
}

/// The counter after a whole sequence of commands has been dispatched,
/// one at a time, starting from `v` (the order is any serialization of
/// the callers' requests).
pub open spec fn counter_after_all(ks: Seq<CommandKind>, v: int) -> int
    decreases ks.len(),
{
    if ks.len() == 0 {
        v
    } else {
        counter_after_all(ks.drop_first(), counter_after(ks[0], v))
    }
}

/// No increment is lost: when every dispatched command in a serialized
/// sequence is an increment, the final counter value exceeds the
/// starting one by exactly the number of increments issued, however the
/// callers' requests were interleaved.
pub proof fn lemma_increments_all_counted(ks: Seq<CommandKind>, v: int)
    requires
        forall|i: int| 0 <= i < ks.len() ==> ks[i] == CommandKind::IncrementCounter,
    ensures
        counter_after_all(ks, v) == v + ks.len(),
    decreases ks.len(),
{
    if ks.len() > 0 {
        assert(ks[0] == CommandKind::IncrementCounter);
        lemma_increments_all_counted(ks.drop_first(), v + 1);
    }
}

/// Resetting always leaves the counter at zero, and a read dispatched
/// right after a reset sees zero, whatever the counter held before.
pub proof fn lemma_reset_then_get(v: int)
    ensures
        counter_after(CommandKind::ResetCounter, v) == 0,
        counter_after(CommandKind::GetCounter, counter_after(CommandKind::ResetCounter, v)) == 0,
{
}

/// The single entry point callers use to invoke a command by name: it
/// owns the frozen registry, the shared counter, and the host snapshot
/// taken when it was built.
pub struct Dispatcher {
    registry: CommandRegistry,
    state: SharedState,
    info: SystemInfo,
}

impl Dispatcher {
    /// Which handler a name resolves to.
    pub closed spec fn resolves(&self, n: Seq<char>) -> Option<CommandKind> {
        resolve_in(self.registry@, n)
    }

    /// The shared counter's current value.
    pub closed spec fn counter(&self) -> int {
        self.state.value()
    }

    /// The host snapshot the dispatcher was built with.
    pub closed spec fn spec_info(&self) -> SystemInfo {
        self.info
    }

    /// Builds a dispatcher over the full command set: each of the seven
    /// command names resolves to its handler, no other name resolves,
    /// and the counter starts at zero.
    pub fn new(info: SystemInfo) -> (r: Dispatcher)
        ensures
            r.counter() == 0,
            r.spec_info() == info,
            r.resolves("greet"@) == Some(CommandKind::Greet),
            r.resolves("get_system_info"@) == Some(CommandKind::GetSystemInfo),
            r.resolves("increment_counter"@) == Some(CommandKind::IncrementCounter),
            r.resolves("get_counter"@) == Some(CommandKind::GetCounter),
            r.resolves("reset_counter"@) == Some(CommandKind::ResetCounter),
            r.resolves("get_timestamp"@) == Some(CommandKind::GetTimestamp),
            r.resolves("get_mock_usb_devices"@) == Some(CommandKind::GetMockUsbDevices),
            forall|n: Seq<char>|
                r.resolves(n) is Some ==> (n == "greet"@ || n == "get_system_info"@
                    || n == "increment_counter"@ || n == "get_counter"@ || n == "reset_counter"@
                    || n == "get_timestamp"@ || n == "get_mock_usb_devices"@),
    {
        let mut reg = CommandRegistry::new();
        let ghost e0 = reg@;
        proof {
            reveal_strlit("greet");
            reveal_strlit("get_system_info");
            reveal_strlit("increment_counter");
            reveal_strlit("get_counter");
            reveal_strlit("reset_counter");
            reveal_strlit("get_timestamp");
            reveal_strlit("get_mock_usb_devices");
            assert("greet"@.len() == 5);
            assert("get_system_info"@.len() == 15);
            assert("increment_counter"@.len() == 17);
            assert("get_counter"@.len() == 11);
            assert("reset_counter"@.len() == 13);
            assert("get_timestamp"@.len() == 13);
            assert("get_mock_usb_devices"@.len() == 20);
            assert("reset_counter"@[0] == 'r');
            assert("get_timestamp"@[0] == 'g');
            assert forall|n: Seq<char>| #[trigger] resolve_in(e0, n) == None::<CommandKind> by {}
        }
        let _ = reg.register(String::from_str("greet"), CommandKind::Greet);
        let ghost e1 = reg@;
        proof {
            assert(e1 == e0.push(("greet"@, CommandKind::Greet)));
            assert forall|n: Seq<char>| #[trigger] resolve_in(e1, n) == (if "greet"@ == n {
                Some(CommandKind::Greet)
            } else {
                None::<CommandKind>
            }) by {
                lemma_resolve_push(e0, ("greet"@, CommandKind::Greet), n);
            }
        }
        let _ = reg.register(String::from_str("get_system_info"), CommandKind::GetSystemInfo);
        let ghost e2 = reg@;
        proof {
            assert(e2 == e1.push(("get_system_info"@, CommandKind::GetSystemInfo)));
            assert forall|n: Seq<char>| #[trigger] resolve_in(e2, n) == (if resolve_in(e1, n)
                is Some {
                resolve_in(e1, n)
            } else if "get_system_info"@ == n {
                Some(CommandKind::GetSystemInfo)
            } else {
                None::<CommandKind>
            }) by {
                lemma_resolve_push(e1, ("get_system_info"@, CommandKind::GetSystemInfo), n);
            }
        }
        let _ = reg.register(String::from_str("increment_counter"), CommandKind::IncrementCounter);
        let ghost e3 = reg@;
        proof {
            assert(e3 == e2.push(("increment_counter"@, CommandKind::IncrementCounter)));
            assert forall|n: Seq<char>| #[trigger] resolve_in(e3, n) == (if resolve_in(e2, n)
                is Some {
                resolve_in(e2, n)
            } else if "increment_counter"@ == n {
                Some(CommandKind::IncrementCounter)
            } else {
                None::<CommandKind>
            }) by {
                lemma_resolve_push(e2, ("increment_counter"@, CommandKind::IncrementCounter), n);
            }
        }
        let _ = reg.register(String::from_str("get_counter"), CommandKind::GetCounter);
        let ghost e4 = reg@;
        proof {
            assert(e4 == e3.push(("get_counter"@, CommandKind::GetCounter)));
            assert forall|n: Seq<char>| #[trigger] resolve_in(e4, n) == (if resolve_in(e3, n)
                is Some {
                resolve_in(e3, n)
            } else if "get_counter"@ == n {
                Some(CommandKind::GetCounter)
            } else {
                None::<CommandKind>
            }) by {
                lemma_resolve_push(e3, ("get_counter"@, CommandKind::GetCounter), n);
            }
        }
        let _ = reg.register(String::from_str("reset_counter"), CommandKind::ResetCounter);
        let ghost e5 = reg@;
        proof {
            assert(e5 == e4.push(("reset_counter"@, CommandKind::ResetCounter)));
            assert forall|n: Seq<char>| #[trigger] resolve_in(e5, n) == (if resolve_in(e4, n)
                is Some {
                resolve_in(e4, n)
            } else if "reset_counter"@ == n {
                Some(CommandKind::ResetCounter)
            } else {
                None::<CommandKind>
            }) by {
                lemma_resolve_push(e4, ("reset_counter"@, CommandKind::ResetCounter), n);
            }
        }
        let _ = reg.register(String::from_str("get_timestamp"), CommandKind::GetTimestamp);
        let ghost e6 = reg@;
        proof {
            assert(e6 == e5.push(("get_timestamp"@, CommandKind::GetTimestamp)));
            assert forall|n: Seq<char>| #[trigger] resolve_in(e6, n) == (if resolve_in(e5, n)
                is Some {
                resolve_in(e5, n)
            } else if "get_timestamp"@ == n {
                Some(CommandKind::GetTimestamp)
            } else {
                None::<CommandKind>
            }) by {
                lemma_resolve_push(e5, ("get_timestamp"@, CommandKind::GetTimestamp), n);
            }
        }
        let _ = reg.register(
            String::from_str("get_mock_usb_devices"),
            CommandKind::GetMockUsbDevices,
        );
        let ghost e7 = reg@;
        proof {
            assert(e7 == e6.push(("get_mock_usb_devices"@, CommandKind::GetMockUsbDevices)));
            assert forall|n: Seq<char>| #[trigger] resolve_in(e7, n) == (if resolve_in(e6, n)
                is Some {
                resolve_in(e6, n)
            } else if "get_mock_usb_devices"@ == n {
                Some(CommandKind::GetMockUsbDevices)
            } else {
                None::<CommandKind>
            }) by {
                lemma_resolve_push(e6, ("get_mock_usb_devices"@, CommandKind::GetMockUsbDevices), n);
            }
        }
        Dispatcher { registry: reg, state: SharedState::new(), info }
    }

    /// Resolves `name`, runs its handler on `args`, and returns the
    /// handler's reply or a structured error. An unknown name is
    /// rejected before anything runs; only the counter commands touch
    /// the shared counter; the registry and the host snapshot never
    /// change; a clock that cannot be read surfaces as a handler error
    /// rather than a panic.
    pub fn dispatch(&mut self, name: &str, args: &Args) -> (r: Result<Output, CommandError>)
        requires
            old(self).resolves(name@) == Some(CommandKind::IncrementCounter) ==> old(
                self,
            ).counter() < i32::MAX,
        ensures
            final(self).spec_info() == old(self).spec_info(),
            forall|n: Seq<char>| final(self).resolves(n) == old(self).resolves(n),
            final(self).counter() == (match old(self).resolves(name@) {
                Some(k) => counter_after(k, old(self).counter()),
                None => old(self).counter(),
            }),
            old(self).resolves(name@) is None ==> r == Err::<Output, CommandError>(
                CommandError::UnknownCommand,
            ),
            old(self).resolves(name@) == Some(CommandKind::Greet) ==> (match lookup_in(
                args@,
                "name"@,
            ) {
                Some(nm) => r matches Ok(o) && o matches Output::Text(s) && s@ == spec_greeting(
                    nm,
                ),
                None => r == Err::<Output, CommandError>(CommandError::InvalidArguments),
            }),
            old(self).resolves(name@) == Some(CommandKind::GetSystemInfo) ==> (r matches Ok(o)
                && o matches Output::Info(si) && si == old(self).spec_info()),
            old(self).resolves(name@) == Some(CommandKind::IncrementCounter) ==> (r matches Ok(
                o,
            ) && o matches Output::Int(v) && v as int == old(self).counter() + 1),
            old(self).resolves(name@) == Some(CommandKind::GetCounter) ==> (r matches Ok(o)
                && o matches Output::Int(v) && v as int == old(self).counter()),
            old(self).resolves(name@) == Some(CommandKind::ResetCounter) ==> (r matches Ok(o)
                && o matches Output::Int(v) && v == 0),
            old(self).resolves(name@) == Some(CommandKind::GetTimestamp) ==> (match r {
                Ok(o) => o matches Output::Text(s) && (exists|t: Timestamp|
                t.wf() && s@ == spec_timestamp_text(t)),
                Err(e) => e == CommandError::HandlerError,
            }),
            old(self).resolves(name@) == Some(CommandKind::GetMockUsbDevices) ==> (r matches Ok(
                o,
            ) && o matches Output::Devices(ds) && mock_devices_match(ds@)),
    {
        let kind = self.registry.resolve(name);
        match kind {
            None => Err(CommandError::UnknownCommand),
            Some(CommandKind::Greet) => match args.get("name") {
                Some(nm) => Ok(Output::Text(greet(nm.as_str()))),
                None => Err(CommandError::InvalidArguments),
            },
            Some(CommandKind::GetSystemInfo) => {
                let si = SystemInfo {
                    os: self.info.os.clone(),
                    arch: self.info.arch.clone(),
                    version: self.info.version.clone(),
                    hostname: self.info.hostname.clone(),
                };
                Ok(Output::Info(si))
            },
            Some(CommandKind::IncrementCounter) => Ok(Output::Int(self.state.increment())),
            Some(CommandKind::GetCounter) => Ok(Output::Int(self.state.get())),
            Some(CommandKind::ResetCounter) => Ok(Output::Int(self.state.reset())),
            Some(CommandKind::GetTimestamp) => match current_timestamp_text() {
                Some(s) => Ok(Output::Text(s)),
                None => Err(CommandError::HandlerError),
            },
            Some(CommandKind::GetMockUsbDevices) => Ok(Output::Devices(get_mock_usb_devices())),
        }
    }
}

} // verus!
