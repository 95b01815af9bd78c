use vstd::prelude::*;
use vstd::string::StringExecFns;

verus! {

/// The greeting built for a caller named `n`: the name is embedded
/// verbatim between a fixed prefix and suffix.
pub open spec fn spec_greeting(n: Seq<char>) -> Seq<char> {
    "Hello, "@ + n + "! Welcome to AcreetionOS Tauri proof-of-concept."@
}

/// Builds the greeting for `name`.
pub fn greet(name: &str) -> (r: String)
    ensures
        r@ == spec_greeting(name@),
{
    let s = String::from_str("Hello, ");
    let s = s.concat(name);
    let s = s.concat("! Welcome to AcreetionOS Tauri proof-of-concept.");
    s
}

/// The greeting contains the caller's name, exactly and verbatim: it
/// appears as the slice of the greeting that starts right after the
/// fixed prefix.
pub proof fn lemma_greeting_contains_name(n: Seq<char>)
    ensures
        spec_greeting(n).len() == n.len() + 55,
        spec_greeting(n).subrange(7, 7 + n.len() as int) == n,
{
    reveal_strlit("Hello, ");
    reveal_strlit("! Welcome to AcreetionOS Tauri proof-of-concept.");
    assert(spec_greeting(n).subrange(7, 7 + n.len() as int) =~= n);
}

/// A snapshot of the host environment: operating system and processor
/// architecture as the runtime reports them, this library's version,
/// and the machine's hostname.
#[derive(Debug)]
pub struct SystemInfo {
    pub os: String,
    pub arch: String,
    pub version: String,
    pub hostname: String,
}

/// Relies on whoami::hostname: looks the machine's hostname up. The
/// result depends on the environment, so nothing is promised of it.
#[verifier::external_body]
fn lookup_hostname() -> (r: Option<String>) {
    whoami::hostname().ok()
}

/// Assembles a system-information record from an operating-system name,
/// an architecture name, and a hostname lookup's outcome; a failed
/// lookup is reported as the fixed hostname "Unknown".
pub fn assemble_system_info(os: String, arch: String, hostname: Option<String>) -> (r: SystemInfo)
    ensures
        r.os == os,
        r.arch == arch,
        r.version@ == "0.1.0"@,
        hostname matches Some(h) ==> r.hostname == h,
        hostname is None ==> r.hostname@ == "Unknown"@,
{
    let host = match hostname {
        Some(h) => h,
        None => String::from_str("Unknown"),
    };
    SystemInfo { os, arch, version: String::from_str("0.1.0"), hostname: host }
}

/// Builds the system-information record for this machine: the caller
/// supplies the operating-system and architecture names, the hostname
/// comes from the environment (or "Unknown" when it cannot be read).
pub fn get_system_info(os: String, arch: String) -> (r: SystemInfo)
    ensures
        r.os == os,
        r.arch == arch,
        r.version@ == "0.1.0"@,
{
    let host = lookup_hostname();
    assemble_system_info(os, arch, host)
}

/// One record of the fixed demonstration device list.
#[derive(Debug)]
pub struct UsbDevice {
    pub name: String,
    pub port: String,
    pub vendor_id: String,
    pub product_id: String,
}

/// The fixed demonstration device list, field by field: three records,
/// each with a name, a port, a vendor id and a product id.
pub open spec fn mock_devices_match(ds: Seq<UsbDevice>) -> bool {
    &&& ds.len() == 3
    &&& ds[0].name@ == "Arduino Uno"@
    &&& ds[0].port@ == "/dev/tty.usbmodem14101"@
    &&& ds[0].vendor_id@ == "2341"@
    &&& ds[0].product_id@ == "0043"@
    &&& ds[1].name@ == "ESP32 DevKit"@
    &&& ds[1].port@ == "/dev/tty.usbserial-0001"@
    &&& ds[1].vendor_id@ == "10C4"@
    &&& ds[1].product_id@ == "EA60"@
    &&& ds[2].name@ == "Raspberry Pi Pico"@
    &&& ds[2].port@ == "/dev/tty.usbmodem14201"@
    &&& ds[2].vendor_id@ == "2E8A"@
    &&& ds[2].product_id@ == "0005"@
}

/// Returns the fixed demonstration device list.
pub fn get_mock_usb_devices() -> (r: Vec<UsbDevice>)
    ensures
        mock_devices_match(r@),
{
    let mut v: Vec<UsbDevice> = Vec::new();
    v.push(
        UsbDevice {
            name: String::from_str("Arduino Uno"),
            port: String::from_str("/dev/tty.usbmodem14101"),
            vendor_id: String::from_str("2341"),
            product_id: String::from_str("0043"),
        },
    );
    v.push(
        UsbDevice {
            name: String::from_str("ESP32 DevKit"),
            port: String::from_str("/dev/tty.usbserial-0001"),
            vendor_id: String::from_str("10C4"),
            product_id: String::from_str("EA60"),
        },
    );
    v.push(
        UsbDevice {
            name: String::from_str("Raspberry Pi Pico"),
            port: String::from_str("/dev/tty.usbmodem14201"),
            vendor_id: String::from_str("2E8A"),
            product_id: String::from_str("0005"),
        },
    );
    v
}

/// The device list is fixed data: any two sequences that match it agree
/// in length and in every field of every record.
pub proof fn lemma_mock_devices_deterministic(a: Seq<UsbDevice>, b: Seq<UsbDevice>)
    requires
        mock_devices_match(a),
        mock_devices_match(b),
    ensures
        a.len() == b.len(),
        forall|i: int|
            0 <= i < a.len() ==> a[i].name@ == b[i].name@ && a[i].port@ == b[i].port@
                && a[i].vendor_id@ == b[i].vendor_id@ && a[i].product_id@ == b[i].product_id@,
{
    assert forall|i: int|
        0 <= i < a.len() implies a[i].name@ == b[i].name@ && a[i].port@ == b[i].port@
        && a[i].vendor_id@ == b[i].vendor_id@ && a[i].product_id@ == b[i].product_id@ by {
        assert(i == 0 || i == 1 || i == 2);
    }
}

} // verus!
