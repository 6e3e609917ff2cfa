//! Scanning a network for `adb` devices: the settings of a scan and the
//! decisions of probing one address.
use vstd::prelude::*;
use crate::device::{ConnectionType, connection_text};
use crate::text::{decimal, u64_string};

verus! {

/// Milliseconds a TCP connection attempt may take by default.
pub const TCP_TIMEOUT_MS: u64 = 200;

/// Milliseconds an `adb connect` may take by default.
pub const ADB_TIMEOUT_MS: u64 = 100;

/// The settings of a scan.
#[derive(Clone, Copy, Debug, PartialEq, Eq)]
pub struct Scanner {
    pub tcp_timeout_ms: u64,
    pub adb_timeout_ms: u64,
    pub debug: bool,
}

/// A device found by a scan.
pub struct ClientResult {
    /// How the device was reached.
    pub conn: ConnectionType,
    /// `persist.sys.stb.name`.
    pub product: Option<String>,
    /// `ro.product.model`.
    pub model: Option<String>,
    /// `ro.product.device`.
    pub device: Option<String>,
    /// `ro.build.version.sdk`.
    pub version: Option<String>,
    /// The Ethernet MAC address, read when the device runs adb as root.
    pub mac: Option<String>,
}

impl Scanner {
    /// A scan with these settings.
    pub fn new(tcp_timeout_ms: u64, adb_timeout_ms: u64, debug: bool) -> (s: Scanner)
        ensures
            s == (Scanner { tcp_timeout_ms, adb_timeout_ms, debug }),
    {
        Scanner { tcp_timeout_ms, adb_timeout_ms, debug }
    }

    /// The default scan: [`TCP_TIMEOUT_MS`], [`ADB_TIMEOUT_MS`], with debug output.
    pub fn default() -> (s: Scanner)
        ensures
            s == (Scanner { tcp_timeout_ms: TCP_TIMEOUT_MS, adb_timeout_ms: ADB_TIMEOUT_MS, debug: true }),
    {
        Scanner::new(TCP_TIMEOUT_MS, ADB_TIMEOUT_MS, true)
    }

    /// The same scan with debug output on or off.
    pub fn with_debug(self, debug: bool) -> (s: Scanner)
        ensures
            s == (Scanner { debug, ..self }),
    {
        Scanner { debug, ..self }
    }

    /// The same scan with another TCP timeout.
    pub fn with_tcp_timeout(self, timeout_ms: u64) -> (s: Scanner)
        ensures
            s == (Scanner { tcp_timeout_ms: timeout_ms, ..self }),
    {
        Scanner { tcp_timeout_ms: timeout_ms, ..self }
    }

    /// The same scan with another `adb connect` timeout.
    pub fn with_adb_timeout(self, timeout_ms: u64) -> (s: Scanner)
        ensures
            s == (Scanner { adb_timeout_ms: timeout_ms, ..self }),
    {
        Scanner { adb_timeout_ms: timeout_ms, ..self }
    }

    /// The address probed for an IPv4 host: `a.b.c.d:5555`.
    pub fn address_of(&self, ip: (u8, u8, u8, u8)) -> (s: String)
        ensures
            s@ == decimal(ip.0 as nat) + "."@ + decimal(ip.1 as nat) + "."@ + decimal(ip.2 as nat) + "."@
                + decimal(ip.3 as nat) + ":5555"@,
    {
        let mut s = u64_string(ip.0 as u64);
        s.append(".");
        s.append(u64_string(ip.1 as u64).as_str());
        s.append(".");
        s.append(u64_string(ip.2 as u64).as_str());
        s.append(".");
        s.append(u64_string(ip.3 as u64).as_str());
        s.append(":5555");
        s
    }
}

/// What probing one address has learned so far.
pub enum ScanEvent {
    /// Nothing has run yet.
    Start,
    /// The TCP connection was attempted: the peer's address (its text), or
    /// none when the attempt or the peer lookup failed.
    Tcp(Option<String>),
    /// `adb connect` to the peer ran (see `AdbClient::connect`): whether it
    /// succeeded.
    Adb(String, bool),
    /// `adb root` ran (see `AdbClient::root`): whether the client runs as
    /// root (false when that failed).
    Root(String, bool),
    /// The properties were read, each `None` when reading it failed, and
    /// the MAC address when it was asked for.
    Read(String, DeviceInfo),
}

/// What was read of a device that answered.
pub struct DeviceInfo {
    pub version: Option<String>,
    pub model: Option<String>,
    pub device: Option<String>,
    pub product: Option<String>,
    pub mac: Option<String>,
}

/// What probing one address asks for next.
pub enum ScanAction {
    /// Open a TCP connection to the address, given this many milliseconds,
    /// and report the peer as `Tcp`.
    ConnectTcp(u64),
    /// Run `adb connect` on the peer, given this many milliseconds, and
    /// report `Adb`.
    ConnectAdb(String, u64),
    /// Run `adb root` on the peer and report `Root`.
    Root(String),
    /// Read `ro.build.version.sdk`, `ro.product.model`, `ro.product.device`,
    /// `persist.sys.stb.name`, and the MAC address when asked (`true`), then
    /// disconnect and report `Read`.
    Read(String, bool),
    /// The probe is over: the device found, if any.
    Done(Option<ClientResult>),
}

/// Whether a result stands for the given peer and nothing more.
pub open spec fn bare_result(r: ClientResult, peer: Seq<char>) -> bool {
    r.conn matches ConnectionType::TcpIp(a) && a@ == peer && r.product is None && r.model is None && r.device
        is None && r.version is None && r.mac is None
}

impl ClientResult {
    /// A device known only by its address.
    pub fn new(addr: String) -> (r: ClientResult)
        ensures
            r.conn == ConnectionType::TcpIp(addr),
            r.product is None && r.model is None && r.device is None && r.version is None && r.mac is None,
    {
        ClientResult { conn: ConnectionType::TcpIp(addr), product: None, model: None, device: None, version: None, mac: None }
    }
}

impl Scanner {
    /// One step of probing an address: TCP first; a peer that does not
    /// accept `adb connect` is still a result, known by its address; one
    /// that does is rooted if it can be, read, and disconnected. The MAC
    /// address is read only when the client runs as root.
    pub fn connect_step(&self, event: ScanEvent) -> (a: ScanAction)
        ensures
            match event {
                ScanEvent::Start => a == ScanAction::ConnectTcp(self.tcp_timeout_ms),
                ScanEvent::Tcp(None) => a matches ScanAction::Done(None),
                ScanEvent::Tcp(Some(p)) => a == ScanAction::ConnectAdb(p, self.adb_timeout_ms),
                ScanEvent::Adb(p, false) => a matches ScanAction::Done(Some(r)) && bare_result(r, p@),
                ScanEvent::Adb(p, true) => a == ScanAction::Root(p),
                ScanEvent::Root(p, root) => a == ScanAction::Read(p, root),
                ScanEvent::Read(p, info) => a matches ScanAction::Done(Some(r)) && r.conn == ConnectionType::TcpIp(p)
                    && r.product == info.product && r.model == info.model && r.device == info.device && r.version
                    == info.version && r.mac == info.mac,
            },
    {
        match event {
            ScanEvent::Start => ScanAction::ConnectTcp(self.tcp_timeout_ms),
            ScanEvent::Tcp(None) => ScanAction::Done(None),
            ScanEvent::Tcp(Some(p)) => ScanAction::ConnectAdb(p, self.adb_timeout_ms),
            ScanEvent::Adb(p, connected) => {
                if connected {
                    ScanAction::Root(p)
                } else {
                    ScanAction::Done(Some(ClientResult::new(p)))
                }
            },
            ScanEvent::Root(p, root) => ScanAction::Read(p, root),
            ScanEvent::Read(p, info) => ScanAction::Done(
                Some(
                    ClientResult {
                        conn: ConnectionType::TcpIp(p),
                        product: info.product,
                        model: info.model,
                        device: info.device,
                        version: info.version,
                        mac: info.mac,
                    },
                ),
            ),
        }
    }
}

/// The labelled fields of a result that are known, in order.
pub open spec fn result_fields(r: ClientResult) -> Seq<Seq<char>> {
    (match r.product {
        Some(s) => seq!["product:"@ + s@],
        None => seq![],
    }) + (match r.model {
        Some(s) => seq!["model:"@ + s@],
        None => seq![],
    }) + (match r.device {
        Some(s) => seq!["device:"@ + s@],
        None => seq![],
    }) + (match r.mac {
        Some(s) => seq!["mac:"@ + s@],
        None => seq![],
    }) + (match r.version {
        Some(s) => seq!["version:"@ + s@],
        None => seq![],
    })
}

fn push_labelled(out: Vec<String>, label: &str, v: &Option<String>) -> (r: Vec<String>)
    ensures
        r.deep_view() == out.deep_view() + match *v {
            Some(s) => seq![label@ + s@],
            None => seq![],
        },
{
    let ghost o = out.deep_view();
    match v {
        Some(s) => {
            let mut w = label.to_owned();
            w.append(s.as_str());
            let ghost wv = w@;
            let r = crate::command::push_str(out, w);
            assert(r.deep_view() =~= o + seq![wv]);
            r
        },
        None => {
            assert(out.deep_view() =~= o + Seq::<Seq<char>>::empty());
            out
        },
    }
}

impl ClientResult {
    /// The result written out: `<connection>    device <fields>`, the
    /// known fields as `label:value` joined with spaces.
    pub fn to_string(&self) -> (s: String)
        ensures
            s@ == connection_text(self.conn) + "    device "@ + crate::intent::join_with(
                result_fields(*self),
                " "@,
            ),
    {
        let mut v: Vec<String> = Vec::new();
        assert(v.deep_view() =~= Seq::<Seq<char>>::empty());
        v = push_labelled(v, "product:", &self.product);
        v = push_labelled(v, "model:", &self.model);
        v = push_labelled(v, "device:", &self.device);
        v = push_labelled(v, "mac:", &self.mac);
        v = push_labelled(v, "version:", &self.version);
        assert(v.deep_view() =~= result_fields(*self));
        let mut s = self.conn.to_string();
        s.append("    device ");
        let fields = crate::intent::join_words(&v, " ");
        s.append(fields.as_str());
        s
    }
}

} // verus!
