//! Device addresses and the `adb` global options that select a device.
use vstd::prelude::*;
use crate::error::AdbError;
use crate::command::pair;
use crate::text::{decimal, u64_string};

verus! {

/// How a device is reached: a TCP/IP socket address (its canonical text,
/// `host:port` or `[v6]:port`), a serial name, or an adb transport id.
#[derive(Debug, Clone, PartialEq, Eq, Hash)]
pub enum AddressType {
    Sock(String),
    Name(String),
    Transport(u8),
}

/// The address of a device.
#[derive(Debug, Clone, PartialEq, Eq, Hash)]
pub struct DeviceAddress(pub AddressType);

/// A device, known by its address.
#[derive(Debug, Clone, PartialEq, Eq, Hash)]
pub struct Device(pub DeviceAddress);

/// How the newer client reaches a device: TCP/IP, transport id, or USB.
#[derive(Debug, Clone, PartialEq, Eq, Hash)]
pub enum ConnectionType {
    TcpIp(String),
    Transport(u8),
    USB,
}

/// The serial that `adb connect` and `adb disconnect` take for an address.
pub open spec fn address_serial(a: AddressType) -> Option<Seq<char>> {
    match a {
        AddressType::Sock(s) => Some(s@),
        AddressType::Name(n) => Some(n@),
        AddressType::Transport(_) => None,
    }
}

/// The address written out: `ip:…`, `name:…` or `transport_id:…`.
pub open spec fn address_text(a: AddressType) -> Seq<char> {
    match a {
        AddressType::Sock(s) => "ip:"@ + s@,
        AddressType::Name(n) => "name:"@ + n@,
        AddressType::Transport(id) => "transport_id:"@ + decimal(id as nat),
    }
}

/// The `adb` options that select a device.
pub open spec fn device_args(d: Device) -> Seq<Seq<char>> {
    match d.0.0 {
        AddressType::Sock(s) => seq!["-s"@, s@],
        AddressType::Name(n) => seq!["-s"@, n@],
        AddressType::Transport(id) => seq!["-t"@, decimal(id as nat)],
    }
}

/// The `adb` options that select a connection.
pub open spec fn connection_args(c: ConnectionType) -> Seq<Seq<char>> {
    match c {
        ConnectionType::TcpIp(s) => seq!["-s"@, s@],
        ConnectionType::Transport(id) => seq!["-t"@, decimal(id as nat)],
        ConnectionType::USB => seq!["-d"@],
    }
}

/// The connection written out: `ip:…`, `transport_id:…` or `usb`.
pub open spec fn connection_text(c: ConnectionType) -> Seq<char> {
    match c {
        ConnectionType::TcpIp(s) => "ip:"@ + s@,
        ConnectionType::Transport(id) => "transport_id:"@ + decimal(id as nat),
        ConnectionType::USB => "usb"@,
    }
}

/// The one field that the debug form of a connection shows: its name and
/// its value as written there.
pub open spec fn connection_field(c: ConnectionType) -> (Seq<char>, Seq<char>) {
    match c {
        ConnectionType::TcpIp(s) => ("ip"@, s@),
        ConnectionType::Transport(id) => ("transport_id"@, decimal(id as nat)),
        ConnectionType::USB => ("usb"@, "\"\""@),
    }
}

/// The debug form of a connection, a structure `AddressType` with one
/// field; `pretty` puts the field on a line of its own, indented by four
/// spaces and followed by a comma.
pub open spec fn connection_debug_text(c: ConnectionType, pretty: bool) -> Seq<char> {
    let (name, value) = connection_field(c);
    if pretty {
        "AddressType {\n    "@ + name + ": "@ + value + ",\n}"@
    } else {
        "AddressType { "@ + name + ": "@ + value + " }"@
    }
}

/// The debug form of an address: the socket address, the name or the
/// transport id, bare.
pub open spec fn address_debug_text(a: AddressType) -> Seq<char> {
    match a {
        AddressType::Sock(s) => s@,
        AddressType::Name(n) => n@,
        AddressType::Transport(id) => decimal(id as nat),
    }
}

fn cat(a: &str, b: &String) -> (s: String)
    ensures
        s@ == a@ + b@,
{
    let mut s = a.to_owned();
    s.append(b.as_str());
    s
}

fn cat3(a: &str, b: &String, c: &str) -> (s: String)
    ensures
        s@ == a@ + b@ + c@,
{
    let mut s = cat(a, b);
    s.append(c);
    s
}

/// An equal address.
pub fn copy_address(a: &AddressType) -> (r: AddressType)
    ensures
        r == *a,
{
    match a {
        AddressType::Sock(s) => AddressType::Sock(s.clone()),
        AddressType::Name(n) => AddressType::Name(n.clone()),
        AddressType::Transport(id) => AddressType::Transport(*id),
    }
}

impl DeviceAddress {
    /// The kind of the address.
    pub fn address_type(&self) -> (t: &AddressType)
        ensures
            *t == self.0,
    {
        &self.0
    }

    /// The serial `adb connect` takes: the socket address or the name; none
    /// for a transport id.
    pub fn serial(&self) -> (r: Option<String>)
        ensures
            r.is_some() == (address_serial(self.0) is Some),
            r matches Some(s) ==> Some(s@) == address_serial(self.0),
    {
        match &self.0 {
            AddressType::Sock(s) => Some(s.clone()),
            AddressType::Name(n) => Some(n.clone()),
            AddressType::Transport(_) => None,
        }
    }

    /// The transport id, when the address is one.
    pub fn transport_id(&self) -> (r: Option<u8>)
        ensures
            r == (match self.0 {
                AddressType::Transport(id) => Some(id),
                _ => None,
            }),
    {
        match self.0 {
            AddressType::Transport(id) => Some(id),
            _ => None,
        }
    }

    /// The address of a device known by its serial name.
    pub fn from_serial(input: &str) -> (r: Result<DeviceAddress, AdbError>)
        ensures
            r matches Ok(a) && a.0 matches AddressType::Name(n) && n@ == input@,
    {
        Ok(DeviceAddress(AddressType::Name(input.to_owned())))
    }

    /// The address of a device known by its transport id.
    pub fn from_transport_id(id: u8) -> (r: Result<DeviceAddress, AdbError>)
        ensures
            r == Ok::<DeviceAddress, AdbError>(DeviceAddress(AddressType::Transport(id))),
    {
        Ok(DeviceAddress(AddressType::Transport(id)))
    }

    /// The address written out: `ip:…`, `name:…` or `transport_id:…`.
    pub fn to_string(&self) -> (s: String)
        ensures
            s@ == address_text(self.0),
    {
        match &self.0 {
            AddressType::Sock(s) => cat("ip:", s),
            AddressType::Name(n) => cat("name:", n),
            AddressType::Transport(id) => {
                let d = u64_string(*id as u64);
                cat("transport_id:", &d)
            },
        }
    }

    /// The debug form of the address: the socket address, the name or the
    /// transport id, bare.
    pub fn debug_string(&self) -> (s: String)
        ensures
            s@ == address_debug_text(self.0),
    {
        match &self.0 {
            AddressType::Sock(s) => s.clone(),
            AddressType::Name(n) => n.clone(),
            AddressType::Transport(id) => u64_string(*id as u64),
        }
    }
}

impl Device {
    /// A device at the given address.
    pub fn try_from_address(value: &DeviceAddress) -> (r: Result<Device, AdbError>)
        ensures
            r matches Ok(d) && d.0 == *value,
    {
        Ok(Device(DeviceAddress(copy_address(&value.0))))
    }

    /// A device known by its serial name.
    pub fn try_from_serial(input: &str) -> (r: Result<Device, AdbError>)
        ensures
            r matches Ok(d) && d.0.0 matches AddressType::Name(n) && n@ == input@,
    {
        match DeviceAddress::from_serial(input) {
            Ok(a) => Ok(Device(a)),
            Err(e) => Err(e),
        }
    }

    /// A device known by its transport id.
    pub fn try_from_transport_id(id: u8) -> (r: Result<Device, AdbError>)
        ensures
            r == Ok::<Device, AdbError>(Device(DeviceAddress(AddressType::Transport(id)))),
    {
        match DeviceAddress::from_transport_id(id) {
            Ok(a) => Ok(Device(a)),
            Err(e) => Err(e),
        }
    }

    /// A device at a socket address given in its canonical text.
    pub fn from_socket_text(text: &str) -> (d: Device)
        ensures
            d.0.0 matches AddressType::Sock(s) && s@ == text@,
    {
        Device(DeviceAddress(AddressType::Sock(text.to_owned())))
    }

    /// The `adb` options that select this device: `-s <serial>` or `-t <id>`.
    pub fn args(&self) -> (v: Vec<String>)
        ensures
            v.deep_view() == device_args(*self),
    {
        match &self.0.0 {
            AddressType::Sock(s) => pair("-s", s.clone()),
            AddressType::Name(n) => pair("-s", n.clone()),
            AddressType::Transport(id) => pair("-t", u64_string(*id as u64)),
        }
    }

    /// An equal device.
    pub fn copy(other: &Device) -> (d: Device)
        ensures
            d == *other,
    {
        Device(DeviceAddress(copy_address(&other.0.0)))
    }

    /// The device written out, as its address is.
    pub fn to_string(&self) -> (s: String)
        ensures
            s@ == address_text(self.0.0),
    {
        self.0.to_string()
    }

    /// The debug form of the device: `Device{address=…}` around the debug
    /// form of its address.
    pub fn debug_string(&self) -> (s: String)
        ensures
            s@ == "Device{address="@ + address_debug_text(self.0.0) + "}"@,
    {
        let a = self.0.debug_string();
        cat3("Device{address=", &a, "}")
    }
}

impl ConnectionType {
    /// The `adb` options that select the connection: `-s <addr>`, `-t <id>` or `-d`.
    pub fn values(&self) -> (v: Vec<String>)
        ensures
            v.deep_view() == connection_args(*self),
    {
        match self {
            ConnectionType::TcpIp(s) => pair("-s", s.clone()),
            ConnectionType::Transport(id) => pair("-t", u64_string(*id as u64)),
            ConnectionType::USB => {
                let mut v: Vec<String> = Vec::new();
                v.push("-d".to_owned());
                assert(v.deep_view() =~= seq!["-d"@]);
                v
            },
        }
    }

    /// The connection written out: `ip:…`, `transport_id:…` or `usb`.
    pub fn to_string(&self) -> (s: String)
        ensures
            s@ == connection_text(*self),
    {
        match self {
            ConnectionType::TcpIp(s) => cat("ip:", s),
            ConnectionType::Transport(id) => {
                let d = u64_string(*id as u64);
                cat("transport_id:", &d)
            },
            ConnectionType::USB => "usb".to_owned(),
        }
    }

    /// The debug form of the connection, a structure `AddressType` with one
    /// field (`ip`, `transport_id` or `usb`); `pretty` gives the multi-line
    /// form.
    pub fn debug_string(&self, pretty: bool) -> (s: String)
        ensures
            s@ == connection_debug_text(*self, pretty),
    {
        let (name, value): (&str, String) = match self {
            ConnectionType::TcpIp(s) => ("ip", s.clone()),
            ConnectionType::Transport(id) => ("transport_id", u64_string(*id as u64)),
            ConnectionType::USB => ("usb", "\"\"".to_owned()),
        };
        let head: &str = if pretty { "AddressType {\n    " } else { "AddressType { " };
        let tail: &str = if pretty { ",\n}" } else { " }" };
        let mut s = head.to_owned();
        s.append(name);
        s.append(": ");
        s.append(value.as_str());
        s.append(tail);
        s
    }
}

} // verus!
