//! What `adb devices -l` and `adb --version` print, read.
use vstd::prelude::*;
use crate::client::Adb;
use crate::device::ConnectionType;
use crate::error::{AdbError, Result};
use crate::text::{
    is_ws, ws_end, occurs_at, utf8_text, split_lines, parse_in_range, skip_spaces, matches_at,
    string_from, parse_int, trim, lines, rustix_text,
};
use crate::outside::{chars_of, str_from_utf8};

verus! {

/// The first position at or after `i` that holds white space, or the end.
pub open spec fn nonws_end(s: Seq<char>, i: int) -> int
    decreases s.len() - i,
{
    if 0 <= i < s.len() && !is_ws(s[i]) {
        nonws_end(s, i + 1)
    } else {
        i
    }
}

/// A field `<label><value>` at `p` whose value is a nonempty run without
/// white space: the bounds of the value.
pub open spec fn field_at(l: Seq<char>, label: Seq<char>, p: int) -> Option<(int, int)> {
    let s = p + label.len();
    let e = nonws_end(l, s);
    if occurs_at(l, label, p) && e > s {
        Some((s, e))
    } else {
        None
    }
}

/// The fields after the state of a device line, from `p`:
/// ` product:<p>`, one white space, `model:<m>`, one white space,
/// `device:<d>`, one white space, `transport_id:<t>`; their bounds.
pub open spec fn device_tail(l: Seq<char>, p: int) -> Option<(int, int, int, int, int, int, int, int)> {
    match field_at(l, " product:"@, p) {
        Some(pr) => if pr.1 < l.len() && is_ws(l[pr.1]) {
            match field_at(l, "model:"@, pr.1 + 1) {
                Some(mo) => if mo.1 < l.len() && is_ws(l[mo.1]) {
                    match field_at(l, "device:"@, mo.1 + 1) {
                        Some(de) => if de.1 < l.len() && is_ws(l[de.1]) {
                            match field_at(l, "transport_id:"@, de.1 + 1) {
                                Some(tr) => Some((pr.0, pr.1, mo.0, mo.1, de.0, de.1, tr.0, tr.1)),
                                None => None,
                            }
                        } else {
                            None
                        },
                        None => None,
                    }
                } else {
                    None
                },
                None => None,
            }
        } else {
            None
        },
        None => None,
    }
}

/// A device line matched from `i`: a serial without white space, white
/// space, `device` or `offline`, then [`device_tail`]. Where the serial
/// ends, whether the state is `device`, and the fields.
pub open spec fn device_at(l: Seq<char>, i: int) -> Option<(int, bool, (int, int, int, int, int, int, int, int))> {
    let a = nonws_end(l, i);
    let b = ws_end(l, a);
    if 0 <= i < a && b > a {
        if occurs_at(l, "device"@, b) && device_tail(l, b + 6) is Some {
            Some((a, true, device_tail(l, b + 6)->0))
        } else if occurs_at(l, "offline"@, b) && device_tail(l, b + 7) is Some {
            Some((a, false, device_tail(l, b + 7)->0))
        } else {
            None
        }
    } else {
        None
    }
}

/// The first position at or after `i` from which [`device_at`] matches, or -1.
pub open spec fn first_device(l: Seq<char>, i: int) -> int
    decreases l.len() - i,
{
    if i < 0 || i >= l.len() {
        -1
    } else if device_at(l, i) is Some {
        i
    } else {
        first_device(l, i + 1)
    }
}

/// The fields of the device that a line of `adb devices -l` describes:
/// serial, product, model, device, whether connected, and the transport id
/// as written.
pub open spec fn device_line(l: Seq<char>) -> Option<(Seq<char>, Seq<char>, Seq<char>, Seq<char>, bool, Seq<char>)> {
    let i = first_device(l, 0);
    if i < 0 {
        None
    } else {
        let m = device_at(l, i)->0;
        let t = m.2;
        Some(
            (
                l.subrange(i, m.0),
                l.subrange(t.0, t.1),
                l.subrange(t.2, t.3),
                l.subrange(t.4, t.5),
                m.1,
                l.subrange(t.6, t.7),
            ),
        )
    }
}

/// A device of `adb devices -l`.
#[derive(Debug, Clone, PartialEq, Eq)]
pub struct DeviceEntry {
    pub name: String,
    pub product: String,
    pub model: String,
    pub device: String,
    pub connected: bool,
    pub transport_id: u8,
}

impl DeviceEntry {
    /// How the device is reached: over TCP/IP when its name writes a socket
    /// address, else by its transport id. `socket` is that reading of the
    /// name (the socket address in its canonical text), none when the name
    /// is no socket address.
    pub fn addr(&self, socket: Option<String>) -> (c: ConnectionType)
        ensures
            match socket {
                Some(a) => c == ConnectionType::TcpIp(a),
                None => c == ConnectionType::Transport(self.transport_id),
            },
    {
        match socket {
            Some(a) => ConnectionType::TcpIp(a),
            None => ConnectionType::Transport(self.transport_id),
        }
    }
}

/// The fields of an entry as texts.
pub open spec fn entry_view(e: DeviceEntry) -> (Seq<char>, Seq<char>, Seq<char>, Seq<char>, bool, u8) {
    (e.name@, e.product@, e.model@, e.device@, e.connected, e.transport_id)
}

/// What reading the first `n` lines gives: the entries of the device
/// lines in order; a line that is not UTF-8 is `InvalidData`, and a
/// transport id that is no `u8` is `ParseIntError`, the first such line
/// deciding.
pub open spec fn devices_upto(ls: Seq<Seq<u8>>, n: int) -> core::result::Result<
    Seq<(Seq<char>, Seq<char>, Seq<char>, Seq<char>, bool, u8)>,
    AdbError,
>
    decreases n,
{
    if n <= 0 {
        Ok(seq![])
    } else {
        match devices_upto(ls, n - 1) {
            Err(e) => Err(e),
            Ok(prev) => match utf8_text(ls[n - 1]) {
                None => Err(AdbError::InvalidData),
                Some(t) => match device_line(t) {
                    None => Ok(prev),
                    Some(d) => match parse_in_range(d.5, false, 0, 255) {
                        Some(id) => Ok(prev.push((d.0, d.1, d.2, d.3, d.4, id as u8))),
                        None => Err(AdbError::ParseIntError),
                    },
                },
            },
        }
    }
}

/// The devices that `adb devices -l` listed; see [`devices_upto`].
pub open spec fn devices_of(b: Seq<u8>) -> core::result::Result<
    Seq<(Seq<char>, Seq<char>, Seq<char>, Seq<char>, bool, u8)>,
    AdbError,
> {
    let ls = split_lines(b, 10u8, 13u8);
    devices_upto(ls, ls.len() as int)
}

proof fn lemma_devices_err(ls: Seq<Seq<u8>>, n: int, m: int)
    requires
        0 <= n <= m,
        devices_upto(ls, n) is Err,
    ensures
        devices_upto(ls, m) == devices_upto(ls, n),
    decreases m - n,
{
    if m > n {
        lemma_devices_err(ls, n, m - 1);
    }
}

/// [`nonws_end`] of `s`.
pub fn nonws_end_of(s: &[char], i: usize) -> (r: usize)
    requires
        i <= s@.len(),
    ensures
        r == nonws_end(s@, i as int),
        i <= r <= s@.len(),
{
    nonws_end_at(s, i)
}

fn nonws_end_at(s: &[char], i: usize) -> (r: usize)
    requires
        i <= s@.len(),
    ensures
        r == nonws_end(s@, i as int),
        i <= r <= s@.len(),
{
    let mut j = i;
    while j < s.len() && !crate::text::is_whitespace(s[j])
        invariant
            i <= j <= s@.len(),
            nonws_end(s@, j as int) == nonws_end(s@, i as int),
        decreases s@.len() - j,
    {
        j = j + 1;
    }
    j
}

fn field(l: &[char], label: &[char], p: usize) -> (r: Option<(usize, usize)>)
    requires
        p <= l@.len(),
        l@.len() == l.len(),
    ensures
        match r {
            Some(f) => field_at(l@, label@, p as int) == Some((f.0 as int, f.1 as int)) && f.0 < f.1 <= l@.len(),
            None => field_at(l@, label@, p as int) is None,
        },
{
    if !matches_at(l, label, p) {
        return None;
    }
    let s = p + label.len();
    let e = nonws_end_at(l, s);
    if e > s {
        Some((s, e))
    } else {
        None
    }
}

fn tail(l: &[char], p: usize, labels: &Vec<Vec<char>>) -> (r: Option<(usize, usize, usize, usize, usize, usize, usize, usize)>)
    requires
        p <= l@.len(),
        l@.len() == l.len(),
        labels@.len() == 4,
        labels@[0]@ == " product:"@,
        labels@[1]@ == "model:"@,
        labels@[2]@ == "device:"@,
        labels@[3]@ == "transport_id:"@,
    ensures
        match r {
            Some(t) => device_tail(l@, p as int) == Some(
                (
                    t.0 as int,
                    t.1 as int,
                    t.2 as int,
                    t.3 as int,
                    t.4 as int,
                    t.5 as int,
                    t.6 as int,
                    t.7 as int,
                ),
            ) && t.0 <= t.1 && t.2 <= t.3 && t.4 <= t.5 && t.6 <= t.7 <= l@.len() && t.1 <= l@.len() && t.3
                <= l@.len() && t.5 <= l@.len(),
            None => device_tail(l@, p as int) is None,
        },
{
    let pr = match field(l, labels[0].as_slice(), p) {
        Some(f) => f,
        None => {
            return None;
        },
    };
    if !(pr.1 < l.len() && crate::text::is_whitespace(l[pr.1])) {
        return None;
    }
    let mo = match field(l, labels[1].as_slice(), pr.1 + 1) {
        Some(f) => f,
        None => {
            return None;
        },
    };
    if !(mo.1 < l.len() && crate::text::is_whitespace(l[mo.1])) {
        return None;
    }
    let de = match field(l, labels[2].as_slice(), mo.1 + 1) {
        Some(f) => f,
        None => {
            return None;
        },
    };
    if !(de.1 < l.len() && crate::text::is_whitespace(l[de.1])) {
        return None;
    }
    let tr = match field(l, labels[3].as_slice(), de.1 + 1) {
        Some(f) => f,
        None => {
            return None;
        },
    };
    Some((pr.0, pr.1, mo.0, mo.1, de.0, de.1, tr.0, tr.1))
}

fn labels() -> (v: Vec<Vec<char>>)
    ensures
        v@.len() == 4,
        v@[0]@ == " product:"@,
        v@[1]@ == "model:"@,
        v@[2]@ == "device:"@,
        v@[3]@ == "transport_id:"@,
{
    let mut v: Vec<Vec<char>> = Vec::new();
    v.push(chars_of(" product:"));
    v.push(chars_of("model:"));
    v.push(chars_of("device:"));
    v.push(chars_of("transport_id:"));
    v
}

fn device_from(l: &[char], labels: &Vec<Vec<char>>) -> (r: Option<DeviceFieldsAt>)
    requires
        l@.len() == l.len(),
        labels@.len() == 4,
        labels@[0]@ == " product:"@,
        labels@[1]@ == "model:"@,
        labels@[2]@ == "device:"@,
        labels@[3]@ == "transport_id:"@,
    ensures
        match r {
            Some(f) => device_line(l@) == Some(
                (
                    l@.subrange(f.i as int, f.a as int),
                    l@.subrange(f.t.0 as int, f.t.1 as int),
                    l@.subrange(f.t.2 as int, f.t.3 as int),
                    l@.subrange(f.t.4 as int, f.t.5 as int),
                    f.connected,
                    l@.subrange(f.t.6 as int, f.t.7 as int),
                ),
            ) && f.i <= f.a <= l@.len() && f.t.0 <= f.t.1 && f.t.2 <= f.t.3 && f.t.4 <= f.t.5 && f.t.6 <= f.t.7
                <= l@.len() && f.t.1 <= l@.len() && f.t.3 <= l@.len() && f.t.5 <= l@.len(),
            None => device_line(l@) is None,
        },
{
    let dev = chars_of("device");
    let off = chars_of("offline");
    proof {
        reveal_strlit("device");
        reveal_strlit("offline");
    }
    let mut i: usize = 0;
    while i < l.len()
        invariant
            i <= l@.len(),
            l@.len() == l.len(),
            dev@ == "device"@,
            off@ == "offline"@,
            labels@.len() == 4,
            labels@[0]@ == " product:"@,
            labels@[1]@ == "model:"@,
            labels@[2]@ == "device:"@,
            labels@[3]@ == "transport_id:"@,
            first_device(l@, i as int) == first_device(l@, 0),
        decreases l@.len() - i,
    {
        proof {
            reveal_strlit("device");
            reveal_strlit("offline");
        }
        let a = nonws_end_at(l, i);
        let b = skip_spaces(l, a);
        if i < a && b > a {
            if matches_at(l, dev.as_slice(), b) {
                match tail(l, b + 6, labels) {
                    Some(t) => {
                        return Some(DeviceFieldsAt { i, a, connected: true, t });
                    },
                    None => {},
                }
            }
            if matches_at(l, off.as_slice(), b) {
                match tail(l, b + 7, labels) {
                    Some(t) => {
                        proof {
                            if crate::text::occurs_at(l@, "device"@, b as int) {
                                assert(l@.subrange(b as int, b + 6)[1] == l@[b + 1]);
                                assert(l@.subrange(b as int, b + 7)[1] == l@[b + 1]);
                                assert(l@[b + 1] == 'e');
                                assert(l@[b + 1] == 'f');
                            }
                        }
                        return Some(DeviceFieldsAt { i, a, connected: false, t });
                    },
                    None => {},
                }
            }
        }
        i = i + 1;
    }
    None
}

/// Where the fields of a device line stand.
struct DeviceFieldsAt {
    i: usize,
    a: usize,
    connected: bool,
    t: (usize, usize, usize, usize, usize, usize, usize, usize),
}

impl Adb {
    /// The devices that `adb devices -l` printed; see [`devices_of`].
    pub fn list_devices(&self, stdout: &Vec<u8>) -> (r: Result<Vec<DeviceEntry>>)
        ensures
            match devices_of(stdout@) {
                Ok(ds) => r matches Ok(v) && v@.len() == ds.len() && forall|i: int|
                    0 <= i < v@.len() ==> entry_view(#[trigger] v@[i]) == ds[i],
                Err(e) => r == Err::<Vec<DeviceEntry>, AdbError>(e),
            },
    {
        let ls = crate::text::split_byte_lines(stdout.as_slice());
        let ghost all = ls.deep_view();
        let lab = labels();
        let mut out: Vec<DeviceEntry> = Vec::new();
        let mut n: usize = 0;
        while n < ls.len()
            invariant
                n <= ls@.len(),
                all == ls.deep_view(),
                all == split_lines(stdout@, 10u8, 13u8),
                lab@.len() == 4,
                lab@[0]@ == " product:"@,
                lab@[1]@ == "model:"@,
                lab@[2]@ == "device:"@,
                lab@[3]@ == "transport_id:"@,
                devices_upto(all, n as int) matches Ok(ds) && ds.len() == out@.len() && forall|i: int|
                    0 <= i < out@.len() ==> entry_view(#[trigger] out@[i]) == ds[i],
            decreases ls@.len() - n,
        {
            assert(ls@[n as int]@ == all[n as int]);
            let ghost prev = devices_upto(all, n as int)->Ok_0;
            match str_from_utf8(ls[n].as_slice()) {
                None => {
                    proof {
                        lemma_devices_err(all, n + 1, all.len() as int);
                    }
                    return Err(AdbError::InvalidData);
                },
                Some(text) => {
                    let cs = chars_of(text);
                    match device_from(cs.as_slice(), &lab) {
                        None => {},
                        Some(f) => {
                            let tid = copy_tid(cs.as_slice(), f.t.6, f.t.7);
                            match parse_int(tid.as_slice(), false, 0, 255) {
                                None => {
                                    proof {
                                        lemma_devices_err(all, n + 1, all.len() as int);
                                    }
                                    return Err(AdbError::ParseIntError);
                                },
                                Some(id) => {
                                    let e = DeviceEntry {
                                        name: string_from(cs.as_slice(), f.i, f.a),
                                        product: string_from(cs.as_slice(), f.t.0, f.t.1),
                                        model: string_from(cs.as_slice(), f.t.2, f.t.3),
                                        device: string_from(cs.as_slice(), f.t.4, f.t.5),
                                        connected: f.connected,
                                        transport_id: id as u8,
                                    };
                                    out.push(e);
                                },
                            }
                        },
                    }
                },
            }
            n = n + 1;
        }
        Ok(out)
    }
}

fn copy_tid(s: &[char], a: usize, b: usize) -> (r: Vec<char>)
    requires
        a <= b <= s@.len(),
    ensures
        r@ == s@.subrange(a as int, b as int),
{
    crate::text::copy_chars(s, a, b)
}

} // verus!

verus! {

/// A character of a version number: a decimal digit, `+`, `.` or `-`.
pub open spec fn version_char(c: char) -> bool {
    crate::outside::decimal_char(c) || c == '+' || c == '.' || c == '-'
}

/// The version that a line `Version <number>` gives
/// (`^Version\s+(?P<version>[\d+\.-]+)$`).
pub open spec fn version_line(l: Seq<char>) -> Option<Seq<char>> {
    let w = ws_end(l, 7);
    if occurs_at(l, "Version"@, 0) && w > 7 && w < l.len() && forall|j: int| w <= j < l.len() ==> version_char(
        #[trigger] l[j],
    ) {
        Some(l.subrange(w, l.len() as int))
    } else {
        None
    }
}

/// The first version that the lines from `i` give.
pub open spec fn first_version(ls: Seq<Seq<char>>, i: int) -> Option<Seq<char>>
    decreases ls.len() - i,
{
    if i < 0 || i >= ls.len() {
        None
    } else if version_line(ls[i]) is Some {
        version_line(ls[i])
    } else {
        first_version(ls, i + 1)
    }
}

fn version_of_line(l: &[char]) -> (r: Option<String>)
    requires
        l@.len() == l.len(),
    ensures
        match version_line(l@) {
            Some(v) => r matches Some(s) && s@ == v,
            None => r is None,
        },
{
    let key = chars_of("Version");
    proof {
        reveal_strlit("Version");
    }
    if !matches_at(l, key.as_slice(), 0) {
        return None;
    }
    let w = skip_spaces(l, 7);
    if !(w > 7 && w < l.len()) {
        return None;
    }
    let mut j = w;
    while j < l.len()
        invariant
            w <= j <= l@.len(),
            l@.len() == l.len(),
            w == ws_end(l@, 7),
            7 < w < l@.len(),
            occurs_at(l@, "Version"@, 0),
            forall|k: int| w <= k < j ==> version_char(#[trigger] l@[k]),
        decreases l@.len() - j,
    {
        let c = l[j];
        if !(crate::outside::is_decimal_char(c) || c == '+' || c == '.' || c == '-') {
            assert(!version_char(l@[j as int]));
            return None;
        }
        j = j + 1;
    }
    Some(string_from(l, w, l.len()))
}

impl Adb {
    /// The `adb` that the process finds on its `PATH`; a failed lookup is
    /// `WhichError` with the lookup's message. See [`Adb::from_lookup`].
    pub fn new() -> (r: Result<Adb>)
        ensures
            r matches Err(e) ==> e matches AdbError::WhichError(_),
    {
        Adb::from_lookup(crate::outside::which_adb())
    }

    /// The `adb` that a lookup of the executable gave: its path, or
    /// `WhichError` with the lookup's message.
    pub fn from_lookup(found: core::result::Result<String, String>) -> (r: Result<Adb>)
        ensures
            match found {
                Ok(p) => r == Ok::<Adb, AdbError>(Adb(p)),
                Err(m) => r == Err::<Adb, AdbError>(AdbError::WhichError(m)),
            },
    {
        match found {
            Ok(p) => Ok(Adb(p)),
            Err(msg) => Err(AdbError::WhichError(msg)),
        }
    }

    /// The version that `adb --version` printed: the output, trimmed, is
    /// read line by line, and the first line `Version <number>` gives it;
    /// none such is `InvalidInput`, and output that is not UTF-8 the
    /// `Errno` `EINVAL`.
    pub fn version(&self, stdout: &Vec<u8>) -> (r: Result<String>)
        ensures
            match utf8_text(stdout@) {
                Some(t) => match first_version(lines(trim(t)), 0) {
                    Some(v) => r matches Ok(s) && s@ == v,
                    None => r == Err::<String, AdbError>(AdbError::InvalidInput),
                },
                None => r == Err::<String, AdbError>(AdbError::Errno(22)),
            },
    {
        let cs = match rustix_text(stdout) {
            Ok(v) => v,
            Err(e) => {
                return Err(e);
            },
        };
        let t = crate::text::trimmed(cs.as_slice(), 0, cs.len());
        proof {
            assert(cs@.subrange(0, cs@.len() as int) =~= cs@);
        }
        let ls = crate::text::split_text_lines(t.as_slice());
        let ghost all = ls.deep_view();
        let mut i: usize = 0;
        while i < ls.len()
            invariant
                i <= ls@.len(),
                all == ls.deep_view(),
                utf8_text(stdout@) is Some,
                all == lines(trim(utf8_text(stdout@)->0)),
                first_version(all, i as int) == first_version(all, 0),
            decreases ls@.len() - i,
        {
            assert(ls@[i as int]@ == all[i as int]);
            match version_of_line(ls[i].as_slice()) {
                Some(v) => {
                    return Ok(v);
                },
                None => {},
            }
            i = i + 1;
        }
        Err(AdbError::InvalidInput)
    }
}

} // verus!
