//! The `adb` executable and a device client: the commands they run and what
//! they read back from them.
use vstd::prelude::*;
use crate::command::{strings, single, pair, texts, concat, push_str, AdbCommand, CommandView, ExitStatus};
use crate::device::{Device, ConnectionType, device_args, connection_args, address_serial};
use crate::error::{AdbError, Result};
use crate::types::{RebootType, Wakefulness, reboot_name};
use crate::text::{utf8_text, trim, trim_end, rustix_text, trim_string, parse_in_range, parse_int};
use crate::shell::AdbShell;
use crate::outside::{lowercase_of, chars_of, png_image_of, decode_png};

verus! {

/// The path of the `adb` executable.
#[derive(Debug, Clone, PartialEq, Eq, Hash)]
pub struct Adb(pub String);

/// A command as a view, from its parts.
pub open spec fn command_view(
    program: Seq<char>,
    args: Seq<Seq<char>>,
    timeout_ms: Option<u64>,
    spawn_only: bool,
) -> CommandView {
    CommandView { program, args, timeout_ms, spawn_only }
}

/// A client of one device through one `adb` executable.
#[derive(Debug, Clone, PartialEq, Eq, Hash)]
pub struct AdbClient {
    pub adb: Adb,
    pub device: Device,
}

/// `adb <device options> <args>`.
pub open spec fn client_view(c: AdbClient, args: Seq<Seq<char>>, timeout_ms: Option<u64>) -> CommandView {
    command_view(c.adb.0@, device_args(c.device) + args, timeout_ms, false)
}

/// `adb <device options> shell <args>`.
pub open spec fn shell_view(
    c: AdbClient,
    args: Seq<Seq<char>>,
    timeout_ms: Option<u64>,
    spawn_only: bool,
) -> CommandView {
    command_view(c.adb.0@, device_args(c.device) + seq!["shell"@] + args, timeout_ms, spawn_only)
}

/// Milliseconds that `adb get-state` is given to answer.
pub const GET_STATE_TIMEOUT_MS: u64 = 200;

/// Milliseconds to wait after `adb root` before the device is used again.
pub const SLEEP_AFTER_ROOT_MS: u64 = 1000;

impl Adb {
    /// An equal executable path.
    pub fn copy(other: &Adb) -> (r: Adb)
        ensures
            r == *other,
    {
        Adb(other.0.clone())
    }

    /// The path of the executable.
    pub fn as_os_str(&self) -> (s: &str)
        ensures
            s@ == self.0@,
    {
        self.0.as_str()
    }

    /// `adb <args>`, stopped after `timeout_ms` when that is set.
    pub fn command(&self, args: Vec<String>, timeout_ms: Option<u64>) -> (c: AdbCommand)
        ensures
            c@ == command_view(self.0@, args.deep_view(), timeout_ms, false),
    {
        AdbCommand { program: self.0.clone(), args, timeout_ms, spawn_only: false }
    }

    /// `adb <connection options> <args>`: a custom command for one connection.
    pub fn exec(&self, addr: &ConnectionType, args: Vec<String>, timeout_ms: Option<u64>) -> (c: AdbCommand)
        ensures
            c@ == command_view(self.0@, connection_args(*addr) + args.deep_view(), timeout_ms, false),
    {
        let all = concat(addr.values(), args);
        self.command(all, timeout_ms)
    }

    /// `adb mdns check`.
    pub fn mdns_check(&self) -> (c: AdbCommand)
        ensures
            c@ == command_view(self.0@, seq!["mdns"@, "check"@], None, false),
    {
        let r = self.command(strings(&["mdns", "check"]), None);
        assert(texts(seq!["mdns", "check"]) =~= seq!["mdns"@, "check"@]);
        r
    }

    /// `adb devices -l`.
    pub fn list_devices_command(&self) -> (c: AdbCommand)
        ensures
            c@ == command_view(self.0@, seq!["devices"@, "-l"@], None, false),
    {
        let r = self.command(strings(&["devices", "-l"]), None);
        assert(texts(seq!["devices", "-l"]) =~= seq!["devices"@, "-l"@]);
        r
    }

    /// `adb disconnect`: drops every connection.
    pub fn disconnect_all(&self) -> (c: AdbCommand)
        ensures
            c@ == command_view(self.0@, seq!["disconnect"@], None, false),
    {
        let r = self.command(single("disconnect"), None);
        r
    }

    /// `adb kill-server`.
    pub fn kill_server(&self) -> (c: AdbCommand)
        ensures
            c@ == command_view(self.0@, seq!["kill-server"@], None, false),
    {
        let r = self.command(single("kill-server"), None);
        r
    }

    /// `adb start-server`.
    pub fn start_server(&self) -> (c: AdbCommand)
        ensures
            c@ == command_view(self.0@, seq!["start-server"@], None, false),
    {
        let r = self.command(single("start-server"), None);
        r
    }

    /// `adb --version`.
    pub fn version_command(&self) -> (c: AdbCommand)
        ensures
            c@ == command_view(self.0@, seq!["--version"@], None, false),
    {
        let r = self.command(single("--version"), None);
        r
    }
}

/// What `adb connect` has learned so far, handed back to [`AdbClient::connect`].
pub enum ConnectEvent {
    /// Nothing has run yet.
    Start,
    /// `adb get-state` ran before connecting; whether it succeeded.
    StateBefore(bool),
    /// `adb connect` ran.
    Connected,
    /// `adb get-state` ran after connecting; whether it succeeded.
    StateAfter(bool),
}

/// What [`AdbClient::connect`] asks for next.
pub enum ConnectAction {
    /// Run `adb get-state`; report its success as `StateBefore` or `StateAfter`.
    CheckState(AdbCommand),
    /// Run `adb connect`; report `Connected`.
    Run(AdbCommand),
    /// The connection attempt is over, with this outcome.
    Done(Result<()>),
}

/// What [`AdbClient::root`] asks for next.
pub enum RootAction {
    /// The client already runs as root: the answer is `true`.
    AlreadyRoot,
    /// Run `adb root`, wait [`SLEEP_AFTER_ROOT_MS`], and answer `true`.
    Run(AdbCommand),
}

impl AdbClient {
    /// An equal client.
    pub fn copy(other: &AdbClient) -> (r: AdbClient)
        ensures
            r == *other,
    {
        AdbClient { adb: Adb::copy(&other.adb), device: Device::copy(&other.device) }
    }

    /// A client of `device` through the `adb` that the lookup found, or the
    /// lookup's error.
    pub fn try_from_device(device: Device, adb: Result<Adb>) -> (r: Result<AdbClient>)
        ensures
            match adb {
                Ok(a) => r == Ok::<AdbClient, AdbError>(AdbClient { adb: a, device }),
                Err(e) => r == Err::<AdbClient, AdbError>(e),
            },
    {
        match adb {
            Ok(adb) => Ok(AdbClient { adb, device }),
            Err(err) => Err(err),
        }
    }

    /// `adb <device options> <args>`.
    pub fn adb_command(&self, args: Vec<String>, timeout_ms: Option<u64>) -> (c: AdbCommand)
        ensures
            c@ == client_view(*self, args.deep_view(), timeout_ms),
    {
        let all = concat(self.device.args(), args);
        self.adb.command(all, timeout_ms)
    }

    /// `adb <device options> shell <args>`, started and left running when
    /// `spawn_only`.
    pub fn shell_command(&self, args: Vec<String>, timeout_ms: Option<u64>, spawn_only: bool) -> (c: AdbCommand)
        ensures
            c@ == shell_view(*self, args.deep_view(), timeout_ms, spawn_only),
    {
        let pre = push_str(self.device.args(), "shell".to_owned());
        let all = concat(pre, args);
        assert(all.deep_view() =~= device_args(self.device) + seq!["shell"@] + args.deep_view());
        AdbCommand { program: self.adb.0.clone(), args: all, timeout_ms, spawn_only }
    }

    /// `adb <device options> get-state`, given [`GET_STATE_TIMEOUT_MS`].
    pub fn is_connected_command(&self) -> (c: AdbCommand)
        ensures
            c@ == client_view(*self, seq!["get-state"@], Some(GET_STATE_TIMEOUT_MS)),
    {
        let r = self.adb_command(single("get-state"), Some(GET_STATE_TIMEOUT_MS));
        r
    }

    /// Whether the device is connected: `get-state` ran (`status` is how it
    /// ended) and succeeded.
    pub fn is_connected(&self, status: Option<ExitStatus>) -> (b: bool)
        ensures
            b == (status matches Some(s) && s.spec_success()),
    {
        match status {
            Some(s) => s.success(),
            None => false,
        }
    }

    /// Whether the device is awake: any power state but `Asleep`.
    pub fn is_awake(&self, wakefulness: Result<Wakefulness>) -> (r: Result<bool>)
        ensures
            match wakefulness {
                Ok(w) => r == Ok::<bool, AdbError>(w != Wakefulness::Asleep),
                Err(e) => r == Err::<bool, AdbError>(e),
            },
    {
        match wakefulness {
            Ok(w) => Ok(w != Wakefulness::Asleep),
            Err(e) => Err(e),
        }
    }

    /// The two commands piped to read the power state:
    /// `adb <device options> shell dumpsys power`, then
    /// `sed -n s/mWakefulness=\(\S*\)/\1/p` on the host.
    pub fn get_wakefulness_commands(&self) -> (r: (AdbCommand, AdbCommand))
        ensures
            r.0@ == client_view(*self, seq!["shell"@, "dumpsys"@, "power"@], None),
            r.1@ == command_view("sed"@, seq!["-n"@, "s/mWakefulness=\\(\\S*\\)/\\1/p"@], None, false),
    {
        let first = self.adb_command(strings(&["shell", "dumpsys", "power"]), None);
        assert(texts(seq!["shell", "dumpsys", "power"]) =~= seq!["shell"@, "dumpsys"@, "power"@]);
        let second = AdbCommand {
            program: "sed".to_owned(),
            args: strings(&["-n", "s/mWakefulness=\\(\\S*\\)/\\1/p"]),
            timeout_ms: None,
            spawn_only: false,
        };
        assert(texts(seq!["-n", "s/mWakefulness=\\(\\S*\\)/\\1/p"]) =~= seq![
            "-n"@,
            "s/mWakefulness=\\(\\S*\\)/\\1/p"@,
        ]);
        (first, second)
    }

    /// One step of connecting: see [`ConnectEvent`] and [`ConnectAction`].
    /// A device already connected is left alone; one without a serial (a
    /// transport id) cannot be connected; otherwise `adb connect <serial>`
    /// runs, and the device must then answer `get-state`.
    pub fn connect(&self, timeout_ms: Option<u64>, event: ConnectEvent) -> (a: ConnectAction)
        ensures
            match event {
                ConnectEvent::Start => a matches ConnectAction::CheckState(c) && c@ == client_view(
                    *self,
                    seq!["get-state"@],
                    Some(GET_STATE_TIMEOUT_MS),
                ),
                ConnectEvent::StateBefore(true) => a matches ConnectAction::Done(Ok(())),
                ConnectEvent::StateBefore(false) => match address_serial(self.device.0.0) {
                    None => a matches ConnectAction::Done(Err(AdbError::InvalidDeviceAddressError(m)))
                        && m@ == "Host[:Port] required"@,
                    Some(s) => a matches ConnectAction::Run(c) && c@ == command_view(
                        self.adb.0@,
                        seq!["connect"@, s],
                        timeout_ms,
                        false,
                    ),
                },
                ConnectEvent::Connected => a matches ConnectAction::CheckState(c) && c@ == client_view(
                    *self,
                    seq!["get-state"@],
                    Some(GET_STATE_TIMEOUT_MS),
                ),
                ConnectEvent::StateAfter(true) => a matches ConnectAction::Done(Ok(())),
                ConnectEvent::StateAfter(false) => a matches ConnectAction::Done(
                    Err(AdbError::ConnectToDeviceError),
                ),
            },
    {
        match event {
            ConnectEvent::Start => ConnectAction::CheckState(self.is_connected_command()),
            ConnectEvent::StateBefore(true) => ConnectAction::Done(Ok(())),
            ConnectEvent::StateBefore(false) => match self.device.0.serial() {
                None => ConnectAction::Done(
                    Err(AdbError::InvalidDeviceAddressError("Host[:Port] required".to_owned())),
                ),
                Some(serial) => ConnectAction::Run(self.adb.command(pair("connect", serial), timeout_ms)),
            },
            ConnectEvent::Connected => ConnectAction::CheckState(self.is_connected_command()),
            ConnectEvent::StateAfter(true) => ConnectAction::Done(Ok(())),
            ConnectEvent::StateAfter(false) => ConnectAction::Done(Err(AdbError::ConnectToDeviceError)),
        }
    }

    /// `adb disconnect <serial>`; the operation answers `true` once it ran.
    pub fn disconnect(&self) -> (c: AdbCommand)
        requires
            address_serial(self.device.0.0) is Some,
        ensures
            c@ == command_view(
                self.adb.0@,
                seq!["disconnect"@, address_serial(self.device.0.0)->0],
                None,
                false,
            ),
    {
        let serial = match self.device.0.serial() {
            Some(s) => s,
            None => {
                assert(false);
                String::new()
            },
        };
        self.adb.command(pair("disconnect", serial), None)
    }

    /// `adb disconnect <serial>`, run and waited for as [`AdbClient::disconnect`]
    /// does; the operation answers `true` once it ran.
    pub fn try_disconnect(&self) -> (c: AdbCommand)
        requires
            address_serial(self.device.0.0) is Some,
        ensures
            c@ == command_view(
                self.adb.0@,
                seq!["disconnect"@, address_serial(self.device.0.0)->0],
                None,
                false,
            ),
    {
        self.disconnect()
    }

    /// Whether the client runs as root, from what `whoami` read: only the
    /// user `root` is.
    pub fn is_root(&self, whoami: Result<Option<String>>) -> (r: Result<bool>)
        ensures
            match whoami {
                Ok(Some(u)) => r == Ok::<bool, AdbError>(u@ == "root"@),
                Ok(None) => r == Ok::<bool, AdbError>(false),
                Err(e) => r == Err::<bool, AdbError>(e),
            },
    {
        match whoami {
            Ok(Some(u)) => Ok(crate::text::str_eq(u.as_str(), "root")),
            Ok(None) => Ok(false),
            Err(e) => Err(e),
        }
    }

    /// The next step of `root`, from whether the client runs as root already.
    pub fn root(&self, is_root: Result<bool>) -> (r: Result<RootAction>)
        ensures
            match is_root {
                Ok(true) => r matches Ok(RootAction::AlreadyRoot),
                Ok(false) => r matches Ok(RootAction::Run(c)) && c@ == client_view(*self, seq!["root"@], None),
                Err(e) => r == Err::<RootAction, AdbError>(e),
            },
    {
        match is_root {
            Ok(true) => Ok(RootAction::AlreadyRoot),
            Ok(false) => {
                let c = self.adb_command(single("root"), None);
                Ok(RootAction::Run(c))
            },
            Err(e) => Err(e),
        }
    }

    /// `adb <device options> unroot`; the operation answers `true` once it ran.
    pub fn unroot(&self) -> (c: AdbCommand)
        ensures
            c@ == client_view(*self, seq!["unroot"@], None),
    {
        let r = self.adb_command(single("unroot"), None);
        r
    }

    /// `adb <device options> remount`.
    pub fn remount(&self) -> (c: AdbCommand)
        ensures
            c@ == client_view(*self, seq!["remount"@], None),
    {
        let r = self.adb_command(single("remount"), None);
        r
    }

    /// `adb <device options> disable-verity`.
    pub fn disable_verity(&self) -> (c: AdbCommand)
        ensures
            c@ == client_view(*self, seq!["disable-verity"@], None),
    {
        let r = self.adb_command(single("disable-verity"), None);
        r
    }

    /// `adb <device options> logcat -b all -c`.
    pub fn clear_logcat(&self) -> (c: AdbCommand)
        ensures
            c@ == client_view(*self, seq!["logcat"@, "-b"@, "all"@, "-c"@], None),
    {
        let r = self.adb_command(strings(&["logcat", "-b", "all", "-c"]), None);
        assert(texts(seq!["logcat", "-b", "all", "-c"]) =~= seq!["logcat"@, "-b"@, "all"@, "-c"@]);
        r
    }

    /// `adb <device options> reboot <target>`; with no target the word is empty.
    pub fn reboot(&self, reboot_type: Option<RebootType>) -> (c: AdbCommand)
        ensures
            c@ == client_view(
                *self,
                seq![
                    "reboot"@,
                    match reboot_type {
                        Some(t) => reboot_name(t),
                        None => Seq::<char>::empty(),
                    },
                ],
                None,
            ),
    {
        let s = match reboot_type {
            Some(t) => t.value(),
            None => String::new(),
        };
        let args = pair("reboot", s);
        assert(args.deep_view() =~= seq![
            "reboot"@,
            match reboot_type {
                Some(t) => reboot_name(t),
                None => Seq::<char>::empty(),
            },
        ]);
        self.adb_command(args, None)
    }

    /// `adb <device options> wait-for-device shell <script>`: waits until the
    /// device finished booting, then wakes it.
    pub fn wait_for_device(&self, timeout_ms: Option<u64>) -> (c: AdbCommand)
        ensures
            c@ == client_view(
                *self,
                seq![
                    "wait-for-device"@,
                    "shell"@,
                    "while [[ -z $(getprop sys.boot_completed) ]]; do sleep 1; done; input keyevent 143"@,
                ],
                timeout_ms,
            ),
    {
        let r = self.adb_command(
            strings(
                &[
                    "wait-for-device",
                    "shell",
                    "while [[ -z $(getprop sys.boot_completed) ]]; do sleep 1; done; input keyevent 143",
                ],
            ),
            timeout_ms,
        );
        assert(texts(
            seq![
                "wait-for-device",
                "shell",
                "while [[ -z $(getprop sys.boot_completed) ]]; do sleep 1; done; input keyevent 143",
            ],
        ) =~= seq![
            "wait-for-device"@,
            "shell"@,
            "while [[ -z $(getprop sys.boot_completed) ]]; do sleep 1; done; input keyevent 143"@,
        ]);
        r
    }
}

} // verus!

verus! {

/// A decoded screenshot: its size and its pixel bytes, as the clipboard
/// takes them.
pub struct ScreenImage {
    pub width: usize,
    pub height: usize,
    pub bytes: Vec<u8>,
}

impl AdbClient {
    /// The shell of the client's device.
    pub fn shell(&self) -> (s: AdbShell<'_>)
        ensures
            *s.parent == *self,
    {
        AdbShell { parent: self }
    }

    /// The power state that the piped `sed` printed (see
    /// [`AdbClient::get_wakefulness_commands`]), trimmed and read as
    /// [`Wakefulness::try_from_str`] reads it; output that is not UTF-8 is
    /// the `Errno` `EINVAL`.
    pub fn get_wakefulness(&self, stdout: &Vec<u8>) -> (r: Result<Wakefulness>)
        ensures
            match utf8_text(stdout@) {
                None => r == Err::<Wakefulness, AdbError>(AdbError::Errno(22)),
                Some(t) => ({
                    let l = lowercase_of(trim(t));
                    if l == "awake"@ {
                        r == Ok::<Wakefulness, AdbError>(Wakefulness::Awake)
                    } else if l == "asleep"@ {
                        r == Ok::<Wakefulness, AdbError>(Wakefulness::Asleep)
                    } else if l == "dreaming"@ {
                        r == Ok::<Wakefulness, AdbError>(Wakefulness::Dreaming)
                    } else {
                        r == Err::<Wakefulness, AdbError>(AdbError::InvalidInput)
                    }
                }),
            },
    {
        match rustix_text(stdout) {
            Ok(v) => {
                let t = trim_string(v.as_slice());
                Wakefulness::try_from_str(t.as_str())
            },
            Err(e) => Err(e),
        }
    }

    /// `getprop ro.build.product`.
    pub fn name_command(&self) -> (c: AdbCommand)
        ensures
            c@ == shell_view(*self, seq!["getprop"@, "ro.build.product"@], None, false),
    {
        self.shell().getprop_command("ro.build.product")
    }

    /// The device name, from the output of [`AdbClient::name_command`] (an
    /// error where the command could not run): the value read as
    /// [`AdbShell::getprop`] reads it, or none when that fails.
    pub fn name(&self, stdout: Result<Vec<u8>>) -> (r: Result<Option<String>>)
        ensures
            match stdout {
                Ok(b) => match utf8_text(b@) {
                    Some(t) => r matches Ok(Some(v)) && v@ == trim_end(t),
                    None => r matches Ok(None),
                },
                Err(_) => r matches Ok(None),
            },
    {
        match stdout {
            Ok(b) => match self.shell().getprop(&b) {
                Ok(v) => Ok(Some(v)),
                Err(_) => Ok(None),
            },
            Err(_) => Ok(None),
        }
    }

    /// `getprop ro.build.version.sdk`.
    pub fn api_level_command(&self) -> (c: AdbCommand)
        ensures
            c@ == shell_view(*self, seq!["getprop"@, "ro.build.version.sdk"@], None, false),
    {
        self.shell().getprop_command("ro.build.version.sdk")
    }

    /// The API level that `getprop ro.build.version.sdk` printed, read as
    /// [`AdbShell::getprop`] reads it.
    pub fn api_level(&self, stdout: &Vec<u8>) -> (r: Result<String>)
        ensures
            match utf8_text(stdout@) {
                Some(t) => r matches Ok(v) && v@ == trim_end(t),
                None => r == Err::<String, AdbError>(AdbError::Errno(22)),
            },
    {
        self.shell().getprop(stdout)
    }

    /// `getprop ro.build.version.release`.
    pub fn version_command(&self) -> (c: AdbCommand)
        ensures
            c@ == shell_view(*self, seq!["getprop"@, "ro.build.version.release"@], None, false),
    {
        self.shell().getprop_command("ro.build.version.release")
    }

    /// The Android release that `getprop ro.build.version.release` printed,
    /// read as [`AdbShell::getprop`] reads it and then as a `u8`; a release
    /// that is no such number is `ParseIntError`.
    pub fn version(&self, stdout: &Vec<u8>) -> (r: Result<u8>)
        ensures
            match utf8_text(stdout@) {
                Some(t) => match parse_in_range(trim_end(t), false, 0, 255) {
                    Some(n) => r == Ok::<u8, AdbError>(n as u8),
                    None => r == Err::<u8, AdbError>(AdbError::ParseIntError),
                },
                None => r == Err::<u8, AdbError>(AdbError::Errno(22)),
            },
    {
        match self.shell().getprop(stdout) {
            Ok(v) => {
                let cs = chars_of(v.as_str());
                match parse_int(cs.as_slice(), false, 0, 255) {
                    Some(n) => Ok(n as u8),
                    None => Err(AdbError::ParseIntError),
                }
            },
            Err(e) => Err(e),
        }
    }

    /// `adb <device options> exec-out screencap -p`: a PNG of the screen on
    /// standard output.
    pub fn save_screencap_command(&self) -> (c: AdbCommand)
        ensures
            c@ == client_view(*self, seq!["exec-out"@, "screencap"@, "-p"@], None),
    {
        let r = self.adb_command(strings(&["exec-out", "screencap", "-p"]), None);
        assert(texts(seq!["exec-out", "screencap", "-p"]) =~= seq!["exec-out"@, "screencap"@, "-p"@]);
        r
    }

    /// The screenshot to copy to the clipboard, from the PNG that
    /// [`AdbClient::save_screencap_command`] wrote: its size and pixel bytes
    /// as the `image` crate decodes them; a PNG that does not decode is
    /// `ImageError`.
    pub fn copy_screencap(&self, png: &Vec<u8>) -> (r: Result<ScreenImage>)
        ensures
            match png_image_of(png@) {
                Some(x) => r matches Ok(i) && i.width == x.0 && i.height == x.1 && i.bytes@ == x.2,
                None => r matches Err(AdbError::ImageError(_)),
            },
    {
        match decode_png(png.as_slice()) {
            Ok(x) => Ok(ScreenImage { width: x.0 as usize, height: x.1 as usize, bytes: x.2 }),
            Err(msg) => Err(AdbError::ImageError(msg)),
        }
    }
}

} // verus!
