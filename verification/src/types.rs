//! The library's plain data types and the words the `adb` tools use for them.
use vstd::prelude::*;

verus! {

/// SELinux mode of a device.
#[derive(Debug, Clone, Copy, PartialEq, Eq, Structural, Hash)]
pub enum SELinuxType {
    Enforcing,
    Permissive,
}

/// The error of reading an SELinux mode from text.
#[derive(Debug, Clone, PartialEq, Eq)]
pub struct ParseSELinuxTypeError {
    pub msg: Option<String>,
}

/// Where `adb reboot` sends the device.
#[derive(Debug, Clone, Copy, PartialEq, Eq, Structural, Hash)]
pub enum RebootType {
    Bootloader,
    Recovery,
    Sideload,
    SideloadAutoReboot,
}

/// Priority of a logcat filter.
#[derive(Debug, Clone, Copy, PartialEq, Eq, Structural, Hash)]
pub enum LogcatLevel {
    Verbose,
    Debug,
    Info,
    Warn,
    Error,
}

/// A logcat filter: a tag and the lowest priority shown for it.
#[derive(Debug, Clone, PartialEq, Eq)]
pub struct LogcatTag {
    pub name: String,
    pub level: LogcatLevel,
}

/// Priority class of `dumpsys` services.
#[allow(non_camel_case_types)]
#[derive(Debug, Clone, Copy, PartialEq, Eq, Structural, Hash)]
pub enum DumpsysPriority {
    CRITICAL,
    HIGH,
    NORMAL,
}

/// Settings namespace.
#[allow(non_camel_case_types)]
#[derive(Debug, Clone, Copy, PartialEq, Eq, Structural, Hash)]
pub enum SettingsType {
    global,
    system,
    secure,
}

/// Install location forced by `pm install`.
#[derive(Debug, Clone, Copy, PartialEq, Eq, Structural, Hash)]
pub enum InstallLocationOption {
    Auto,
    InternalOnly,
    PreferExternal,
}

/// Package flags reported by `pm dump`.
#[derive(Debug, Clone, Copy, PartialEq, Eq, Structural, Hash)]
pub enum PackageFlags {
    System,
    HasCode,
    AllowClearUserData,
    UpdatedSystemApp,
    AllowBackup,
}

/// A runtime permission of a package.
#[derive(Debug, Clone, PartialEq, Eq)]
pub struct RuntimePermission {
    pub name: String,
    pub granted: bool,
    pub flags: Vec<String>,
}

/// An install permission of a package.
#[derive(Debug, Clone, PartialEq, Eq)]
pub struct InstallPermission {
    pub name: String,
    pub granted: bool,
}

/// Kind of a motion event sent with `input motionevent`.
#[allow(non_camel_case_types)]
#[derive(Debug, Clone, Copy, PartialEq, Eq, Structural, Hash)]
pub enum MotionEvent {
    DOWN,
    UP,
    MOVE,
    CANCEL,
}

/// Input device class that `input` sends events as.
#[allow(non_camel_case_types)]
#[derive(Debug, Clone, Copy, PartialEq, Eq, Structural, Hash)]
pub enum InputSource {
    dpad,
    keyboard,
    mouse,
    touchpad,
    gamepad,
    touchnavigation,
    joystick,
    touchscreen,
    stylus,
    trackball,
}

/// How `input keyevent` presses a key.
#[derive(Debug, Clone, Copy, PartialEq, Eq, Structural, Hash)]
pub enum KeyEventType {
    LongPress,
    DoubleTap,
}

/// Type of a system property, as `getprop -T` reports it.
#[derive(Debug, Clone, PartialEq, Eq)]
pub enum PropType {
    String,
    Bool,
    Int,
    Enum(Vec<String>),
    Unknown(String),
}

/// Power state of a device.
#[derive(Debug, Clone, Copy, PartialEq, Eq, Structural, Hash)]
pub enum Wakefulness {
    Awake,
    Asleep,
    Dreaming,
}

/// Side from which `adb reconnect` kicks the connection.
#[derive(Debug, Clone, Copy, PartialEq, Eq, Structural, Hash)]
pub enum Reconnect {
    Device,
    Offline,
}

/// User selection of `am` commands.
#[derive(Debug, Clone, PartialEq, Eq)]
pub enum UserOption {
    UserId(String),
    All,
    Current,
    NoUser,
}

/// Memory trim level of `am send-trim-memory`.
#[derive(Debug, Clone, Copy, PartialEq, Eq, Structural, Hash)]
pub enum MemoryStatus {
    Hidden,
    RunningModerate,
    Background,
    RunningLow,
    Moderate,
    RunningCritical,
    Complete,
}

/// A package listed by `pm list packages`.
#[derive(Debug, Clone, PartialEq, Eq)]
pub struct Package {
    pub package_name: String,
    pub file_name: Option<String>,
    pub version_code: Option<i32>,
    pub uid: Option<i32>,
}

/// A key and its value.
#[derive(Debug, Clone, PartialEq, Eq)]
pub struct Property {
    pub key: String,
    pub value: String,
}

// ---------------------------------------------------------------------------
// Words

/// Display name of an SELinux mode.
pub open spec fn selinux_name(t: SELinuxType) -> Seq<char> {
    match t {
        SELinuxType::Enforcing => "Enforcing"@,
        SELinuxType::Permissive => "Permissive"@,
    }
}

/// Value that `setenforce` takes for a mode.
pub open spec fn selinux_arg(t: SELinuxType) -> Seq<char> {
    match t {
        SELinuxType::Enforcing => "1"@,
        SELinuxType::Permissive => "0"@,
    }
}

impl SELinuxType {
    /// Display name of the mode.
    pub fn as_str(&self) -> (s: &'static str)
        ensures
            s@ == selinux_name(*self),
    {
        match self {
            SELinuxType::Enforcing => "Enforcing",
            SELinuxType::Permissive => "Permissive",
        }
    }

    /// Display name of the mode, as an owned string.
    pub fn to_string(&self) -> (s: String)
        ensures
            s@ == selinux_name(*self),
    {
        self.as_str().to_owned()
    }

    /// Value that `setenforce` takes for the mode.
    pub fn as_arg(&self) -> (s: &'static str)
        ensures
            s@ == selinux_arg(*self),
    {
        match self {
            SELinuxType::Enforcing => "1",
            SELinuxType::Permissive => "0",
        }
    }
}

/// Word `adb reboot` takes for a target.
pub open spec fn reboot_name(t: RebootType) -> Seq<char> {
    match t {
        RebootType::Bootloader => "bootloader"@,
        RebootType::Recovery => "recovery"@,
        RebootType::Sideload => "sideload"@,
        RebootType::SideloadAutoReboot => "sideload-auto-reboot"@,
    }
}

impl RebootType {
    /// Word `adb reboot` takes for the target.
    pub fn value(&self) -> (s: String)
        ensures
            s@ == reboot_name(*self),
    {
        match self {
            RebootType::Bootloader => "bootloader".to_owned(),
            RebootType::Recovery => "recovery".to_owned(),
            RebootType::Sideload => "sideload".to_owned(),
            RebootType::SideloadAutoReboot => "sideload-auto-reboot".to_owned(),
        }
    }
}

/// Letter of a logcat priority.
pub open spec fn logcat_level_name(l: LogcatLevel) -> Seq<char> {
    match l {
        LogcatLevel::Verbose => "V"@,
        LogcatLevel::Debug => "D"@,
        LogcatLevel::Info => "I"@,
        LogcatLevel::Warn => "W"@,
        LogcatLevel::Error => "E"@,
    }
}

impl LogcatLevel {
    /// Letter of the priority.
    pub fn as_str(&self) -> (s: &'static str)
        ensures
            s@ == logcat_level_name(*self),
    {
        match self {
            LogcatLevel::Verbose => "V",
            LogcatLevel::Debug => "D",
            LogcatLevel::Info => "I",
            LogcatLevel::Warn => "W",
            LogcatLevel::Error => "E",
        }
    }
}

/// A logcat filter written out: `name:LEVEL`.
pub open spec fn logcat_tag_text(t: LogcatTag) -> Seq<char> {
    t.name@ + ":"@ + logcat_level_name(t.level)
}

impl LogcatTag {
    /// The filter written out: `name:LEVEL`.
    pub fn to_string(&self) -> (s: String)
        ensures
            s@ == logcat_tag_text(*self),
    {
        let mut s = self.name.clone();
        s.append(":");
        s.append(self.level.as_str());
        s
    }
}

/// Name of a dumpsys priority.
pub open spec fn dumpsys_priority_name(p: DumpsysPriority) -> Seq<char> {
    match p {
        DumpsysPriority::CRITICAL => "CRITICAL"@,
        DumpsysPriority::HIGH => "HIGH"@,
        DumpsysPriority::NORMAL => "NORMAL"@,
    }
}

impl DumpsysPriority {
    /// Name of the priority.
    pub fn as_str(&self) -> (s: &'static str)
        ensures
            s@ == dumpsys_priority_name(*self),
    {
        match self {
            DumpsysPriority::CRITICAL => "CRITICAL",
            DumpsysPriority::HIGH => "HIGH",
            DumpsysPriority::NORMAL => "NORMAL",
        }
    }
}

/// Name of a settings namespace.
pub open spec fn settings_name(t: SettingsType) -> Seq<char> {
    match t {
        SettingsType::global => "global"@,
        SettingsType::system => "system"@,
        SettingsType::secure => "secure"@,
    }
}

impl SettingsType {
    /// Name of the namespace.
    pub fn as_str(&self) -> (s: &'static str)
        ensures
            s@ == settings_name(*self),
    {
        match self {
            SettingsType::global => "global",
            SettingsType::system => "system",
            SettingsType::secure => "secure",
        }
    }
}

/// Number `pm install --install-location` takes for a location.
pub open spec fn install_location_name(l: InstallLocationOption) -> Seq<char> {
    match l {
        InstallLocationOption::Auto => "0"@,
        InstallLocationOption::InternalOnly => "1"@,
        InstallLocationOption::PreferExternal => "2"@,
    }
}

impl InstallLocationOption {
    /// Number `pm install --install-location` takes for the location.
    pub fn as_str(&self) -> (s: &'static str)
        ensures
            s@ == install_location_name(*self),
    {
        match self {
            InstallLocationOption::Auto => "0",
            InstallLocationOption::InternalOnly => "1",
            InstallLocationOption::PreferExternal => "2",
        }
    }

    /// The location `pm` picks when none is given.
    pub fn default() -> (l: InstallLocationOption)
        ensures
            l == InstallLocationOption::Auto,
    {
        InstallLocationOption::Auto
    }
}

/// Display name of a package flag.
pub open spec fn package_flag_name(f: PackageFlags) -> Seq<char> {
    match f {
        PackageFlags::System => "System"@,
        PackageFlags::HasCode => "HasCode"@,
        PackageFlags::AllowClearUserData => "AllowClearUserData"@,
        PackageFlags::UpdatedSystemApp => "UpdatedSystemApp"@,
        PackageFlags::AllowBackup => "AllowBackup"@,
    }
}

/// The flag that `pm dump` writes as `s`, if any.
pub open spec fn package_flag_of(s: Seq<char>) -> Option<PackageFlags> {
    if s == "SYSTEM"@ {
        Some(PackageFlags::System)
    } else if s == "HAS_CODE"@ {
        Some(PackageFlags::HasCode)
    } else if s == "ALLOW_CLEAR_USER_DATA"@ {
        Some(PackageFlags::AllowClearUserData)
    } else if s == "UPDATED_SYSTEM_APP"@ {
        Some(PackageFlags::UpdatedSystemApp)
    } else if s == "ALLOW_BACKUP"@ {
        Some(PackageFlags::AllowBackup)
    } else {
        None
    }
}

impl PackageFlags {
    /// Display name of the flag.
    pub fn as_str(&self) -> (s: &'static str)
        ensures
            s@ == package_flag_name(*self),
    {
        match self {
            PackageFlags::System => "System",
            PackageFlags::HasCode => "HasCode",
            PackageFlags::AllowClearUserData => "AllowClearUserData",
            PackageFlags::UpdatedSystemApp => "UpdatedSystemApp",
            PackageFlags::AllowBackup => "AllowBackup",
        }
    }
}

/// Name of a motion event kind.
pub open spec fn motion_name(m: MotionEvent) -> Seq<char> {
    match m {
        MotionEvent::DOWN => "DOWN"@,
        MotionEvent::UP => "UP"@,
        MotionEvent::MOVE => "MOVE"@,
        MotionEvent::CANCEL => "CANCEL"@,
    }
}

impl MotionEvent {
    /// Name of the kind.
    pub fn as_str(&self) -> (s: &'static str)
        ensures
            s@ == motion_name(*self),
    {
        match self {
            MotionEvent::DOWN => "DOWN",
            MotionEvent::UP => "UP",
            MotionEvent::MOVE => "MOVE",
            MotionEvent::CANCEL => "CANCEL",
        }
    }
}

/// Name of an input source.
pub open spec fn input_source_name(s: InputSource) -> Seq<char> {
    match s {
        InputSource::dpad => "dpad"@,
        InputSource::keyboard => "keyboard"@,
        InputSource::mouse => "mouse"@,
        InputSource::touchpad => "touchpad"@,
        InputSource::gamepad => "gamepad"@,
        InputSource::touchnavigation => "touchnavigation"@,
        InputSource::joystick => "joystick"@,
        InputSource::touchscreen => "touchscreen"@,
        InputSource::stylus => "stylus"@,
        InputSource::trackball => "trackball"@,
    }
}

impl InputSource {
    /// Name of the source.
    pub fn as_str(&self) -> (s: &'static str)
        ensures
            s@ == input_source_name(*self),
    {
        match self {
            InputSource::dpad => "dpad",
            InputSource::keyboard => "keyboard",
            InputSource::mouse => "mouse",
            InputSource::touchpad => "touchpad",
            InputSource::gamepad => "gamepad",
            InputSource::touchnavigation => "touchnavigation",
            InputSource::joystick => "joystick",
            InputSource::touchscreen => "touchscreen",
            InputSource::stylus => "stylus",
            InputSource::trackball => "trackball",
        }
    }
}

/// Flag of `input keyevent` for a press kind.
pub open spec fn key_event_type_arg(t: KeyEventType) -> Seq<char> {
    match t {
        KeyEventType::LongPress => "--longpress"@,
        KeyEventType::DoubleTap => "--doubletap"@,
    }
}

impl KeyEventType {
    /// Flag of `input keyevent` for the press kind.
    pub fn as_flag(&self) -> (s: &'static str)
        ensures
            s@ == key_event_type_arg(*self),
    {
        match self {
            KeyEventType::LongPress => "--longpress",
            KeyEventType::DoubleTap => "--doubletap",
        }
    }
}

/// Display name of a power state.
pub open spec fn wakefulness_name(w: Wakefulness) -> Seq<char> {
    match w {
        Wakefulness::Awake => "Awake"@,
        Wakefulness::Asleep => "Asleep"@,
        Wakefulness::Dreaming => "Dreaming"@,
    }
}

impl Wakefulness {
    /// Display name of the state.
    pub fn as_str(&self) -> (s: &'static str)
        ensures
            s@ == wakefulness_name(*self),
    {
        match self {
            Wakefulness::Awake => "Awake",
            Wakefulness::Asleep => "Asleep",
            Wakefulness::Dreaming => "Dreaming",
        }
    }
}

/// Word `adb reconnect` takes for a side.
pub open spec fn reconnect_name(r: Reconnect) -> Seq<char> {
    match r {
        Reconnect::Device => "device"@,
        Reconnect::Offline => "offline"@,
    }
}

impl Reconnect {
    /// Word `adb reconnect` takes for the side.
    pub fn as_str(&self) -> (s: &'static str)
        ensures
            s@ == reconnect_name(*self),
    {
        match self {
            Reconnect::Device => "device",
            Reconnect::Offline => "offline",
        }
    }

    /// Word `adb reconnect` takes for the side, as an owned string.
    pub fn to_string(&self) -> (s: String)
        ensures
            s@ == reconnect_name(*self),
    {
        self.as_str().to_owned()
    }
}

/// Word `am send-trim-memory` takes for a level.
pub open spec fn memory_status_name(m: MemoryStatus) -> Seq<char> {
    match m {
        MemoryStatus::Hidden => "HIDDEN"@,
        MemoryStatus::RunningModerate => "RUNNING_MODERATE"@,
        MemoryStatus::Background => "BACKGROUND"@,
        MemoryStatus::RunningLow => "RUNNING_LOW"@,
        MemoryStatus::Moderate => "MODERATE"@,
        MemoryStatus::RunningCritical => "RUNNING_CRITICAL"@,
        MemoryStatus::Complete => "COMPLETE"@,
    }
}

impl MemoryStatus {
    /// Word `am send-trim-memory` takes for the level.
    pub fn as_str(&self) -> (s: &'static str)
        ensures
            s@ == memory_status_name(*self),
    {
        match self {
            MemoryStatus::Hidden => "HIDDEN",
            MemoryStatus::RunningModerate => "RUNNING_MODERATE",
            MemoryStatus::Background => "BACKGROUND",
            MemoryStatus::RunningLow => "RUNNING_LOW",
            MemoryStatus::Moderate => "MODERATE",
            MemoryStatus::RunningCritical => "RUNNING_CRITICAL",
            MemoryStatus::Complete => "COMPLETE",
        }
    }

    /// Word `am send-trim-memory` takes for the level, as an owned string.
    pub fn to_string(&self) -> (s: String)
        ensures
            s@ == memory_status_name(*self),
    {
        self.as_str().to_owned()
    }
}

} // verus!

verus! {

/// The mode named by a text once trimmed: `Enforcing` or `Permissive`.
pub open spec fn selinux_of(s: Seq<char>) -> Option<SELinuxType> {
    if crate::text::trim(s) == "Enforcing"@ {
        Some(SELinuxType::Enforcing)
    } else if crate::text::trim(s) == "Permissive"@ {
        Some(SELinuxType::Permissive)
    } else {
        None
    }
}

impl SELinuxType {
    /// The mode a text names once trimmed; any other text is refused with
    /// the message `invalid value: <trimmed text>`.
    pub fn try_from_str(value: &str) -> (r: core::result::Result<SELinuxType, ParseSELinuxTypeError>)
        ensures
            match selinux_of(value@) {
                Some(t) => r == Ok::<SELinuxType, ParseSELinuxTypeError>(t),
                None => r matches Err(e) && e.msg matches Some(m) && m@ == "invalid value: "@
                    + crate::text::trim(value@),
            },
    {
        let cs = crate::outside::chars_of(value);
        let t = crate::text::trim_string(cs.as_slice());
        if crate::text::str_eq(t.as_str(), "Enforcing") {
            Ok(SELinuxType::Enforcing)
        } else if crate::text::str_eq(t.as_str(), "Permissive") {
            Ok(SELinuxType::Permissive)
        } else {
            let mut m = "invalid value: ".to_owned();
            m.append(t.as_str());
            Err(ParseSELinuxTypeError { msg: Some(m) })
        }
    }

    /// The mode that output bytes name: they must be UTF-8 (else the error
    /// carries the system's message for `EINVAL`), then as
    /// [`SELinuxType::try_from_str`].
    pub fn try_from_bytes(value: &Vec<u8>) -> (r: core::result::Result<SELinuxType, ParseSELinuxTypeError>)
        ensures
            match crate::text::utf8_text(value@) {
                None => r matches Err(e) && e.msg is Some,
                Some(s) => match selinux_of(s) {
                    Some(t) => r == Ok::<SELinuxType, ParseSELinuxTypeError>(t),
                    None => r matches Err(e) && e.msg matches Some(m) && m@ == "invalid value: "@
                        + crate::text::trim(s),
                },
            },
    {
        match crate::outside::rustix_as_str(value) {
            Ok(s) => SELinuxType::try_from_str(s),
            Err(code) => Err(ParseSELinuxTypeError { msg: Some(crate::outside::errno_text(code)) }),
        }
    }
}

/// The state of the recognizer of `(?:[\w_]+\s?)+` after a text: whether it
/// may stand after a word character, and whether after one white space
/// that followed one.
pub open spec fn enum_body_state(s: Seq<char>) -> (bool, bool)
    decreases s.len(),
{
    if s.len() == 0 {
        (false, false)
    } else {
        let prev = enum_body_state(s.drop_last());
        let c = s.last();
        let start = s.len() == 1;
        (
            (start || prev.0 || prev.1) && crate::outside::word_char(c),
            prev.0 && crate::text::is_ws(c),
        )
    }
}

/// Whether a text is the value list of an enum type: `enum`, one white space,
/// then words each followed by at most one white space, to the end.
pub open spec fn enum_form(v: Seq<char>) -> bool {
    &&& v.len() > 5
    &&& v.subrange(0, 4) == "enum"@
    &&& crate::text::is_ws(v[4])
    &&& (enum_body_state(v.subrange(5, v.len() as int)).0 || enum_body_state(
        v.subrange(5, v.len() as int),
    ).1)
}

/// Whether `t` is the type that `getprop -T` reports as `v`: `string`,
/// `bool` and `int` are named, an enum lists its values cut at spaces, and
/// any other text is kept as unknown.
pub open spec fn prop_type_spec(v: Seq<char>, t: PropType) -> bool {
    if v == "string"@ {
        t == PropType::String
    } else if v == "bool"@ {
        t == PropType::Bool
    } else if v == "int"@ {
        t == PropType::Int
    } else if enum_form(v) {
        t matches PropType::Enum(xs) && xs.deep_view() == crate::text::split_on(
            v.subrange(5, v.len() as int),
            ' ',
        )
    } else {
        t matches PropType::Unknown(u) && u@ == v
    }
}

fn enum_body_ok(s: &[char], a: usize) -> (b: bool)
    requires
        a <= s@.len(),
    ensures
        b == (enum_body_state(s@.subrange(a as int, s@.len() as int)).0 || enum_body_state(
            s@.subrange(a as int, s@.len() as int),
        ).1),
{
    let mut after_word = false;
    let mut after_space = false;
    let mut i = a;
    assert(s@.subrange(a as int, a as int) =~= Seq::<char>::empty());
    while i < s.len()
        invariant
            a <= i <= s@.len(),
            (after_word, after_space) == enum_body_state(s@.subrange(a as int, i as int)),
        decreases s@.len() - i,
    {
        let c = s[i];
        let w = crate::outside::is_word_char(c);
        let sp = crate::text::is_whitespace(c);
        let start = i == a;
        proof {
            let t = s@.subrange(a as int, i + 1);
            assert(t.drop_last() =~= s@.subrange(a as int, i as int));
            assert(t.last() == c);
        }
        let nw = (start || after_word || after_space) && w;
        let ns = after_word && sp;
        after_word = nw;
        after_space = ns;
        i = i + 1;
    }
    after_word || after_space
}

impl PropType {
    /// The type `getprop -T` reports as `value`; see [`prop_type_spec`].
    pub fn from_str(value: &str) -> (t: PropType)
        ensures
            prop_type_spec(value@, t),
    {
        if crate::text::str_eq(value, "string") {
            PropType::String
        } else if crate::text::str_eq(value, "bool") {
            PropType::Bool
        } else if crate::text::str_eq(value, "int") {
            PropType::Int
        } else {
            let cs = crate::outside::chars_of(value);
            let lit = crate::outside::chars_of("enum");
            if cs.len() > 5 && crate::text::matches_at(cs.as_slice(), lit.as_slice(), 0)
                && crate::text::is_whitespace(cs[4]) && enum_body_ok(cs.as_slice(), 5) {
                proof {
                    reveal_strlit("enum");
                    assert(cs@.subrange(0, 4) == "enum"@);
                }
                PropType::Enum(crate::text::split_string(cs.as_slice(), 5, ' '))
            } else {
                proof {
                    reveal_strlit("enum");
                    if cs@.len() > 5 && cs@.subrange(0, 4) == "enum"@ {
                        assert(crate::text::occurs_at(cs@, lit@, 0));
                    }
                }
                PropType::Unknown(value.to_owned())
            }
        }
    }
}

impl Wakefulness {
    /// The power state named by a text, in any case: `awake`, `asleep` or
    /// `dreaming` once lower-cased; any other text is `InvalidInput`.
    pub fn try_from_str(value: &str) -> (r: crate::error::Result<Wakefulness>)
        ensures
            ({
                let l = crate::outside::lowercase_of(value@);
                if l == "awake"@ {
                    r == Ok::<Wakefulness, crate::error::AdbError>(Wakefulness::Awake)
                } else if l == "asleep"@ {
                    r == Ok::<Wakefulness, crate::error::AdbError>(Wakefulness::Asleep)
                } else if l == "dreaming"@ {
                    r == Ok::<Wakefulness, crate::error::AdbError>(Wakefulness::Dreaming)
                } else {
                    r == Err::<Wakefulness, crate::error::AdbError>(crate::error::AdbError::InvalidInput)
                }
            }),
    {
        let l = crate::outside::lowercase(value);
        if crate::text::str_eq(l.as_str(), "awake") {
            Ok(Wakefulness::Awake)
        } else if crate::text::str_eq(l.as_str(), "asleep") {
            Ok(Wakefulness::Asleep)
        } else if crate::text::str_eq(l.as_str(), "dreaming") {
            Ok(Wakefulness::Dreaming)
        } else {
            Err(crate::error::AdbError::InvalidInput)
        }
    }
}

} // verus!
