//! Option sets of the device tools and the arguments each one stands for.
use vstd::prelude::*;
use crate::command::push_str;
use crate::text::{decimal, int_decimal, u64_string, i64_string};
use crate::types::{InstallLocationOption, install_location_name};

verus! {

/// A value that stands for command-line arguments.
pub trait AsArgs<S> {
    fn as_args(&self) -> Vec<S>;
}

/// A value that stands for one command-line argument.
pub trait AsArg<S> {
    fn as_arg(&self) -> S;
}

/// Options of `ffplay` when it shows a mirrored screen.
#[derive(Clone, Copy, Debug, PartialEq, Eq, Hash)]
pub struct FFPlayOptions {
    pub framerate: Option<u16>,
    pub size: Option<(u16, u16)>,
    pub probesize: Option<u16>,
}

/// Options of `screenrecord`.
#[derive(Clone, Copy, Debug, PartialEq, Eq, Hash)]
pub struct ScreenRecordOptions {
    /// `--bit-rate`, in bits per second.
    pub bitrate: Option<u64>,
    /// `--time-limit`, in seconds.
    pub timelimit: Option<u64>,
    /// `--rotate`.
    pub rotate: Option<bool>,
    /// `--bugreport`.
    pub bug_report: Option<bool>,
    /// `--size <width>x<height>`.
    pub size: Option<(u16, u16)>,
    /// `--verbose`.
    pub verbose: bool,
}

/// Options of `pm uninstall`.
#[derive(Clone, Debug, PartialEq, Eq)]
pub struct UninstallOptions {
    /// `-k`: keep the data and cache directories.
    pub keep_data: bool,
    /// `--user`.
    pub user: Option<String>,
    /// `--versionCode`.
    pub version_code: Option<i32>,
}

/// Filters of `pm list packages`.
#[derive(Clone, Debug, PartialEq, Eq)]
pub struct ListPackageFilter {
    /// `-d`: disabled packages only.
    pub show_only_disabled: bool,
    /// `-e`: enabled packages only.
    pub show_only_enabed: bool,
    /// `-s`: system packages only.
    pub show_only_system: bool,
    /// `-3`: third party packages only.
    pub show_only3rd_party: bool,
    /// `--apex-only`.
    pub apex_only: bool,
    /// `--uid <uid>`.
    pub uid: Option<String>,
    /// `--user <user>`.
    pub user: Option<String>,
}

/// What `pm list packages` shows of each package.
#[derive(Clone, Copy, Debug, PartialEq, Eq)]
pub struct ListPackageDisplayOptions {
    /// `-U`: the package's uid.
    pub show_uid: bool,
    /// `--show-versioncode`.
    pub show_version_code: bool,
    /// `-u`: uninstalled packages too.
    pub include_uninstalled: bool,
    /// `-f`: the package's file.
    pub show_apk_file: bool,
}

/// Options of `pm install`.
#[derive(Clone, Debug, PartialEq, Eq)]
pub struct InstallOptions {
    /// `--user <user>`.
    pub user: Option<String>,
    /// `--dont-kill`.
    pub dont_kill: bool,
    /// `--restrict-permissions`.
    pub restrict_permissions: bool,
    /// `--pkg <package>`.
    pub package_name: Option<String>,
    /// `--install-location <0|1|2>`.
    pub install_location: Option<InstallLocationOption>,
    /// `-g`: grant every runtime permission.
    pub grant_permissions: bool,
    /// `-f`.
    pub force: bool,
    /// `-r`: replace an installed package.
    pub replace_existing_application: bool,
    /// `-d`: allow a lower version code.
    pub allow_version_downgrade: bool,
}

/// An argument that a flag adds when set.
pub open spec fn flag(b: bool, a: Seq<char>) -> Seq<Seq<char>> {
    if b {
        seq![a]
    } else {
        seq![]
    }
}

/// `<width>x<height>`.
pub open spec fn size_text(w: u16, h: u16) -> Seq<char> {
    decimal(w as nat) + "x"@ + decimal(h as nat)
}

/// The arguments of `ffplay` options.
pub open spec fn ffplay_args(o: FFPlayOptions) -> Seq<Seq<char>> {
    (match o.framerate {
        Some(f) => seq!["-framerate"@, decimal(f as nat)],
        None => seq![],
    }) + (match o.probesize {
        Some(p) => seq!["-probesize"@, decimal(p as nat)],
        None => seq![],
    }) + (match o.size {
        Some(s) => seq!["-vf"@, "scale="@ + decimal(s.0 as nat) + ":"@ + decimal(s.1 as nat)],
        None => seq![],
    })
}

/// The arguments of `screenrecord` options.
pub open spec fn screen_record_args(o: ScreenRecordOptions) -> Seq<Seq<char>> {
    (match o.bitrate {
        Some(b) => seq!["--bit-rate"@, decimal(b as nat)],
        None => seq![],
    }) + (match o.timelimit {
        Some(t) => seq!["--time-limit"@, decimal(t as nat)],
        None => seq![],
    }) + flag(o.rotate == Some(true), "--rotate"@) + flag(o.bug_report == Some(true), "--bugreport"@)
        + flag(o.verbose, "--verbose"@) + (match o.size {
        Some(s) => seq!["--size"@, size_text(s.0, s.1)],
        None => seq![],
    })
}

/// The arguments of `pm uninstall` options.
pub open spec fn uninstall_args(o: UninstallOptions) -> Seq<Seq<char>> {
    flag(o.keep_data, "-k"@) + (match o.user {
        Some(u) => seq!["--user"@, u@],
        None => seq![],
    }) + (match o.version_code {
        Some(v) => seq!["--versionCode"@, int_decimal(v as int)],
        None => seq![],
    })
}

/// The arguments of `pm list packages` filters; `--uid` and `--user` come
/// as one argument each with their value.
pub open spec fn list_filter_args(o: ListPackageFilter) -> Seq<Seq<char>> {
    flag(o.show_only_disabled, "-d"@) + flag(o.show_only_enabed, "-e"@) + flag(o.show_only_system, "-s"@)
        + flag(o.show_only3rd_party, "-3"@) + flag(o.apex_only, "--apex-only"@) + (match o.uid {
        Some(u) => seq!["--uid "@ + u@],
        None => seq![],
    }) + (match o.user {
        Some(u) => seq!["--user "@ + u@],
        None => seq![],
    })
}

/// The arguments of `pm list packages` display options.
pub open spec fn list_display_args(o: ListPackageDisplayOptions) -> Seq<Seq<char>> {
    flag(o.show_uid, "-U"@) + flag(o.show_version_code, "--show-versioncode"@) + flag(
        o.include_uninstalled,
        "-u"@,
    ) + flag(o.show_apk_file, "-f"@)
}

/// The arguments of `pm install` options; `--user`, `--pkg` and
/// `--install-location` come as one argument each with their value.
pub open spec fn install_args(o: InstallOptions) -> Seq<Seq<char>> {
    (match o.user {
        Some(u) => seq!["--user "@ + u@],
        None => seq![],
    }) + (match o.package_name {
        Some(p) => seq!["--pkg "@ + p@],
        None => seq![],
    }) + (match o.install_location {
        Some(l) => seq!["--install-location "@ + install_location_name(l)],
        None => seq![],
    }) + flag(o.dont_kill, "--dont-kill"@) + flag(o.restrict_permissions, "--restrict-permissions"@)
        + flag(o.grant_permissions, "-g"@) + flag(o.force, "-f"@) + flag(
        o.replace_existing_application,
        "-r"@,
    ) + flag(o.allow_version_downgrade, "-d"@)
}

fn add_flag(v: Vec<String>, b: bool, a: &str) -> (r: Vec<String>)
    ensures
        r.deep_view() == v.deep_view() + flag(b, a@),
{
    let ghost v0 = v.deep_view();
    if b {
        let r = push_str(v, a.to_owned());
        assert(r.deep_view() =~= v0 + flag(b, a@));
        r
    } else {
        assert(v.deep_view() =~= v0 + flag(b, a@));
        v
    }
}

fn add_pair(v: Vec<String>, a: &str, b: String) -> (r: Vec<String>)
    ensures
        r.deep_view() == v.deep_view() + seq![a@, b@],
{
    let ghost v0 = v.deep_view();
    let r = push_str(push_str(v, a.to_owned()), b);
    assert(r.deep_view() =~= v0 + seq![a@, b@]);
    r
}

fn add_joined(v: Vec<String>, a: &str, b: &String) -> (r: Vec<String>)
    ensures
        r.deep_view() == v.deep_view() + seq![a@ + b@],
{
    let ghost v0 = v.deep_view();
    let mut s = a.to_owned();
    s.append(b.as_str());
    let r = push_str(v, s);
    assert(r.deep_view() =~= v0 + seq![a@ + b@]);
    r
}

fn empty_args() -> (r: Vec<String>)
    ensures
        r.deep_view() == Seq::<Seq<char>>::empty(),
{
    let r: Vec<String> = Vec::new();
    assert(r.deep_view() =~= Seq::<Seq<char>>::empty());
    r
}

impl FFPlayOptions {
    /// Frame rate 30, scaled to 1440:800, probe size 300.
    pub fn default() -> (o: FFPlayOptions)
        ensures
            o == (FFPlayOptions { framerate: Some(30), size: Some((1440, 800)), probesize: Some(300) }),
    {
        FFPlayOptions { framerate: Some(30), size: Some((1440, 800)), probesize: Some(300) }
    }
}

impl AsArgs<String> for FFPlayOptions {
    /// `-framerate <n>`, `-probesize <n>`, `-vf scale=<w>:<h>`, each when set.
    fn as_args(&self) -> (r: Vec<String>)
        ensures
            r.deep_view() == ffplay_args(*self),
    {
        let mut v = empty_args();
        match self.framerate {
            Some(f) => {
                v = add_pair(v, "-framerate", u64_string(f as u64));
            },
            None => {},
        }
        match self.probesize {
            Some(p) => {
                v = add_pair(v, "-probesize", u64_string(p as u64));
            },
            None => {},
        }
        match self.size {
            Some(s) => {
                let mut t = "scale=".to_owned();
                t.append(u64_string(s.0 as u64).as_str());
                t.append(":");
                t.append(u64_string(s.1 as u64).as_str());
                v = add_pair(v, "-vf", t);
            },
            None => {},
        }
        assert(v.deep_view() =~= ffplay_args(*self));
        v
    }
}

impl ScreenRecordOptions {
    /// Bit rate 20 Mbit/s and a time limit of ten seconds, nothing else.
    pub fn new() -> (o: ScreenRecordOptions)
        ensures
            o == (ScreenRecordOptions {
                bitrate: Some(20000000),
                timelimit: Some(10),
                rotate: None,
                bug_report: None,
                size: None,
                verbose: false,
            }),
    {
        ScreenRecordOptions {
            bitrate: Some(20000000),
            timelimit: Some(10),
            rotate: None,
            bug_report: None,
            size: None,
            verbose: false,
        }
    }

    /// The defaults of the newer client: bit rate 4 Mbit/s and a time limit
    /// of ten seconds, nothing else.
    pub fn client_default() -> (o: ScreenRecordOptions)
        ensures
            o == (ScreenRecordOptions {
                bitrate: Some(4000000),
                timelimit: Some(10),
                rotate: None,
                bug_report: None,
                size: None,
                verbose: false,
            }),
    {
        ScreenRecordOptions {
            bitrate: Some(4000000),
            timelimit: Some(10),
            rotate: None,
            bug_report: None,
            size: None,
            verbose: false,
        }
    }
}

impl AsArgs<String> for ScreenRecordOptions {
    /// `--bit-rate <n>`, `--time-limit <s>`, `--rotate`, `--bugreport`,
    /// `--verbose`, `--size <w>x<h>`, each when set.
    fn as_args(&self) -> (r: Vec<String>)
        ensures
            r.deep_view() == screen_record_args(*self),
    {
        let mut v = empty_args();
        match self.bitrate {
            Some(b) => {
                v = add_pair(v, "--bit-rate", u64_string(b));
            },
            None => {},
        }
        match self.timelimit {
            Some(t) => {
                v = add_pair(v, "--time-limit", u64_string(t));
            },
            None => {},
        }
        let rotate = match self.rotate {
            Some(b) => b,
            None => false,
        };
        let bug_report = match self.bug_report {
            Some(b) => b,
            None => false,
        };
        v = add_flag(v, rotate, "--rotate");
        v = add_flag(v, bug_report, "--bugreport");
        v = add_flag(v, self.verbose, "--verbose");
        match self.size {
            Some(s) => {
                let mut t = u64_string(s.0 as u64);
                t.append("x");
                t.append(u64_string(s.1 as u64).as_str());
                v = add_pair(v, "--size", t);
            },
            None => {},
        }
        assert(v.deep_view() =~= screen_record_args(*self));
        v
    }
}

impl AsArgs<String> for UninstallOptions {
    /// `-k`, `--user <user>`, `--versionCode <n>`, each when set.
    fn as_args(&self) -> (r: Vec<String>)
        ensures
            r.deep_view() == uninstall_args(*self),
    {
        let mut v = add_flag(empty_args(), self.keep_data, "-k");
        match &self.user {
            Some(u) => {
                v = add_pair(v, "--user", u.clone());
            },
            None => {},
        }
        match self.version_code {
            Some(c) => {
                v = add_pair(v, "--versionCode", i64_string(c as i64));
            },
            None => {},
        }
        assert(v.deep_view() =~= uninstall_args(*self));
        v
    }
}

impl AsArgs<String> for ListPackageFilter {
    /// `-d`, `-e`, `-s`, `-3`, `--apex-only`, `--uid <uid>`, `--user <user>`,
    /// each when set.
    fn as_args(&self) -> (r: Vec<String>)
        ensures
            r.deep_view() == list_filter_args(*self),
    {
        let mut v = add_flag(empty_args(), self.show_only_disabled, "-d");
        v = add_flag(v, self.show_only_enabed, "-e");
        v = add_flag(v, self.show_only_system, "-s");
        v = add_flag(v, self.show_only3rd_party, "-3");
        v = add_flag(v, self.apex_only, "--apex-only");
        match &self.uid {
            Some(u) => {
                v = add_joined(v, "--uid ", u);
            },
            None => {},
        }
        match &self.user {
            Some(u) => {
                v = add_joined(v, "--user ", u);
            },
            None => {},
        }
        assert(v.deep_view() =~= list_filter_args(*self));
        v
    }
}

impl ListPackageDisplayOptions {
    /// Uid, version code and file shown; uninstalled packages left out.
    pub fn default() -> (o: ListPackageDisplayOptions)
        ensures
            o == (ListPackageDisplayOptions {
                show_uid: true,
                show_version_code: true,
                include_uninstalled: false,
                show_apk_file: true,
            }),
    {
        ListPackageDisplayOptions {
            show_uid: true,
            show_version_code: true,
            include_uninstalled: false,
            show_apk_file: true,
        }
    }
}

impl AsArgs<String> for ListPackageDisplayOptions {
    /// `-U`, `--show-versioncode`, `-u`, `-f`, each when set.
    fn as_args(&self) -> (r: Vec<String>)
        ensures
            r.deep_view() == list_display_args(*self),
    {
        let mut v = add_flag(empty_args(), self.show_uid, "-U");
        v = add_flag(v, self.show_version_code, "--show-versioncode");
        v = add_flag(v, self.include_uninstalled, "-u");
        v = add_flag(v, self.show_apk_file, "-f");
        assert(v.deep_view() =~= list_display_args(*self));
        v
    }
}

impl AsArgs<String> for InstallOptions {
    /// `--user <user>`, `--pkg <package>`, `--install-location <n>`,
    /// `--dont-kill`, `--restrict-permissions`, `-g`, `-f`, `-r`, `-d`, each
    /// when set.
    fn as_args(&self) -> (r: Vec<String>)
        ensures
            r.deep_view() == install_args(*self),
    {
        let mut v = empty_args();
        match &self.user {
            Some(u) => {
                v = add_joined(v, "--user ", u);
            },
            None => {},
        }
        match &self.package_name {
            Some(p) => {
                v = add_joined(v, "--pkg ", p);
            },
            None => {},
        }
        match self.install_location {
            Some(l) => {
                let n = l.as_str().to_owned();
                v = add_joined(v, "--install-location ", &n);
            },
            None => {},
        }
        v = add_flag(v, self.dont_kill, "--dont-kill");
        v = add_flag(v, self.restrict_permissions, "--restrict-permissions");
        v = add_flag(v, self.grant_permissions, "-g");
        v = add_flag(v, self.force, "-f");
        v = add_flag(v, self.replace_existing_application, "-r");
        v = add_flag(v, self.allow_version_downgrade, "-d");
        assert(v.deep_view() =~= install_args(*self));
        v
    }
}

} // verus!

verus! {

/// The arguments of a user selection: `--user <id>`, `all`, `current`, or none.
pub open spec fn user_args(u: crate::types::UserOption) -> Seq<Seq<char>> {
    match u {
        crate::types::UserOption::UserId(id) => seq!["--user"@, id@],
        crate::types::UserOption::All => seq!["all"@],
        crate::types::UserOption::Current => seq!["current"@],
        crate::types::UserOption::NoUser => seq![],
    }
}

impl AsArgs<String> for crate::types::UserOption {
    /// See [`user_args`].
    fn as_args(&self) -> (r: Vec<String>)
        ensures
            r.deep_view() == user_args(*self),
    {
        let r = match self {
            crate::types::UserOption::UserId(id) => add_pair(empty_args(), "--user", id.clone()),
            crate::types::UserOption::All => add_flag(empty_args(), true, "all"),
            crate::types::UserOption::Current => add_flag(empty_args(), true, "current"),
            crate::types::UserOption::NoUser => empty_args(),
        };
        assert(r.deep_view() =~= user_args(*self));
        r
    }
}

impl AsArg<String> for crate::types::KeyEventType {
    /// `--longpress` or `--doubletap`.
    fn as_arg(&self) -> (r: String)
        ensures
            r@ == crate::types::key_event_type_arg(*self),
    {
        match self {
            crate::types::KeyEventType::LongPress => "--longpress".to_owned(),
            crate::types::KeyEventType::DoubleTap => "--doubletap".to_owned(),
        }
    }
}

} // verus!
