//! Properties, `dumpsys`, screen recording, taps and swipes, intents and the
//! activity manager.
use vstd::prelude::*;
use crate::client::{AdbClient, shell_view, client_view};
use crate::outside::{mac_address_of, parse_mac_address, uuid_of, parse_uuid};
use crate::command::{push_str, concat, pair, single, AdbCommand, ProcessOutput, failed_run, output_error};
use crate::error::{AdbError, Result};
use crate::intent::{Intent, intent_words, join_with, join_words};
use crate::options::{
    AsArgs, ScreenRecordOptions, FFPlayOptions, screen_record_args, ffplay_args, user_args,
};
use crate::shell::{AdbShell, input_args, input_prefix, with_word, opt_arg};
use crate::text::{utf8_text, trim, trim_end, int_decimal, decimal, i64_string, u64_string, rustix_text};
use crate::types::{InputSource, UserOption, MemoryStatus, memory_status_name, Reconnect, reconnect_name};

verus! {

/// The value `setprop` is given: an empty value is written as `""`.
pub open spec fn prop_value(v: Seq<char>) -> Seq<char> {
    if v.len() == 0 {
        "\"\""@
    } else {
        v
    }
}

/// `dumpsys [-T <ms>] [--pid | --thread] [--proto] [--skip <a,b,..> | <service> <args>..]`.
pub open spec fn dumpsys_args(
    service: Option<Seq<char>>,
    arguments: Option<Seq<Seq<char>>>,
    timeout_ms: Option<u64>,
    pid: bool,
    thread: bool,
    proto: bool,
    skip: Option<Seq<Seq<char>>>,
) -> Seq<Seq<char>> {
    seq!["dumpsys"@] + (match timeout_ms {
        Some(t) => seq!["-T"@, decimal(t as nat)],
        None => seq![],
    }) + (if pid {
        seq!["--pid"@]
    } else if thread {
        seq!["--thread"@]
    } else {
        seq![]
    }) + (if proto {
        seq!["--proto"@]
    } else {
        seq![]
    }) + match skip {
        Some(s) => seq!["--skip"@, join_with(s, ","@)],
        None => match service {
            Some(name) => seq![name] + match arguments {
                Some(a) => a,
                None => seq![],
            },
            None => seq![],
        },
    }
}

/// The options that mirroring records with: the given ones or the
/// defaults, without `--verbose` and `--bugreport`.
pub open spec fn mirror_options(o: Option<ScreenRecordOptions>) -> ScreenRecordOptions {
    let b = match o {
        Some(x) => x,
        None => ScreenRecordOptions {
            bitrate: Some(20000000),
            timelimit: Some(10),
            rotate: None,
            bug_report: None,
            size: None,
            verbose: false,
        },
    };
    ScreenRecordOptions { verbose: false, bug_report: None, ..b }
}

/// The one shell word that streams the screen as H.264 to standard output.
pub open spec fn mirror_line(o: Option<ScreenRecordOptions>) -> Seq<char> {
    "screenrecord --output-format=h264 "@ + join_with(screen_record_args(mirror_options(o)), " "@) + " -"@
}

/// The arguments of `ffplay` that shows the stream: the play options (the
/// defaults when none are given), then the fixed options that read standard
/// input.
pub open spec fn mirror_player_args(p: Option<FFPlayOptions>) -> Seq<Seq<char>> {
    ffplay_args(
        match p {
            Some(x) => x,
            None => FFPlayOptions { framerate: Some(30), size: Some((1440, 800)), probesize: Some(300) },
        },
    ) + seq!["-loglevel"@, "repeat+level+verbose"@, "-an"@, "-autoexit"@, "-sync"@, "video"@, "-"@]
}

/// The positions of a swipe, in one word: `x1 y1 x2 y2`.
pub open spec fn swipe_text(from_pos: (i32, i32), to_pos: (i32, i32)) -> Seq<char> {
    int_decimal(from_pos.0 as int) + " "@ + int_decimal(from_pos.1 as int) + " "@ + int_decimal(to_pos.0 as int)
        + " "@ + int_decimal(to_pos.1 as int)
}

/// The words of an intent as one `am` argument.
pub open spec fn intent_text(i: Intent) -> Seq<char> {
    join_with(intent_words(i), " "@)
}

fn with_words(v: Vec<String>, w: &Vec<String>) -> (r: Vec<String>)
    ensures
        r.deep_view() == v.deep_view() + w.deep_view(),
{
    let c = w.clone();
    assert(c.deep_view() =~= w.deep_view()) by {
        assert(forall|i: int| 0 <= i < c@.len() ==> #[trigger] c@[i] == w@[i]);
    }
    concat(v, c)
}

impl<'a> AdbShell<'a> {
    /// `setprop <key> <value>`; an empty value is written as `""`.
    pub fn setprop(&self, key: &str, value: &str) -> (c: AdbCommand)
        ensures
            c@ == shell_view(*self.parent, seq!["setprop"@, key@, prop_value(value@)], None, false),
    {
        let n = crate::outside::chars_of(value).len();
        let v = if n == 0 {
            "\"\"".to_owned()
        } else {
            value.to_owned()
        };
        proof {
            reveal_strlit("\"\"");
        }
        let args = push_str(pair("setprop", key.to_owned()), v);
        assert(args.deep_view() =~= seq!["setprop"@, key@, prop_value(value@)]);
        self.command(args)
    }

    /// `setprop <key> ""`: the property set empty.
    pub fn clear_prop(&self, key: &str) -> (c: AdbCommand)
        ensures
            c@ == shell_view(*self.parent, seq!["setprop"@, key@, "\"\""@], None, false),
    {
        proof {
            reveal_strlit("");
        }
        self.setprop(key, "")
    }

    /// `getprop -T <key>`: the type of a property.
    pub fn getprop_type_command(&self, key: &str) -> (c: AdbCommand)
        ensures
            c@ == shell_view(*self.parent, seq!["getprop"@, "-T"@, key@], None, false),
    {
        let v = push_str(pair("getprop", "-T".to_owned()), key.to_owned());
        assert(v.deep_view() =~= seq!["getprop"@, "-T"@, key@]);
        self.command(v)
    }

    /// The type `getprop -T` printed, as it stands; output that is not UTF-8
    /// is the `Errno` `EINVAL`.
    pub fn getprop_type(&self, stdout: &Vec<u8>) -> (r: Result<String>)
        ensures
            match utf8_text(stdout@) {
                Some(t) => r matches Ok(v) && v@ == t,
                None => r == Err::<String, AdbError>(AdbError::Errno(22)),
            },
    {
        match rustix_text(stdout) {
            Ok(v) => Ok(crate::outside::string_of(v.as_slice())),
            Err(e) => Err(e),
        }
    }

    /// `dumpsys` with its options; see [`dumpsys_args`]. The timeout is
    /// handed to `dumpsys`, in milliseconds.
    pub fn dumpsys(
        &self,
        service: Option<&str>,
        arguments: Option<Vec<String>>,
        timeout_ms: Option<u64>,
        pid: bool,
        thread: bool,
        proto: bool,
        skip: Option<Vec<String>>,
    ) -> (c: AdbCommand)
        ensures
            c@ == shell_view(
                *self.parent,
                dumpsys_args(
                    match service {
                        Some(s) => Some(s@),
                        None => None,
                    },
                    match arguments {
                        Some(a) => Some(a.deep_view()),
                        None => None,
                    },
                    timeout_ms,
                    pid,
                    thread,
                    proto,
                    match skip {
                        Some(s) => Some(s.deep_view()),
                        None => None,
                    },
                ),
                None,
                false,
            ),
    {
        let mut v = single("dumpsys");
        match timeout_ms {
            Some(t) => {
                v = push_str(with_word(v, "-T"), u64_string(t));
            },
            None => {},
        }
        if pid {
            v = with_word(v, "--pid");
        } else if thread {
            v = with_word(v, "--thread");
        }
        if proto {
            v = with_word(v, "--proto");
        }
        match &skip {
            Some(s) => {
                v = push_str(with_word(v, "--skip"), join_words(s, ","));
            },
            None => match service {
                Some(name) => {
                    v = push_str(v, name.to_owned());
                    match &arguments {
                        Some(a) => {
                            v = with_words(v, a);
                        },
                        None => {},
                    }
                },
                None => {},
            },
        }
        assert(v.deep_view() =~= dumpsys_args(
            match service {
                Some(s) => Some(s@),
                None => None,
            },
            match arguments {
                Some(a) => Some(a.deep_view()),
                None => None,
            },
            timeout_ms,
            pid,
            thread,
            proto,
            match skip {
                Some(s) => Some(s.deep_view()),
                None => None,
            },
        ));
        self.command(v)
    }

    /// `screenrecord <options> <output>`: records the screen into a file on
    /// the device.
    pub fn screen_record(&self, options: Option<ScreenRecordOptions>, output: &str) -> (c: AdbCommand)
        ensures
            c@ == shell_view(
                *self.parent,
                seq!["screenrecord"@] + match options {
                    Some(o) => screen_record_args(o),
                    None => seq![],
                } + seq![output@],
                None,
                false,
            ),
    {
        let mut v = single("screenrecord");
        match options {
            Some(o) => {
                v = concat(v, o.as_args());
            },
            None => {},
        }
        let v = push_str(v, output.to_owned());
        assert(v.deep_view() =~= seq!["screenrecord"@] + match options {
            Some(o) => screen_record_args(o),
            None => seq![],
        } + seq![output@]);
        self.command(v)
    }

    /// Mirroring the screen: the shell command that streams it (see
    /// [`mirror_line`]) and the arguments of the `ffplay` that reads the
    /// stream on its standard input (see [`mirror_player_args`]).
    pub fn screen_mirror(&self, options: Option<ScreenRecordOptions>, play_options: Option<FFPlayOptions>) -> (r: (
        AdbCommand,
        Vec<String>,
    ))
        ensures
            r.0@ == shell_view(*self.parent, seq![mirror_line(options)], None, false),
            r.1.deep_view() == mirror_player_args(play_options),
    {
        let base = match options {
            Some(o) => o,
            None => ScreenRecordOptions::new(),
        };
        let o = ScreenRecordOptions { verbose: false, bug_report: None, ..base };
        assert(o == mirror_options(options));
        let mut line = "screenrecord --output-format=h264 ".to_owned();
        let joined = join_words(&o.as_args(), " ");
        line.append(joined.as_str());
        line.append(" -");
        let c = self.command(single(line.as_str()));
        let p = match play_options {
            Some(x) => x,
            None => FFPlayOptions::default(),
        };
        let tail = crate::command::strings(&["-loglevel", "repeat+level+verbose", "-an", "-autoexit", "-sync", "video", "-"]);
        assert(crate::command::texts(seq!["-loglevel", "repeat+level+verbose", "-an", "-autoexit", "-sync", "video", "-"])
            =~= seq!["-loglevel"@, "repeat+level+verbose"@, "-an"@, "-autoexit"@, "-sync"@, "video"@, "-"@]);
        let args = concat(p.as_args(), tail);
        (c, args)
    }

    /// `input [source] swipe "<x1> <y1> <x2> <y2>" [ms]`.
    pub fn send_swipe(
        &self,
        from_pos: (i32, i32),
        to_pos: (i32, i32),
        duration_ms: Option<u64>,
        source: Option<InputSource>,
    ) -> (c: AdbCommand)
        ensures
            c@ == shell_view(
                *self.parent,
                input_args(source) + seq!["swipe"@, swipe_text(from_pos, to_pos)] + match duration_ms {
                    Some(d) => seq![decimal(d as nat)],
                    None => seq![],
                },
                None,
                false,
            ),
    {
        let mut pos = i64_string(from_pos.0 as i64);
        pos.append(" ");
        pos.append(i64_string(from_pos.1 as i64).as_str());
        pos.append(" ");
        pos.append(i64_string(to_pos.0 as i64).as_str());
        pos.append(" ");
        pos.append(i64_string(to_pos.1 as i64).as_str());
        let mut v = push_str(with_word(input_prefix(source), "swipe"), pos);
        match duration_ms {
            Some(d) => {
                v = push_str(v, u64_string(d));
            },
            None => {},
        }
        assert(v.deep_view() =~= input_args(source) + seq!["swipe"@, swipe_text(from_pos, to_pos)] + match duration_ms {
            Some(d) => seq![decimal(d as nat)],
            None => seq![],
        });
        self.command(v)
    }

    /// The same command as [`AdbShell::send_swipe`]; the caller keeps only
    /// how it ended.
    pub fn try_send_swipe(
        &self,
        from_pos: (i32, i32),
        to_pos: (i32, i32),
        duration_ms: Option<u64>,
        source: Option<InputSource>,
    ) -> (c: AdbCommand)
        ensures
            c@ == shell_view(
                *self.parent,
                input_args(source) + seq!["swipe"@, swipe_text(from_pos, to_pos)] + match duration_ms {
                    Some(d) => seq![decimal(d as nat)],
                    None => seq![],
                },
                None,
                false,
            ),
    {
        self.send_swipe(from_pos, to_pos, duration_ms, source)
    }

    /// `input [source] tap <x> <y>`.
    pub fn send_tap(&self, position: (i32, i32), source: Option<InputSource>) -> (c: AdbCommand)
        ensures
            c@ == shell_view(
                *self.parent,
                input_args(source) + seq!["tap"@, int_decimal(position.0 as int), int_decimal(position.1 as int)],
                None,
                false,
            ),
    {
        let v = push_str(
            push_str(with_word(input_prefix(source), "tap"), i64_string(position.0 as i64)),
            i64_string(position.1 as i64),
        );
        assert(v.deep_view() =~= input_args(source) + seq![
            "tap"@,
            int_decimal(position.0 as int),
            int_decimal(position.1 as int),
        ]);
        self.command(v)
    }

    /// `adb shell <args>`, killed after `timeout_ms` when given; its output
    /// is what the caller reads.
    pub fn exec(&self, args: Vec<String>, timeout_ms: Option<u64>) -> (c: AdbCommand)
        ensures
            c@ == shell_view(*self.parent, args.deep_view(), timeout_ms, false),
    {
        self.parent.shell_command(args, timeout_ms, false)
    }

    /// `adb shell <args>` with a timeout; the same command as
    /// [`AdbShell::exec`].
    pub fn exec_timeout(&self, args: Vec<String>, timeout_ms: Option<u64>) -> (c: AdbCommand)
        ensures
            c@ == shell_view(*self.parent, args.deep_view(), timeout_ms, false),
    {
        self.exec(args, timeout_ms)
    }

    /// The same command as [`AdbShell::exec`]; the caller keeps only how it
    /// ended.
    pub fn try_exec(&self, args: Vec<String>, timeout_ms: Option<u64>) -> (c: AdbCommand)
        ensures
            c@ == shell_view(*self.parent, args.deep_view(), timeout_ms, false),
    {
        self.parent.shell_command(args, timeout_ms, false)
    }

    /// Whether a command is there, from the outcome of looking up its path:
    /// yes when a path was found; the error otherwise.
    pub fn has_command(&self, path: Result<String>) -> (r: Result<bool>)
        ensures
            match path {
                Ok(_) => r == Ok::<bool, AdbError>(true),
                Err(e) => r == Err::<bool, AdbError>(e),
            },
    {
        match path {
            Ok(_) => Ok(true),
            Err(e) => Err(e),
        }
    }

    /// `am broadcast <intent>`, killed after one second.
    pub fn broadcast(&self, intent: &Intent) -> (c: AdbCommand)
        ensures
            c@ == shell_view(*self.parent, seq!["am"@, "broadcast"@, intent_text(*intent)], Some(1000u64), false),
    {
        let v = push_str(pair("am", "broadcast".to_owned()), intent.to_string());
        assert(v.deep_view() =~= seq!["am"@, "broadcast"@, intent_text(*intent)]);
        self.parent.shell_command(v, Some(1000), false)
    }

    /// `am start <intent>`.
    pub fn start(&self, intent: &Intent) -> (c: AdbCommand)
        ensures
            c@ == shell_view(*self.parent, seq!["am"@, "start"@, intent_text(*intent)], None, false),
    {
        let v = push_str(pair("am", "start".to_owned()), intent.to_string());
        assert(v.deep_view() =~= seq!["am"@, "start"@, intent_text(*intent)]);
        self.command(v)
    }

    /// `am startservice <intent>`.
    pub fn start_service(&self, intent: &Intent) -> (c: AdbCommand)
        ensures
            c@ == shell_view(*self.parent, seq!["am"@, "startservice"@, intent_text(*intent)], None, false),
    {
        let v = push_str(pair("am", "startservice".to_owned()), intent.to_string());
        assert(v.deep_view() =~= seq!["am"@, "startservice"@, intent_text(*intent)]);
        self.command(v)
    }

    /// The package manager of this shell's device.
    pub fn pm(&self) -> (m: crate::pm::PackageManager<'a>)
        ensures
            *m.parent.parent == *self.parent,
    {
        crate::pm::PackageManager { parent: AdbShell { parent: self.parent } }
    }
}

} // verus!

verus! {

/// The activity manager (`am`) of the device of a shell.
pub struct ActivityManager<'a> {
    pub parent: AdbShell<'a>,
}

impl<'a> ActivityManager<'a> {
    /// `am broadcast <intent>`, killed after one second.
    pub fn broadcast(&self, intent: &Intent) -> (c: AdbCommand)
        ensures
            c@ == shell_view(
                *self.parent.parent,
                seq!["am"@, "broadcast"@, intent_text(*intent)],
                Some(1000u64),
                false,
            ),
    {
        self.parent.broadcast(intent)
    }

    /// `am start <intent>`.
    pub fn start(&self, intent: &Intent) -> (c: AdbCommand)
        ensures
            c@ == shell_view(*self.parent.parent, seq!["am"@, "start"@, intent_text(*intent)], None, false),
    {
        self.parent.start(intent)
    }

    /// `am startservice <intent>`.
    pub fn start_service(&self, intent: &Intent) -> (c: AdbCommand)
        ensures
            c@ == shell_view(*self.parent.parent, seq!["am"@, "startservice"@, intent_text(*intent)], None, false),
    {
        self.parent.start_service(intent)
    }

    /// `am start-foreground-service <intent>`.
    pub fn start_foreground_service(&self, intent: &Intent) -> (c: AdbCommand)
        ensures
            c@ == shell_view(
                *self.parent.parent,
                seq!["am"@, "start-foreground-service"@, intent_text(*intent)],
                None,
                false,
            ),
    {
        let v = push_str(pair("am", "start-foreground-service".to_owned()), intent.to_string());
        assert(v.deep_view() =~= seq!["am"@, "start-foreground-service"@, intent_text(*intent)]);
        self.parent.command(v)
    }

    /// `am force-stop <package>`.
    pub fn force_stop(&self, package_name: &str) -> (c: AdbCommand)
        ensures
            c@ == shell_view(*self.parent.parent, seq!["am"@, "force-stop"@, package_name@], None, false),
    {
        self.parent.force_stop(package_name)
    }

    /// `am kill <user> <package>`: the background processes of the package.
    pub fn kill(&self, user: UserOption, package_name: &str) -> (c: AdbCommand)
        ensures
            c@ == shell_view(
                *self.parent.parent,
                seq!["am"@, "kill"@] + user_args(user) + seq![package_name@],
                None,
                false,
            ),
    {
        let v = push_str(concat(pair("am", "kill".to_owned()), user.as_args()), package_name.to_owned());
        assert(v.deep_view() =~= seq!["am"@, "kill"@] + user_args(user) + seq![package_name@]);
        self.parent.command(v)
    }

    /// `am kill-all`: every process that is safe to kill.
    pub fn kill_all(&self) -> (c: AdbCommand)
        ensures
            c@ == shell_view(*self.parent.parent, seq!["am"@, "kill-all"@], None, false),
    {
        self.parent.command(pair("am", "kill-all".to_owned()))
    }

    /// `am send-trim-memory <process> <level>`.
    pub fn trim_memory(&self, process_name: &str, status: MemoryStatus) -> (c: AdbCommand)
        ensures
            c@ == shell_view(
                *self.parent.parent,
                seq!["am"@, "send-trim-memory"@, process_name@, memory_status_name(status)],
                None,
                false,
            ),
    {
        let v = push_str(
            push_str(pair("am", "send-trim-memory".to_owned()), process_name.to_owned()),
            status.to_string(),
        );
        assert(v.deep_view() =~= seq!["am"@, "send-trim-memory"@, process_name@, memory_status_name(status)]);
        self.parent.command(v)
    }

    /// `am crash [user] <package or pid>`: a VM crash in that process.
    pub fn crash(&self, user_id: Option<String>, package_or_pid: &str) -> (c: AdbCommand)
        ensures
            c@ == shell_view(
                *self.parent.parent,
                seq!["am"@, "crash"@] + opt_arg(
                    match user_id {
                        Some(u) => Some(u@),
                        None => None,
                    },
                ) + seq![package_or_pid@],
                None,
                false,
            ),
    {
        let ghost u = match &user_id {
            Some(u) => Some(u@),
            None => None::<Seq<char>>,
        };
        let mut v = pair("am", "crash".to_owned());
        match user_id {
            Some(id) => {
                v = push_str(v, id);
            },
            None => {},
        }
        let v = push_str(v, package_or_pid.to_owned());
        assert(v.deep_view() =~= seq!["am"@, "crash"@] + opt_arg(u) + seq![package_or_pid@]);
        self.parent.command(v)
    }

    /// `am get-current-user`.
    pub fn get_current_user_command(&self) -> (c: AdbCommand)
        ensures
            c@ == shell_view(*self.parent.parent, seq!["am"@, "get-current-user"@], None, false),
    {
        self.parent.command(pair("am", "get-current-user".to_owned()))
    }

    /// The id of the foreground user: the trimmed output of a run that did
    /// not fail (see [`failed_run`]); a failed run is its `CmdError`, output
    /// that is not UTF-8 the `Errno` `EINVAL`.
    pub fn get_current_user(&self, output: &ProcessOutput) -> (r: Result<String>)
        ensures
            if failed_run(*output) {
                r matches Err(e) && output_error(*output, e)
            } else {
                match utf8_text(output.stdout@) {
                    Some(t) => r matches Ok(v) && v@ == trim(t),
                    None => r == Err::<String, AdbError>(AdbError::Errno(22)),
                }
            },
    {
        match crate::command::handle_result(output) {
            Err(e) => Err(e),
            Ok(()) => match rustix_text(&output.stdout) {
                Ok(v) => Ok(crate::text::trim_string(v.as_slice())),
                Err(e) => Err(e),
            },
        }
    }
}

impl<'a> AdbShell<'a> {
    /// The activity manager of this shell's device.
    pub fn am(&self) -> (m: ActivityManager<'a>)
        ensures
            *m.parent.parent == *self.parent,
    {
        ActivityManager { parent: AdbShell { parent: self.parent } }
    }
}

impl AdbClient {
    /// The package manager of the client's device.
    pub fn pm(&self) -> (m: crate::pm::PackageManager<'_>)
        ensures
            *m.parent.parent == *self,
    {
        crate::pm::PackageManager { parent: AdbShell { parent: self } }
    }

    /// The activity manager of the client's device.
    pub fn am(&self) -> (m: ActivityManager<'_>)
        ensures
            *m.parent.parent == *self,
    {
        ActivityManager { parent: AdbShell { parent: self } }
    }
}

} // verus!

verus! {

/// The MAC address written in the output of `cat`: the text without its
/// trailing white space, as [`mac_address_of`] reads it; not UTF-8 is the
/// `Errno` `EINVAL`, an address that does not read `MacParseError`.
pub open spec fn mac_output(b: Seq<u8>) -> core::result::Result<Seq<u8>, AdbError> {
    match utf8_text(b) {
        Some(t) => match mac_address_of(trim_end(t)) {
            Some(m) => Ok(m),
            None => Err(AdbError::MacParseError),
        },
        None => Err(AdbError::Errno(22)),
    }
}

fn mac_from_output(stdout: &Vec<u8>) -> (r: Result<[u8; 6]>)
    ensures
        match mac_output(stdout@) {
            Ok(m) => r matches Ok(b) && b@ == m,
            Err(e) => r == Err::<[u8; 6], AdbError>(e),
        },
{
    let cs = match rustix_text(stdout) {
        Ok(v) => v,
        Err(e) => {
            return Err(e);
        },
    };
    let t = crate::text::trim_end_string(cs.as_slice());
    match parse_mac_address(t.as_str()) {
        Some(b) => Ok(b),
        None => Err(AdbError::MacParseError),
    }
}

impl AdbClient {
    /// `mount -o rw,remount <dir>`: the directory writable.
    pub fn mount(&self, dir: &str) -> (c: AdbCommand)
        ensures
            c@ == shell_view(*self, seq!["mount -o rw,remount"@, dir@], None, false),
    {
        self.shell_command(pair("mount -o rw,remount", dir.to_owned()), None, false)
    }

    /// `mount -o ro,remount <dir>`: the directory read-only.
    pub fn unmount(&self, dir: &str) -> (c: AdbCommand)
        ensures
            c@ == shell_view(*self, seq!["mount -o ro,remount"@, dir@], None, false),
    {
        self.shell_command(pair("mount -o ro,remount", dir.to_owned()), None, false)
    }

    /// `adb <device> bugreport [output]`.
    pub fn bug_report(&self, output: Option<&str>) -> (c: AdbCommand)
        ensures
            c@ == client_view(
                *self,
                seq!["bugreport"@] + opt_arg(
                    match output {
                        Some(o) => Some(o@),
                        None => None,
                    },
                ),
                None,
            ),
    {
        let mut v = single("bugreport");
        match output {
            Some(o) => {
                v = push_str(v, o.to_owned());
            },
            None => {},
        }
        assert(v.deep_view() =~= seq!["bugreport"@] + opt_arg(
            match output {
                Some(o) => Some(o@),
                None => None,
            },
        ));
        self.adb_command(v, None)
    }

    /// `adb <device> pull <device path> <local path>`.
    pub fn pull(&self, src: &str, dst: &str) -> (c: AdbCommand)
        ensures
            c@ == client_view(*self, seq!["pull"@, src@, dst@], None),
    {
        let v = push_str(pair("pull", src.to_owned()), dst.to_owned());
        assert(v.deep_view() =~= seq!["pull"@, src@, dst@]);
        self.adb_command(v, None)
    }

    /// `adb <device> push <local path> <device path>`.
    pub fn push(&self, src: &str, dst: &str) -> (c: AdbCommand)
        ensures
            c@ == client_view(*self, seq!["push"@, src@, dst@], None),
    {
        let v = push_str(pair("push", src.to_owned()), dst.to_owned());
        assert(v.deep_view() =~= seq!["push"@, src@, dst@]);
        self.adb_command(v, None)
    }

    /// `cat /sys/class/net/eth0/address` (root is needed).
    pub fn get_mac_address_command(&self) -> (c: AdbCommand)
        ensures
            c@ == shell_view(*self, seq!["cat"@, "/sys/class/net/eth0/address"@], None, false),
    {
        self.shell_command(pair("cat", "/sys/class/net/eth0/address".to_owned()), None, false)
    }

    /// The Ethernet address `cat` printed; see [`mac_output`].
    pub fn get_mac_address(&self, stdout: &Vec<u8>) -> (r: Result<[u8; 6]>)
        ensures
            match mac_output(stdout@) {
                Ok(m) => r matches Ok(b) && b@ == m,
                Err(e) => r == Err::<[u8; 6], AdbError>(e),
            },
    {
        mac_from_output(stdout)
    }

    /// `cat /sys/class/net/wlan0/address` (root is needed).
    pub fn get_wlan_address_command(&self) -> (c: AdbCommand)
        ensures
            c@ == shell_view(*self, seq!["cat"@, "/sys/class/net/wlan0/address"@], None, false),
    {
        self.shell_command(pair("cat", "/sys/class/net/wlan0/address".to_owned()), None, false)
    }

    /// The wireless address `cat` printed; see [`mac_output`].
    pub fn get_wlan_address(&self, stdout: &Vec<u8>) -> (r: Result<[u8; 6]>)
        ensures
            match mac_output(stdout@) {
                Ok(m) => r matches Ok(b) && b@ == m,
                Err(e) => r == Err::<[u8; 6], AdbError>(e),
            },
    {
        mac_from_output(stdout)
    }

    /// `cat /proc/sys/kernel/random/boot_id`.
    pub fn get_boot_id_command(&self) -> (c: AdbCommand)
        ensures
            c@ == shell_view(*self, seq!["cat"@, "/proc/sys/kernel/random/boot_id"@], None, false),
    {
        self.shell_command(pair("cat", "/proc/sys/kernel/random/boot_id".to_owned()), None, false)
    }

    /// The boot id `cat` printed, trimmed, as the 128-bit value of the UUID
    /// it writes (see [`uuid_of`]); not UTF-8 is the `Errno` `EINVAL`, text
    /// that is no UUID `UuidError`.
    pub fn get_boot_id(&self, stdout: &Vec<u8>) -> (r: Result<u128>)
        ensures
            match utf8_text(stdout@) {
                Some(t) => match uuid_of(trim(t)) {
                    Some(u) => r == Ok::<u128, AdbError>(u),
                    None => r == Err::<u128, AdbError>(AdbError::UuidError),
                },
                None => r == Err::<u128, AdbError>(AdbError::Errno(22)),
            },
    {
        let cs = match rustix_text(stdout) {
            Ok(v) => v,
            Err(e) => {
                return Err(e);
            },
        };
        let t = crate::text::trim_string(cs.as_slice());
        match parse_uuid(t.as_str()) {
            Some(u) => Ok(u),
            None => Err(AdbError::UuidError),
        }
    }
}

} // verus!

verus! {

/// Whether the output of `avbctl get-verity` says verity is on: it is UTF-8
/// and holds `enabled`; not UTF-8 is the `Errno` `EINVAL`.
pub open spec fn verity_of(b: Seq<u8>) -> core::result::Result<bool, AdbError> {
    match utf8_text(b) {
        Some(t) => Ok(crate::text::text_contains(t, "enabled"@)),
        None => Err(AdbError::Errno(22)),
    }
}

fn trimmed_output_text(stdout: &Vec<u8>) -> (r: Result<String>)
    ensures
        match utf8_text(stdout@) {
            Some(t) => r matches Ok(s) && s@ == trim(t),
            None => r == Err::<String, AdbError>(AdbError::Errno(22)),
        },
{
    match rustix_text(stdout) {
        Ok(v) => Ok(crate::text::trim_string(v.as_slice())),
        Err(e) => Err(e),
    }
}

impl<'a> AdbShell<'a> {
    fn avbctl(&self, avbctl: Option<String>, what: &str) -> (r: Result<AdbCommand>)
        ensures
            match avbctl {
                Some(_) => r matches Ok(c) && c@ == shell_view(*self.parent, seq!["avbctl"@, what@], None, false),
                None => r == Err::<AdbCommand, AdbError>(AdbError::NotFound),
            },
    {
        match avbctl {
            Some(_) => Ok(self.command(pair("avbctl", what.to_owned()))),
            None => Err(AdbError::NotFound),
        }
    }

    /// `avbctl get-verity`, when the lookup of `avbctl` on the device found
    /// it; `NotFound` otherwise.
    pub fn get_verity_command(&self, avbctl: Option<String>) -> (r: Result<AdbCommand>)
        ensures
            match avbctl {
                Some(_) => r matches Ok(c) && c@ == shell_view(*self.parent, seq!["avbctl"@, "get-verity"@], None, false),
                None => r == Err::<AdbCommand, AdbError>(AdbError::NotFound),
            },
    {
        self.avbctl(avbctl, "get-verity")
    }

    /// Whether verity is on; see [`verity_of`].
    pub fn get_verity(&self, stdout: &Vec<u8>) -> (r: Result<bool>)
        ensures
            r == verity_of(stdout@),
    {
        match rustix_text(stdout) {
            Ok(v) => {
                let key = crate::outside::chars_of("enabled");
                Ok(crate::text::contains_text(v.as_slice(), key.as_slice()))
            },
            Err(e) => Err(e),
        }
    }

    /// `avbctl disable-verity`, when `avbctl` was found; `NotFound`
    /// otherwise. A run that does not exit with code zero fails (see
    /// [`crate::command::success_result`]).
    pub fn disable_verity(&self, avbctl: Option<String>) -> (r: Result<AdbCommand>)
        ensures
            match avbctl {
                Some(_) => r matches Ok(c) && c@ == shell_view(*self.parent, seq!["avbctl"@, "disable-verity"@], None, false),
                None => r == Err::<AdbCommand, AdbError>(AdbError::NotFound),
            },
    {
        self.avbctl(avbctl, "disable-verity")
    }

    /// `avbctl enable-verity`, when `avbctl` was found; `NotFound`
    /// otherwise.
    pub fn enable_verity(&self, avbctl: Option<String>) -> (r: Result<AdbCommand>)
        ensures
            match avbctl {
                Some(_) => r matches Ok(c) && c@ == shell_view(*self.parent, seq!["avbctl"@, "enable-verity"@], None, false),
                None => r == Err::<AdbCommand, AdbError>(AdbError::NotFound),
            },
    {
        self.avbctl(avbctl, "enable-verity")
    }
}

impl AdbClient {
    /// `adb <device> enable-verity`.
    pub fn enable_verity(&self) -> (c: AdbCommand)
        ensures
            c@ == client_view(*self, seq!["enable-verity"@], None),
    {
        self.adb_command(single("enable-verity"), None)
    }

    /// `adb <device> get-serialno`.
    pub fn get_seriano_command(&self) -> (c: AdbCommand)
        ensures
            c@ == client_view(*self, seq!["get-serialno"@], None),
    {
        self.adb_command(single("get-serialno"), None)
    }

    /// The serial number, the output trimmed; not UTF-8 is the `Errno`
    /// `EINVAL`.
    pub fn get_seriano(&self, stdout: &Vec<u8>) -> (r: Result<String>)
        ensures
            match utf8_text(stdout@) {
                Some(t) => r matches Ok(s) && s@ == trim(t),
                None => r == Err::<String, AdbError>(AdbError::Errno(22)),
            },
    {
        trimmed_output_text(stdout)
    }

    /// `adb <device> reconnect [device | offline]`.
    pub fn reconnect_command(&self, kind: Option<Reconnect>) -> (c: AdbCommand)
        ensures
            c@ == client_view(
                *self,
                seq!["reconnect"@] + opt_arg(
                    match kind {
                        Some(k) => Some(reconnect_name(k)),
                        None => None,
                    },
                ),
                None,
            ),
    {
        let mut v = single("reconnect");
        match kind {
            Some(k) => {
                v = push_str(v, k.to_string());
            },
            None => {},
        }
        assert(v.deep_view() =~= seq!["reconnect"@] + opt_arg(
            match kind {
                Some(k) => Some(reconnect_name(k)),
                None => None,
            },
        ));
        self.adb_command(v, None)
    }

    /// What `adb reconnect` printed, trimmed; not UTF-8 is the `Errno`
    /// `EINVAL`.
    pub fn reconnect(&self, stdout: &Vec<u8>) -> (r: Result<String>)
        ensures
            match utf8_text(stdout@) {
                Some(t) => r matches Ok(s) && s@ == trim(t),
                None => r == Err::<String, AdbError>(AdbError::Errno(22)),
            },
    {
        trimmed_output_text(stdout)
    }
}

} // verus!

verus! {

/// The upper-case hexadecimal digit of a number below sixteen.
pub open spec fn hex_digit(n: int) -> char {
    seq!['0', '1', '2', '3', '4', '5', '6', '7', '8', '9', 'A', 'B', 'C', 'D', 'E', 'F'][n]
}

/// A byte as two upper-case hexadecimal digits.
pub open spec fn byte_hex(x: u8) -> Seq<char> {
    seq![hex_digit(x as int / 16), hex_digit(x as int % 16)]
}

/// A MAC address written out: its six bytes as upper-case hexadecimal
/// pairs joined by `:`, as `mac_address::MacAddress` displays it.
pub open spec fn mac_text_of(b: Seq<u8>) -> Seq<char> {
    byte_hex(b[0]) + ":"@ + byte_hex(b[1]) + ":"@ + byte_hex(b[2]) + ":"@ + byte_hex(b[3]) + ":"@
        + byte_hex(b[4]) + ":"@ + byte_hex(b[5])
}

fn push_byte_hex(s: &mut String, x: u8)
    ensures
        final(s)@ == old(s)@ + byte_hex(x),
{
    let digits: [char; 16] = ['0', '1', '2', '3', '4', '5', '6', '7', '8', '9', 'A', 'B', 'C', 'D', 'E', 'F'];
    assert(digits@ =~= seq!['0', '1', '2', '3', '4', '5', '6', '7', '8', '9', 'A', 'B', 'C', 'D', 'E', 'F']);
    let hi = digits[(x / 16) as usize];
    let lo = digits[(x % 16) as usize];
    let pair: Vec<char> = vec![hi, lo];
    let t = crate::outside::string_of(pair.as_slice());
    assert(t@ =~= byte_hex(x));
    s.append(t.as_str());
}

/// A MAC address written out: six upper-case hexadecimal pairs joined by
/// `:`, such as `80:FA:5B:41:10:6B`.
pub fn mac_text(b: [u8; 6]) -> (s: String)
    ensures
        s@ == mac_text_of(b@),
{
    let mut s = String::new();
    push_byte_hex(&mut s, b[0]);
    s.append(":");
    push_byte_hex(&mut s, b[1]);
    s.append(":");
    push_byte_hex(&mut s, b[2]);
    s.append(":");
    push_byte_hex(&mut s, b[3]);
    s.append(":");
    push_byte_hex(&mut s, b[4]);
    s.append(":");
    push_byte_hex(&mut s, b[5]);
    s
}

} // verus!
