//! `adb logcat`: its options and the command they make.
use vstd::prelude::*;
use crate::client::{AdbClient, client_view};
use crate::command::{push_str, AdbCommand};
use crate::text::{decimal, int_decimal, u64_decimal, i64_string};
use crate::types::{LogcatTag, logcat_tag_text};

verus! {

/// A local time of day in a year, as `logcat -T` takes it.
#[derive(Clone, Copy, Debug, PartialEq, Eq)]
pub struct LogcatTime {
    pub month: u8,
    pub day: u8,
    pub hour: u8,
    pub minute: u8,
    pub second: u8,
    pub millisecond: u16,
}

/// Options of `logcat`.
pub struct LogcatOptions {
    /// `-e <expr>`: only the lines whose message matches.
    pub expr: Option<String>,
    /// `-d`: dump the log and exit.
    pub dump: bool,
    /// `-f <file>`: write to a file on the device.
    pub filename: Option<String>,
    /// Filters `<tag>:<level>`, followed by `*:S` when there are any.
    pub tags: Option<Vec<LogcatTag>>,
    /// `-v <format>`.
    pub format: Option<String>,
    /// `-t <time>`: the most recent lines since that time, then exit.
    pub since: Option<LogcatTime>,
    /// `--pid <pid>`.
    pub pid: Option<i32>,
    /// How long the command may run, in milliseconds.
    pub timeout_ms: Option<u64>,
}

/// A number in at least `width` digits, zero padded on the left.
pub open spec fn padded(n: nat, width: nat) -> Seq<char> {
    let d = decimal(n);
    if d.len() < width {
        Seq::new((width - d.len()) as nat, |i: int| '0') + d
    } else {
        d
    }
}

/// The time written as chrono's `%m-%d %H:%M:%S.%3f` writes it.
pub open spec fn logcat_time_text(t: LogcatTime) -> Seq<char> {
    padded(t.month as nat, 2) + "-"@ + padded(t.day as nat, 2) + " "@ + padded(t.hour as nat, 2) + ":"@ + padded(
        t.minute as nat,
        2,
    ) + ":"@ + padded(t.second as nat, 2) + "."@ + padded(t.millisecond as nat, 3)
}

/// The filters of the tags, then `*:S`; nothing without tags.
pub open spec fn tag_args(tags: Option<Seq<LogcatTag>>) -> Seq<Seq<char>> {
    match tags {
        Some(ts) => if ts.len() > 0 {
            Seq::new(ts.len(), |i: int| logcat_tag_text(ts[i])) + seq!["*:S"@]
        } else {
            seq![]
        },
        None => seq![],
    }
}

/// A flag and its value, when the value is set.
pub open spec fn opt_flag(flag: Seq<char>, v: Option<Seq<char>>) -> Seq<Seq<char>> {
    match v {
        Some(x) => seq![flag, x],
        None => seq![],
    }
}

/// The arguments of `logcat` for the options.
pub open spec fn logcat_args(o: LogcatOptions) -> Seq<Seq<char>> {
    seq!["logcat"@] + opt_flag(
        "-e"@,
        match o.expr {
            Some(e) => Some(e@),
            None => None,
        },
    ) + (if o.dump {
        seq!["-d"@]
    } else {
        seq![]
    }) + opt_flag(
        "-f"@,
        match o.filename {
            Some(f) => Some(f@),
            None => None,
        },
    ) + opt_flag(
        "-v"@,
        match o.format {
            Some(f) => Some(f@),
            None => None,
        },
    ) + opt_flag(
        "--pid"@,
        match o.pid {
            Some(p) => Some(int_decimal(p as int)),
            None => None,
        },
    ) + opt_flag(
        "-t"@,
        match o.since {
            Some(t) => Some(logcat_time_text(t)),
            None => None,
        },
    ) + tag_args(
        match o.tags {
            Some(ts) => Some(ts@),
            None => None,
        },
    )
}

/// `n` in at least `width` digits, zero padded on the left.
pub fn padded_text(n: u64, width: usize) -> (r: Vec<char>)
    ensures
        r@ == padded(n as nat, width as nat),
{
    let d = u64_decimal(n);
    if d.len() < width {
        let mut r: Vec<char> = Vec::new();
        let pad = width - d.len();
        let mut i: usize = 0;
        while i < pad
            invariant
                i <= pad,
                r@ == Seq::new(i as nat, |k: int| '0'),
            decreases pad - i,
        {
            r.push('0');
            assert(r@ =~= Seq::new((i + 1) as nat, |k: int| '0'));
            i = i + 1;
        }
        let mut dd = d;
        let ghost d0 = dd@;
        r.append(&mut dd);
        assert(r@ =~= padded(n as nat, width as nat));
        r
    } else {
        d
    }
}

impl LogcatTime {
    /// The time as `MM-DD HH:MM:SS.mmm`.
    pub fn to_string(&self) -> (s: String)
        ensures
            s@ == logcat_time_text(*self),
    {
        let mut v = padded_text(self.month as u64, 2);
        v.push('-');
        let mut d = padded_text(self.day as u64, 2);
        v.append(&mut d);
        v.push(' ');
        let mut h = padded_text(self.hour as u64, 2);
        v.append(&mut h);
        v.push(':');
        let mut m = padded_text(self.minute as u64, 2);
        v.append(&mut m);
        v.push(':');
        let mut sec = padded_text(self.second as u64, 2);
        v.append(&mut sec);
        v.push('.');
        let mut ms = padded_text(self.millisecond as u64, 3);
        v.append(&mut ms);
        proof {
            reveal_strlit("-");
            reveal_strlit(" ");
            reveal_strlit(":");
            reveal_strlit(".");
        }
        assert(v@ =~= logcat_time_text(*self));
        crate::outside::string_of(v.as_slice())
    }
}

fn push_flag(out: Vec<String>, flag: &str, v: Option<String>) -> (r: Vec<String>)
    ensures
        r.deep_view() == out.deep_view() + opt_flag(
            flag@,
            match v {
                Some(x) => Some(x@),
                None => None,
            },
        ),
{
    let ghost o = out.deep_view();
    match v {
        Some(x) => {
            let ghost xv = x@;
            let r = push_str(push_str(out, flag.to_owned()), x);
            assert(r.deep_view() =~= o + seq![flag@, xv]);
            r
        },
        None => {
            assert(out.deep_view() =~= o + Seq::<Seq<char>>::empty());
            out
        },
    }
}

fn opt_clone(v: &Option<String>) -> (r: Option<String>)
    ensures
        r == *v,
{
    match v {
        Some(s) => Some(s.clone()),
        None => None,
    }
}

impl AdbClient {
    /// `adb <device options> logcat <options>`, stopped after the timeout of
    /// the options when set.
    pub fn logcat(&self, options: &LogcatOptions) -> (c: AdbCommand)
        ensures
            c@ == client_view(*self, logcat_args(*options), options.timeout_ms),
    {
        let mut v = crate::command::single("logcat");
        v = push_flag(v, "-e", opt_clone(&options.expr));
        if options.dump {
            v = push_str(v, "-d".to_owned());
        }
        v = push_flag(v, "-f", opt_clone(&options.filename));
        v = push_flag(v, "-v", opt_clone(&options.format));
        let pid = match options.pid {
            Some(p) => Some(i64_string(p as i64)),
            None => None,
        };
        v = push_flag(v, "--pid", pid);
        let since = match options.since {
            Some(t) => Some(t.to_string()),
            None => None,
        };
        v = push_flag(v, "-t", since);
        let ghost before_tags = v.deep_view();
        match &options.tags {
            Some(ts) => {
                if ts.len() > 0 {
                    let mut i: usize = 0;
                    while i < ts.len()
                        invariant
                            i <= ts@.len(),
                            v.deep_view() == before_tags + Seq::new(i as nat, |k: int| logcat_tag_text(ts@[k])),
                        decreases ts@.len() - i,
                    {
                        let ghost prev = v.deep_view();
                        let t = ts[i].to_string();
                        v = push_str(v, t);
                        assert(v.deep_view() =~= before_tags + Seq::new(
                            (i + 1) as nat,
                            |k: int| logcat_tag_text(ts@[k]),
                        ));
                        i = i + 1;
                    }
                    v = push_str(v, "*:S".to_owned());
                }
            },
            None => {},
        }
        assert(v.deep_view() =~= logcat_args(*options));
        self.adb_command(v, options.timeout_ms)
    }
}

} // verus!
