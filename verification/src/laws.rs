//! Properties of the library that hold across its operations.
use vstd::prelude::*;
use crate::client::{AdbClient, client_view, shell_view};
use crate::device::device_args;
use crate::shell::{prop_line, service_names};
use crate::text::{decimal, digits_value, all_digits, is_digit, digit_char, parse_in_range, trim, trim_start, trim_end, is_ws, ws_end, last_index_before};
use crate::types::{SELinuxType, selinux_name, selinux_of};
use crate::intent::{entry_value, put_entry, has_key, key_pos, first_key, lemma_first_key};
use crate::dump::{runtime_entries, runtime_line, first_runtime_line, granted_comma_at};
use crate::dump::line_start;
use crate::text::{next_index, split_on, occurs_at, lemma_next_index};
use crate::types::{LogcatLevel, logcat_level_name, PackageFlags, package_flag_of};
use crate::intent::{Intent, intent_words, Extra, extra_words, entry_words, bool_text};
use crate::text::int_decimal;
use crate::pm::{package_at, package_of, code_group};
use crate::devices::{nonws_end, device_at, first_device, device_line, device_tail, field_at, devices_upto, devices_of};
use crate::text::{split_lines, utf8_text};

verus! {

proof fn lemma_digit_char(d: int)
    requires
        0 <= d < 10,
    ensures
        is_digit(digit_char(d)),
        (digit_char(d) as u32) - ('0' as u32) == d,
{
}

proof fn lemma_decimal_digits(n: nat)
    ensures
        all_digits(decimal(n)),
        digits_value(decimal(n)) == n,
    decreases n,
{
    if n < 10 {
        lemma_digit_char(n as int);
        assert(decimal(n) == seq![digit_char(n as int)]);
        assert(decimal(n).drop_last() =~= Seq::<char>::empty());
        assert(digits_value(Seq::<char>::empty()) == 0);
        assert(digits_value(decimal(n)) == digits_value(decimal(n).drop_last()) * 10 + ((decimal(n).last() as u32)
            - ('0' as u32)) as nat);
    } else {
        lemma_decimal_digits(n / 10);
        lemma_digit_char((n % 10) as int);
        let s = decimal(n / 10);
        let t = decimal(n);
        assert(t == s.push(digit_char((n % 10) as int)));
        assert(t.drop_last() =~= s);
        assert(t.last() == digit_char((n % 10) as int));
        assert(digits_value(t) == digits_value(s) * 10 + (n % 10));
        assert((n / 10) * 10 + n % 10 == n) by (nonlinear_arith);
        assert(digits_value(s) == n / 10);
        assert forall|i: int| 0 <= i < t.len() implies is_digit(#[trigger] t[i]) by {
            if i < s.len() {
                assert(t[i] == s[i]);
            }
        }
    }
}

/// A number written in decimal reads back as itself: the decimal text of
/// `n` parses, as `str::parse` into any unsigned type whose range holds
/// `n`, to `n` (transport ids, key codes, versions).
pub proof fn law_decimal_reads_back(n: nat, hi: int)
    requires
        n <= hi,
    ensures
        parse_in_range(decimal(n), false, 0, hi) == Some(n as int),
{
    lemma_decimal_digits(n);
    let s = decimal(n);
    assert(s[0] != '+') by {
        assert(is_digit(s[0]));
    }
}

proof fn lemma_trim_end_prefix(s: Seq<char>)
    ensures
        trim_end(s).len() <= s.len(),
        trim_end(s) == s.subrange(0, trim_end(s).len() as int),
        trim_end(s).len() > 0 ==> !is_ws(trim_end(s).last()),
    decreases s.len(),
{
    if s.len() > 0 && is_ws(s.last()) {
        lemma_trim_end_prefix(s.drop_last());
        assert(s.drop_last().subrange(0, trim_end(s).len() as int) =~= s.subrange(0, trim_end(s).len() as int));
    } else {
        assert(s.subrange(0, s.len() as int) =~= s);
    }
}

proof fn lemma_trim_start_first(s: Seq<char>)
    ensures
        trim_start(s).len() > 0 ==> !is_ws(trim_start(s)[0]),
    decreases s.len(),
{
    if s.len() > 0 && is_ws(s[0]) {
        lemma_trim_start_first(s.drop_first());
    }
}

proof fn lemma_trim_start_noop(s: Seq<char>)
    requires
        s.len() == 0 || !is_ws(s[0]),
    ensures
        trim_start(s) == s,
{
}

proof fn lemma_trim_end_noop(s: Seq<char>)
    requires
        s.len() == 0 || !is_ws(s.last()),
    ensures
        trim_end(s) == s,
{
}

/// Trimming twice trims once: what `whoami`, `getenforce` and the other
/// readers trim is left as it is by another trim.
pub proof fn law_trim_idempotent(s: Seq<char>)
    ensures
        trim(trim(s)) == trim(s),
        trim_end(trim_end(s)) == trim_end(s),
{
    let u = trim_start(s);
    lemma_trim_start_first(s);
    lemma_trim_end_prefix(u);
    let v = trim_end(u);
    if v.len() > 0 {
        assert(v[0] == u[0]);
        lemma_trim_start_noop(v);
        lemma_trim_end_noop(v);
    } else {
        assert(trim_start(v) == v);
        assert(trim_end(v) == v);
    }
    lemma_trim_end_prefix(s);
    let w = trim_end(s);
    if w.len() > 0 {
        lemma_trim_end_noop(w);
    }
}

/// The name of an SELinux mode is read back as that mode: what
/// `SELinuxType::to_string` writes, `SELinuxType::try_from_str` accepts.
pub proof fn law_selinux_name_reads_back(t: SELinuxType)
    ensures
        selinux_of(selinux_name(t)) == Some(t),
{
    reveal_strlit("Enforcing");
    reveal_strlit("Permissive");
    let n = selinux_name(t);
    assert(n.len() > 0 && !is_ws(n[0]) && !is_ws(n.last()));
    lemma_trim_start_noop(n);
    lemma_trim_end_noop(n);
    assert(trim(n) == n);
    if t == SELinuxType::Permissive {
        assert(n != "Enforcing"@) by {
            assert(n[0] != "Enforcing"@[0]);
        }
    }
}

/// A `getprop` line written from a key and a value is read back as that
/// key and value, whatever the key holds, when the value holds no `]`.
pub proof fn law_getprop_line_reads_back(k: Seq<char>, v: Seq<char>)
    requires
        forall|i: int| 0 <= i < v.len() ==> v[i] != ']',
    ensures
        prop_line(seq!['['] + k + seq![']', ':', ' ', '['] + v + seq![']']) == Some((k, v)),
{
    let l = seq!['['] + k + seq![']', ':', ' ', '['] + v + seq![']'];
    let n = l.len() as int;
    let i = k.len() as int + 1;
    assert(l[0] == '[');
    assert(l[n - 1] == ']');
    assert(l[i] == ']');
    assert(l[i + 1] == ':');
    assert(l[i + 2] == ' ');
    assert(l[i + 3] == '[');
    assert forall|m: int| i + 4 <= m < n - 1 implies l[m] != ']' by {
        assert(l[m] == v[m - i - 4]);
    }
    lemma_last_before(l, n - 1, i);
    assert(ws_end(l, i + 1) == i + 1);
    assert(ws_end(l, i + 3) == i + 3);
    assert(ws_end(l, i + 2) == i + 3);
    assert(l.subrange(1, i) =~= k);
    assert(l.subrange(i + 4, n - 1) =~= v);
}

proof fn lemma_last_before(l: Seq<char>, e: int, i: int)
    requires
        0 <= i < e <= l.len(),
        l[i] == ']',
        forall|m: int| i + 4 <= m < e ==> l[m] != ']',
        l[i + 1] != ']',
        l[i + 2] != ']',
        l[i + 3] != ']',
    ensures
        last_index_before(l, ']', e) == i,
    decreases e - i,
{
    if e - 1 > i {
        lemma_last_before(l, e - 1, i);
    }
}

/// Every command of a client goes to the client's device: its arguments
/// begin with the options that select the device, and those of a shell
/// command go on with `shell`.
pub proof fn law_commands_select_device(c: AdbClient, args: Seq<Seq<char>>, timeout_ms: Option<u64>, spawn_only: bool)
    ensures
        client_view(c, args, timeout_ms).args.subrange(0, device_args(c.device).len() as int) == device_args(
            c.device,
        ),
        shell_view(c, args, timeout_ms, spawn_only).args.subrange(0, device_args(c.device).len() as int + 1)
            == device_args(c.device).push("shell"@),
        client_view(c, args, timeout_ms).program == c.adb.0@,
        shell_view(c, args, timeout_ms, spawn_only).program == c.adb.0@,
{
    assert(client_view(c, args, timeout_ms).args.subrange(0, device_args(c.device).len() as int) =~= device_args(
        c.device,
    ));
    assert(shell_view(c, args, timeout_ms, spawn_only).args.subrange(0, device_args(c.device).len() as int + 1)
        =~= device_args(c.device).push("shell"@));
}

/// An extra reads back as what was last put under its key, and putting
/// one key leaves the value of every other key as it was.
pub proof fn law_extra_put_reads_back<V>(e: Seq<(Seq<char>, V)>, k: Seq<char>, v: V, other: Seq<char>)
    requires
        other != k,
    ensures
        entry_value(put_entry(e, k, v), k) == Some(v),
        entry_value(put_entry(e, k, v), other) == entry_value(e, other),
{
    let p = put_entry(e, k, v);
    if has_key(e, k) {
        lemma_first_key(e, k);
        let i = key_pos(e, k);
        assert(p[i].0 == k);
        assert(first_key(p, k, i));
        lemma_first_key(p, k);
        if has_key(e, other) {
            lemma_first_key(e, other);
            let j = key_pos(e, other);
            assert(p[j] == e[j]);
            assert(first_key(p, other, j));
            lemma_first_key(p, other);
        } else {
            assert forall|x: int| 0 <= x < p.len() implies p[x].0 != other by {
                if x != i {
                    assert(p[x] == e[x]);
                }
            }
        }
    } else {
        let i = e.len() as int;
        assert(p[i].0 == k);
        assert(first_key(p, k, i));
        lemma_first_key(p, k);
        if has_key(e, other) {
            lemma_first_key(e, other);
            let j = key_pos(e, other);
            assert(p[j] == e[j]);
            assert(first_key(p, other, j));
            lemma_first_key(p, other);
        } else {
            assert forall|x: int| 0 <= x < p.len() implies p[x].0 != other by {
                if x < e.len() {
                    assert(p[x] == e[x]);
                }
            }
        }
    }
}

proof fn lemma_ws_end_at(s: Seq<char>, i: int, j: int)
    requires
        0 <= i <= j <= s.len(),
        forall|k: int| i <= k < j ==> is_ws(#[trigger] s[k]),
        j == s.len() || !is_ws(s[j]),
    ensures
        ws_end(s, i) == j,
    decreases j - i,
{
    if i < j {
        lemma_ws_end_at(s, i + 1, j);
    }
}

proof fn lemma_next_index_at(s: Seq<char>, c: char, i: int, j: int)
    requires
        0 <= i <= j <= s.len(),
        forall|k: int| i <= k < j ==> #[trigger] s[k] != c,
        j == s.len() || s[j] == c,
    ensures
        next_index(s, c, i) == j,
    decreases j - i,
{
    if i < j {
        lemma_next_index_at(s, c, i + 1, j);
    }
}

/// The line a dump lists a runtime permission with: indentation, the name,
/// `: granted=<true|false>, flags=[<flags>]`.
pub open spec fn runtime_permission_line(name: Seq<char>, granted: bool, flags: Seq<char>) -> Seq<char> {
    "      "@ + name + ": "@ + (if granted {
        "granted=true,"@
    } else {
        "granted=false,"@
    }) + " flags=["@ + flags + "]"@
}

/// A runtime permission line reads back as its name, whether it is granted,
/// and its flags cut at each `|`: for a name that holds no `:` and does not
/// start with white space, and flags that hold no `]` and do not start with
/// white space.
pub proof fn law_runtime_permission_reads_back(name: Seq<char>, granted: bool, flags: Seq<char>)
    requires
        name.len() > 0,
        !is_ws(name[0]),
        forall|i: int| 0 <= i < name.len() ==> name[i] != ':',
        flags.len() > 0,
        !is_ws(flags[0]),
        forall|i: int| 0 <= i < flags.len() ==> flags[i] != ']',
    ensures
        runtime_entries(runtime_permission_line(name, granted, flags), 0) == seq![
            (name, granted, split_on(flags, '|')),
        ],
{
    reveal_strlit("      ");
    reveal_strlit(": ");
    reveal_strlit("granted=true,");
    reveal_strlit("granted=false,");
    reveal_strlit(" flags=[");
    reveal_strlit("flags=[");
    reveal_strlit("]");
    let h = runtime_permission_line(name, granted, flags);
    let gc = if granted { "granted=true,"@ } else { "granted=false,"@ };
    let n = name.len() as int;
    let c = 6 + n;
    let g = c + 2;
    let a = g + gc.len();
    let f = a + 1;
    let f0 = f + 7;
    let r = f0 + flags.len();
    assert(h.len() == r + 1);
    assert forall|k: int| 0 <= k < 6 implies h[k] == ' ' by {}
    assert forall|k: int| 0 <= k < n implies h[6 + k] == name[k] by {}
    assert(h[c] == ':');
    assert(h[c + 1] == ' ');
    assert forall|k: int| 0 <= k < gc.len() implies h[g + k] == gc[k] by {}
    assert(h[a] == ' ');
    assert forall|k: int| 0 <= k < 7 implies h[f + k] == "flags=["@[k] by {}
    assert forall|k: int| 0 <= k < flags.len() implies h[f0 + k] == flags[k] by {}
    assert(h[r] == ']');
    lemma_ws_end_at(h, 0, 6);
    lemma_next_index_at(h, ':', 0, c);
    lemma_ws_end_at(h, c + 1, g);
    assert(h.subrange(g, a) =~= gc);
    if granted {
        assert(!occurs_at(h, "granted=false,"@, g)) by {
            assert(h[g + 8] == 't');
            assert("granted=false,"@[8] == 'f');
        }
        assert(occurs_at(h, "granted=true,"@, g));
        assert(granted_comma_at(h, g) == Some((true, a)));
    } else {
        assert(occurs_at(h, "granted=false,"@, g));
        assert(granted_comma_at(h, g) == Some((false, a)));
    }
    lemma_ws_end_at(h, a, f);
    assert(h.subrange(f, f0) =~= "flags=["@);
    lemma_ws_end_at(h, f0, f0);
    lemma_next_index_at(h, ']', f0, r);
    assert(line_start(h, 0));
    assert(runtime_line(h, 0) == Some((6int, c, granted, f0, r, r + 1)));
    assert(first_runtime_line(h, 0) == 0);
    let len = h.len() as int;
    lemma_next_index(h, ':', len);
    assert(runtime_line(h, len) is None);
    assert(first_runtime_line(h, len + 1) == -1);
    assert(first_runtime_line(h, len) == -1);
    assert(runtime_entries(h, len) =~= Seq::<(Seq<char>, bool, Seq<Seq<char>>)>::empty());
    assert(h.subrange(6, c) =~= name);
    assert(h.subrange(f0, r) =~= flags);
    assert(runtime_entries(h, 0) =~= seq![(name, granted, split_on(flags, '|'))]);
}

/// Putting an extra keeps every key standing at most once: what the
/// `put_*` methods build has no key twice.
pub proof fn law_extra_keys_stay_unique<V>(e: Seq<(Seq<char>, V)>, k: Seq<char>, v: V)
    requires
        forall|i: int, j: int| 0 <= i < j < e.len() ==> e[i].0 != e[j].0,
    ensures
        ({
            let p = put_entry(e, k, v);
            forall|i: int, j: int| 0 <= i < j < p.len() ==> p[i].0 != p[j].0
        }),
{
    let p = put_entry(e, k, v);
    if has_key(e, k) {
        lemma_first_key(e, k);
        let x = key_pos(e, k);
        assert forall|i: int, j: int| 0 <= i < j < p.len() implies p[i].0 != p[j].0 by {
            assert(p[i].0 == e[i].0);
            assert(p[j].0 == e[j].0);
        }
    } else {
        assert forall|i: int, j: int| 0 <= i < j < p.len() implies p[i].0 != p[j].0 by {
            if j == e.len() {
                assert(p[j].0 == k);
                assert(p[i] == e[i]);
            } else {
                assert(p[i] == e[i]);
                assert(p[j] == e[j]);
            }
        }
    }
}

/// The services that `dumpsys -l` lists are names only: each is trimmed,
/// and none is a heading ending with `:`.
pub proof fn law_service_names_are_trimmed(ls: Seq<Seq<char>>)
    ensures
        forall|i: int|
            0 <= i < service_names(ls).len() ==> trim(#[trigger] service_names(ls)[i]) == service_names(ls)[i]
                && !(service_names(ls)[i].len() > 0 && service_names(ls)[i].last() == ':'),
    decreases ls.len(),
{
    if ls.len() > 0 {
        let rest = service_names(ls.drop_last());
        let t = trim(ls.last());
        law_service_names_are_trimmed(ls.drop_last());
        law_trim_idempotent(ls.last());
        let all = service_names(ls);
        assert forall|i: int| 0 <= i < all.len() implies trim(#[trigger] all[i]) == all[i] && !(all[i].len() > 0
            && all[i].last() == ':') by {
            if i < rest.len() {
                assert(all[i] == rest[i]);
            } else {
                assert(all[i] == t);
            }
        }
    }
}

} // verus!

verus! {

/// Each logcat priority is written with its own letter, the one `logcat`
/// reads for it: `V`, `D`, `I`, `W`, `E`; no two priorities share a letter.
pub proof fn law_logcat_levels_have_their_letters(a: LogcatLevel, b: LogcatLevel)
    ensures
        logcat_level_name(LogcatLevel::Verbose) == "V"@,
        logcat_level_name(LogcatLevel::Debug) == "D"@,
        logcat_level_name(LogcatLevel::Info) == "I"@,
        logcat_level_name(LogcatLevel::Warn) == "W"@,
        logcat_level_name(LogcatLevel::Error) == "E"@,
        logcat_level_name(a) == logcat_level_name(b) ==> a == b,
{
    reveal_strlit("V");
    reveal_strlit("D");
    reveal_strlit("I");
    reveal_strlit("W");
    reveal_strlit("E");
    if logcat_level_name(a) == logcat_level_name(b) {
        assert(logcat_level_name(a)[0] == logcat_level_name(b)[0]);
    }
}

/// Every package flag is read back from the word `pm dump` writes for it
/// in `pkgFlags=[ .. ]`: `SYSTEM`, `HAS_CODE`, `ALLOW_CLEAR_USER_DATA`,
/// `UPDATED_SYSTEM_APP`, `ALLOW_BACKUP`; so every flag can be read.
pub proof fn law_package_flags_read_back(f: PackageFlags)
    ensures
        package_flag_of("SYSTEM"@) == Some(PackageFlags::System),
        package_flag_of("HAS_CODE"@) == Some(PackageFlags::HasCode),
        package_flag_of("ALLOW_CLEAR_USER_DATA"@) == Some(PackageFlags::AllowClearUserData),
        package_flag_of("UPDATED_SYSTEM_APP"@) == Some(PackageFlags::UpdatedSystemApp),
        package_flag_of("ALLOW_BACKUP"@) == Some(PackageFlags::AllowBackup),
        exists|w: Seq<char>| package_flag_of(w) == Some(f),
{
    reveal_strlit("SYSTEM");
    reveal_strlit("HAS_CODE");
    reveal_strlit("ALLOW_CLEAR_USER_DATA");
    reveal_strlit("UPDATED_SYSTEM_APP");
    reveal_strlit("ALLOW_BACKUP");
    assert("HAS_CODE"@ != "SYSTEM"@) by { assert("HAS_CODE"@[0] != "SYSTEM"@[0]); }
    assert("ALLOW_CLEAR_USER_DATA"@ != "SYSTEM"@) by { assert("ALLOW_CLEAR_USER_DATA"@[0] != "SYSTEM"@[0]); }
    assert("ALLOW_CLEAR_USER_DATA"@ != "HAS_CODE"@) by { assert("ALLOW_CLEAR_USER_DATA"@[0] != "HAS_CODE"@[0]); }
    assert("UPDATED_SYSTEM_APP"@ != "SYSTEM"@) by { assert("UPDATED_SYSTEM_APP"@[0] != "SYSTEM"@[0]); }
    assert("UPDATED_SYSTEM_APP"@ != "HAS_CODE"@) by { assert("UPDATED_SYSTEM_APP"@[0] != "HAS_CODE"@[0]); }
    assert("UPDATED_SYSTEM_APP"@ != "ALLOW_CLEAR_USER_DATA"@) by { assert("UPDATED_SYSTEM_APP"@[0] != "ALLOW_CLEAR_USER_DATA"@[0]); }
    assert("ALLOW_BACKUP"@ != "SYSTEM"@) by { assert("ALLOW_BACKUP"@[0] != "SYSTEM"@[0]); }
    assert("ALLOW_BACKUP"@ != "HAS_CODE"@) by { assert("ALLOW_BACKUP"@[0] != "HAS_CODE"@[0]); }
    assert("ALLOW_BACKUP"@ != "ALLOW_CLEAR_USER_DATA"@) by { assert("ALLOW_BACKUP"@[6] != "ALLOW_CLEAR_USER_DATA"@[6]); }
    assert("ALLOW_BACKUP"@ != "UPDATED_SYSTEM_APP"@) by { assert("ALLOW_BACKUP"@[0] != "UPDATED_SYSTEM_APP"@[0]); }
    let w = match f {
        PackageFlags::System => "SYSTEM"@,
        PackageFlags::HasCode => "HAS_CODE"@,
        PackageFlags::AllowClearUserData => "ALLOW_CLEAR_USER_DATA"@,
        PackageFlags::UpdatedSystemApp => "UPDATED_SYSTEM_APP"@,
        PackageFlags::AllowBackup => "ALLOW_BACKUP"@,
    };
    assert(package_flag_of(w) == Some(f));
}

/// Each field of an intent is handed to `am` under its own flag: the
/// action after `-a`, the data URI after `-d`, the MIME type after `-t`,
/// the category after `-c`, the component after `-n`, the package after
/// `-p` and the user after `--user`, each as one word `<flag> <value>`.
pub proof fn law_intent_fields_have_their_flags(i: Intent)
    ensures
        i.action matches Some(v) ==> intent_words(i).contains("-a"@ + " "@ + v@),
        i.data matches Some(v) ==> intent_words(i).contains("-d"@ + " "@ + v@),
        i.mime_type matches Some(v) ==> intent_words(i).contains("-t"@ + " "@ + v@),
        i.category matches Some(v) ==> intent_words(i).contains("-c"@ + " "@ + v@),
        i.component matches Some(v) ==> intent_words(i).contains("-n"@ + " "@ + v@),
        i.package matches Some(v) ==> intent_words(i).contains("-p"@ + " "@ + v@),
        i.user_id matches Some(v) ==> intent_words(i).contains("--user"@ + " "@ + v@),
{
    let a = crate::intent::opt_word("-a"@, i.action);
    let d = crate::intent::opt_word("-d"@, i.data);
    let t = crate::intent::opt_word("-t"@, i.mime_type);
    let c = crate::intent::opt_word("-c"@, i.category);
    let n = crate::intent::opt_word("-n"@, i.component);
    let p = crate::intent::opt_word("-p"@, i.package);
    let u = crate::intent::opt_word("--user"@, i.user_id);
    let rf = crate::intent::word_if(i.receiver_foreground, "--receiver-foreground"@);
    let wt = crate::intent::word_if(i.wait, "-W"@);
    let ex = seq![crate::intent::join_with(crate::intent::extra_words(i.extra), " "@)];
    let s1 = a + d;
    let s2 = s1 + t;
    let s3 = s2 + c;
    let s4 = s3 + n;
    let s5 = s4 + p;
    let s6 = s5 + u;
    let s7 = s6 + rf;
    let s8 = s7 + wt;
    assert(intent_words(i) == s8 + ex);
    lemma_word_in(s6, rf);
    lemma_word_in(s7, wt);
    lemma_word_in(s8, ex);
    if i.action is Some {
        assert(a.contains(a[0]));
        lemma_word_in(a, d);
        lemma_word_in(s1, t);
        lemma_word_in(s2, c);
        lemma_word_in(s3, n);
        lemma_word_in(s4, p);
        lemma_word_in(s5, u);
    }
    if i.data is Some {
        assert(d.contains(d[0]));
        lemma_word_after(a, d);
        lemma_word_in(s1, t);
        lemma_word_in(s2, c);
        lemma_word_in(s3, n);
        lemma_word_in(s4, p);
        lemma_word_in(s5, u);
    }
    if i.mime_type is Some {
        assert(t.contains(t[0]));
        lemma_word_after(s1, t);
        lemma_word_in(s2, c);
        lemma_word_in(s3, n);
        lemma_word_in(s4, p);
        lemma_word_in(s5, u);
    }
    if i.category is Some {
        assert(c.contains(c[0]));
        lemma_word_after(s2, c);
        lemma_word_in(s3, n);
        lemma_word_in(s4, p);
        lemma_word_in(s5, u);
    }
    if i.component is Some {
        assert(n.contains(n[0]));
        lemma_word_after(s3, n);
        lemma_word_in(s4, p);
        lemma_word_in(s5, u);
    }
    if i.package is Some {
        assert(p.contains(p[0]));
        lemma_word_after(s4, p);
        lemma_word_in(s5, u);
    }
    if i.user_id is Some {
        assert(u.contains(u[0]));
        lemma_word_after(s5, u);
    }
}

/// What `x` holds, `x + y` holds.
proof fn lemma_word_in(x: Seq<Seq<char>>, y: Seq<Seq<char>>)
    ensures
        forall|e: Seq<char>| x.contains(e) ==> #[trigger] (x + y).contains(e),
{
    assert forall|e: Seq<char>| x.contains(e) implies #[trigger] (x + y).contains(e) by {
        let k = choose|k: int| 0 <= k < x.len() && x[k] == e;
        assert((x + y)[k] == e);
    }
}

/// What `y` holds, `x + y` holds.
proof fn lemma_word_after(x: Seq<Seq<char>>, y: Seq<Seq<char>>)
    ensures
        forall|e: Seq<char>| y.contains(e) ==> #[trigger] (x + y).contains(e),
{
    assert forall|e: Seq<char>| y.contains(e) implies #[trigger] (x + y).contains(e) by {
        let k = choose|k: int| 0 <= k < y.len() && y[k] == e;
        assert((x + y)[x.len() + k] == e);
    }
}

} // verus!

verus! {

/// The number of a package entry `uid:<n>` or `versionCode:<n>` as an `i32`.
pub open spec fn entry_number(s: Seq<char>, from: int, to: int) -> Option<int> {
    parse_in_range(s.subrange(from, to), true, -0x8000_0000, 0x7fff_ffff)
}

/// In an entry of `pm list packages` the key word, not the place, decides
/// which field a number fills: when the first number after the name is
/// written `uid:<n>`, the package's uid is n, and when it is written
/// `versionCode:<n>`, its version code is n; a number that stands alone
/// leaves the other field empty.
pub proof fn law_package_numbers_follow_their_key(s: Seq<char>, i: int)
    ensures
        package_at(s, i) matches Some(m) ==> (package_of(s, m) matches Some(k) ==> (m.2 matches Some(a) ==> {
            &&& occurs_at(s, "uid:"@, a.1 - 4) ==> k.3 == entry_number(s, a.1, a.2) && (m.3 is None ==> k.2 is None)
            &&& occurs_at(s, "versionCode:"@, a.1 - 12) ==> k.2 == entry_number(s, a.1, a.2) && (m.3 is None
                ==> k.3 is None)
        })),
{
    reveal_strlit("uid:");
    reveal_strlit("versionCode:");
    if package_at(s, i) is Some {
        let m = package_at(s, i)->0;
        if m.2 is Some {
            let a = m.2->0;
            let x = i + 8;
            let f = crate::pm::last_apk(s, x, next_index(s, '\n', x));
            let ns = if f >= 0 { f + 5 } else { x };
            let ne = crate::pm::name_end(s, ns);
            assert(code_group(s, ne) == Some(a));
            let p = ne;
            if a.0 {
                assert(occurs_at(s, "versionCode:"@, p + 1));
                assert(s[p + 9] == "versionCode:"@[8]);
                if occurs_at(s, "uid:"@, a.1 - 4) {
                    assert(s[a.1 - 4] == "uid:"@[0]);
                }
            } else {
                assert(occurs_at(s, "uid:"@, p + 1));
                assert(is_ws(s[p]));
                if occurs_at(s, "versionCode:"@, a.1 - 12) {
                    assert(s[p] == "versionCode:"@[7]);
                }
            }
        }
    }
}

} // verus!

verus! {

/// Whether `v` is the value of a field `<label><value>` of a line: it is
/// the run without white space that follows some occurrence of `label`.
pub open spec fn labelled(l: Seq<char>, label: Seq<char>, v: Seq<char>) -> bool {
    exists|p: int|
        #![trigger occurs_at(l, label, p)]
        occurs_at(l, label, p) && v == l.subrange(p + label.len(), nonws_end(l, p + label.len()))
}

/// Whether line `j` of an output is text on which the product, model and
/// device of an entry are the values of its fields ` product:`, `model:`
/// and `device:`, its transport id is the number of the field
/// `transport_id:`, and `device` or `offline` stands before ` product:`
/// as the entry is connected or not.
pub open spec fn line_shows(ls: Seq<Seq<u8>>, j: int, e: (Seq<char>, Seq<char>, Seq<char>, Seq<char>, bool, u8)) -> bool {
    &&& 0 <= j < ls.len()
    &&& utf8_text(ls[j]) matches Some(t) && labelled(t, " product:"@, e.1) && labelled(t, "model:"@, e.2) && labelled(
        t,
        "device:"@,
        e.3,
    ) && (e.4 ==> crate::text::text_contains(t, "device product:"@)) && (!e.4 ==> crate::text::text_contains(
        t,
        "offline product:"@,
    )) && exists|v: Seq<char>|
        #![trigger labelled(t, "transport_id:"@, v)]
        labelled(t, "transport_id:"@, v) && parse_in_range(v, false, 0, 255) == Some(e.5 as int)
}

proof fn lemma_first_device(l: Seq<char>, i: int)
    ensures
        first_device(l, i) >= 0 ==> device_at(l, first_device(l, i)) is Some,
    decreases l.len() - i,
{
    if 0 <= i < l.len() && device_at(l, i) is None {
        lemma_first_device(l, i + 1);
    }
}

proof fn lemma_device_line_labels(l: Seq<char>)
    ensures
        device_line(l) matches Some(d) ==> labelled(l, " product:"@, d.1) && labelled(l, "model:"@, d.2)
            && labelled(l, "device:"@, d.3) && labelled(l, "transport_id:"@, d.5) && (d.4
            ==> crate::text::text_contains(l, "device product:"@)) && (!d.4 ==> crate::text::text_contains(
            l,
            "offline product:"@,
        )),
{
    reveal_strlit("device");
    reveal_strlit("offline");
    reveal_strlit(" product:");
    reveal_strlit("device product:");
    reveal_strlit("offline product:");
    if device_line(l) is Some {
        let i = first_device(l, 0);
        lemma_first_device(l, 0);
        let m = device_at(l, i)->0;
        let a = nonws_end(l, i);
        let b = crate::text::ws_end(l, a);
        let q = if occurs_at(l, "device"@, b) && device_tail(l, b + 6) is Some {
            b + 6
        } else {
            b + 7
        };
        assert(device_tail(l, q) == Some(m.2));
        let pr = field_at(l, " product:"@, q)->0;
        let mo = field_at(l, "model:"@, pr.1 + 1)->0;
        let de = field_at(l, "device:"@, mo.1 + 1)->0;
        assert(occurs_at(l, " product:"@, q));
        assert(occurs_at(l, "model:"@, pr.1 + 1));
        assert(occurs_at(l, "device:"@, mo.1 + 1));
        let tr = field_at(l, "transport_id:"@, de.1 + 1)->0;
        assert(occurs_at(l, "transport_id:"@, de.1 + 1));
        if m.1 {
            assert(q == b + 6);
            assert(occurs_at(l, "device"@, b));
            assert(l.subrange(b, b + 15) =~= "device product:"@) by {
                assert forall|x: int| 0 <= x < 15 implies l.subrange(b, b + 15)[x] == "device product:"@[x] by {
                    if x < 6 {
                        assert(l.subrange(b, b + 6)[x] == l[b + x]);
                    } else {
                        assert(l.subrange(q, q + 9)[x - 6] == l[b + x]);
                    }
                }
            }
            assert(occurs_at(l, "device product:"@, b));
        } else {
            assert(q == b + 7);
            assert(occurs_at(l, "offline"@, b));
            assert(l.subrange(b, b + 16) =~= "offline product:"@) by {
                assert forall|x: int| 0 <= x < 16 implies l.subrange(b, b + 16)[x] == "offline product:"@[x] by {
                    if x < 7 {
                        assert(l.subrange(b, b + 7)[x] == l[b + x]);
                    } else {
                        assert(l.subrange(q, q + 9)[x - 7] == l[b + x]);
                    }
                }
            }
            assert(occurs_at(l, "offline product:"@, b));
        }
    }
}

/// Whether some line before `n` shows the fields of an entry.
pub open spec fn shown_before(ls: Seq<Seq<u8>>, n: int, e: (Seq<char>, Seq<char>, Seq<char>, Seq<char>, bool, u8)) -> bool {
    exists|j: int| 0 <= j < n && #[trigger] line_shows(ls, j, e)
}

proof fn lemma_devices_shown(ls: Seq<Seq<u8>>, n: int)
    requires
        n <= ls.len(),
    ensures
        devices_upto(ls, n) matches Ok(ds) ==> forall|k: int|
            0 <= k < ds.len() ==> #[trigger] shown_before(ls, n, ds[k]),
    decreases n,
{
    if n > 0 {
        lemma_devices_shown(ls, n - 1);
        if devices_upto(ls, n) is Ok {
            assert(devices_upto(ls, n - 1) is Ok);
            let prev = devices_upto(ls, n - 1)->Ok_0;
            let ds = devices_upto(ls, n)->Ok_0;
            assert(utf8_text(ls[n - 1]) is Some);
            let t = utf8_text(ls[n - 1])->0;
            lemma_device_line_labels(t);
            assert forall|k: int| 0 <= k < ds.len() implies #[trigger] shown_before(ls, n, ds[k]) by {
                if k < prev.len() {
                    assert(ds[k] == prev[k]);
                    assert(shown_before(ls, n - 1, prev[k]));
                    let j = choose|j: int| 0 <= j < n - 1 && #[trigger] line_shows(ls, j, prev[k]);
                    assert(line_shows(ls, j, ds[k]));
                } else {
                    let d = device_line(t)->0;
                    assert(ds[k].1 == d.1 && ds[k].2 == d.2 && ds[k].3 == d.3 && ds[k].4 == d.4);
                    assert(parse_in_range(d.5, false, 0, 255) == Some(ds[k].5 as int));
                    assert(labelled(t, "transport_id:"@, d.5));
                    assert(line_shows(ls, n - 1, ds[k]));
                }
            }
        }
    }
}

/// Every device that `adb devices -l` lists comes from a line of the
/// output on which its product, model and device are the values written
/// after ` product:`, `model:` and `device:`, its transport id is the
/// number written after `transport_id:`, and its state is `device` when it
/// is connected and `offline` when it is not.
pub proof fn law_device_fields_follow_their_labels(b: Seq<u8>)
    ensures
        devices_of(b) matches Ok(ds) ==> forall|k: int|
            0 <= k < ds.len() ==> #[trigger] shown_before(
                split_lines(b, 10u8, 13u8),
                split_lines(b, 10u8, 13u8).len() as int,
                ds[k],
            ),
{
    let ls = split_lines(b, 10u8, 13u8);
    lemma_devices_shown(ls, ls.len() as int);
}

} // verus!

verus! {

/// Each extra of an intent is handed to `am` under the flag of its kind, as
/// one word `<flag> <key> <value>`: texts after `--es`, booleans (`true` or
/// `false`) after `--ez`, `i32`s after `--ei`, `i64`s after `--el`, text
/// arrays after `--esa`; and each permission or package switch that is set
/// is a word of its own.
pub proof fn law_extras_have_their_flags(e: Extra, k: int)
    ensures
        0 <= k < e.es@.len() ==> extra_words(e).contains("--es "@ + e.es@[k].0@ + " "@ + e.es@[k].1@),
        0 <= k < e.ez@.len() ==> extra_words(e).contains(
            "--ez "@ + e.ez@[k].0@ + " "@ + (if e.ez@[k].1 { "true"@ } else { "false"@ }),
        ),
        0 <= k < e.ei@.len() ==> extra_words(e).contains(
            "--ei "@ + e.ei@[k].0@ + " "@ + int_decimal(e.ei@[k].1 as int),
        ),
        0 <= k < e.el@.len() ==> extra_words(e).contains(
            "--el "@ + e.el@[k].0@ + " "@ + int_decimal(e.el@[k].1 as int),
        ),
        e.grant_read_uri_permission ==> extra_words(e).contains("--grant-read-uri-permission"@),
        e.grant_write_uri_permission ==> extra_words(e).contains("--grant-write-uri-permission"@),
        e.exclude_stopped_packages ==> extra_words(e).contains("--exclude-stopped-packages"@),
        e.include_stopped_packages ==> extra_words(e).contains("--include-stopped-packages"@),
{
    reveal_strlit("--es");
    reveal_strlit("--ez");
    reveal_strlit("--ei");
    reveal_strlit("--el");
    reveal_strlit("--es ");
    reveal_strlit("--ez ");
    reveal_strlit("--ei ");
    reveal_strlit("--el ");
    reveal_strlit(" ");
    let w1 = entry_words("--es"@, crate::intent::text_entries(e.es@));
    let w2 = entry_words("--ez"@, crate::intent::bool_entries(e.ez@));
    let w3 = entry_words("--ei"@, crate::intent::i32_entries(e.ei@));
    let w4 = entry_words("--el"@, crate::intent::i64_entries(e.el@));
    let w5 = entry_words("--ef"@, crate::intent::text_entries(e.ef@));
    let w6 = entry_words("--eu"@, crate::intent::text_entries(e.eu@));
    let w7 = entry_words("--ecn"@, crate::intent::text_entries(e.ecn@));
    let w8 = entry_words("--eia"@, crate::intent::i32_list_entries(e.eia@));
    let w9 = entry_words("--ela"@, crate::intent::i64_list_entries(e.ela@));
    let w10 = entry_words("--efa"@, crate::intent::text_list_entries(e.efa@));
    let w11 = entry_words("--esa"@, crate::intent::text_list_entries(e.esa@));
    let f1 = crate::intent::word_if(e.grant_read_uri_permission, "--grant-read-uri-permission"@);
    let f2 = crate::intent::word_if(e.grant_write_uri_permission, "--grant-write-uri-permission"@);
    let f3 = crate::intent::word_if(e.exclude_stopped_packages, "--exclude-stopped-packages"@);
    let f4 = crate::intent::word_if(e.include_stopped_packages, "--include-stopped-packages"@);
    let s2 = w1 + w2;
    let s3 = s2 + w3;
    let s4 = s3 + w4;
    let s5 = s4 + w5;
    let s6 = s5 + w6;
    let s7 = s6 + w7;
    let s8 = s7 + w8;
    let s9 = s8 + w9;
    let s10 = s9 + w10;
    let s11 = s10 + w11;
    let s12 = s11 + f1;
    let s13 = s12 + f2;
    let s14 = s13 + f3;
    assert(extra_words(e) == s14 + f4);
    lemma_word_in(w1, w2);
    lemma_word_after(w1, w2);
    lemma_word_in(s2, w3);
    lemma_word_after(s2, w3);
    lemma_word_in(s3, w4);
    lemma_word_after(s3, w4);
    lemma_word_in(s4, w5);
    lemma_word_in(s5, w6);
    lemma_word_in(s6, w7);
    lemma_word_in(s7, w8);
    lemma_word_in(s8, w9);
    lemma_word_in(s9, w10);
    lemma_word_in(s10, w11);
    lemma_word_in(s11, f1);
    lemma_word_after(s11, f1);
    lemma_word_in(s12, f2);
    lemma_word_after(s12, f2);
    lemma_word_in(s13, f3);
    lemma_word_after(s13, f3);
    lemma_word_in(s14, f4);
    lemma_word_after(s14, f4);
    if 0 <= k < e.es@.len() {
        assert(w1[k] == "--es"@ + " "@ + e.es@[k].0@ + " "@ + e.es@[k].1@);
        assert(w1[k] =~= "--es "@ + e.es@[k].0@ + " "@ + e.es@[k].1@);
        assert(w1.contains(w1[k]));
    }
    if 0 <= k < e.ez@.len() {
        assert(w2[k] =~= "--ez "@ + e.ez@[k].0@ + " "@ + bool_text(e.ez@[k].1));
        assert(w2.contains(w2[k]));
    }
    if 0 <= k < e.ei@.len() {
        assert(w3[k] =~= "--ei "@ + e.ei@[k].0@ + " "@ + int_decimal(e.ei@[k].1 as int));
        assert(w3.contains(w3[k]));
    }
    if 0 <= k < e.el@.len() {
        assert(w4[k] =~= "--el "@ + e.el@[k].0@ + " "@ + int_decimal(e.el@[k].1 as int));
        assert(w4.contains(w4[k]));
    }
    if e.grant_read_uri_permission {
        assert(f1.contains(f1[0]));
    }
    if e.grant_write_uri_permission {
        assert(f2.contains(f2[0]));
    }
    if e.exclude_stopped_packages {
        assert(f3.contains(f3[0]));
    }
    if e.include_stopped_packages {
        assert(f4.contains(f4[0]));
    }
}

} // verus!
