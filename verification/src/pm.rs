//! The package manager of a device: `pm list packages`, read.
use vstd::prelude::*;
use crate::client::shell_view;
use crate::command::{push_str, concat, AdbCommand};
use crate::error::{AdbError, Result};
use crate::options::{AsArgs, ListPackageFilter, ListPackageDisplayOptions, list_filter_args, list_display_args};
use crate::shell::AdbShell;
use crate::text::{
    is_ws, occurs_at, next_index, utf8_text, parse_in_range, rustix_text, matches_at, next_index_of,
    string_from, parse_int, copy_chars,
};
use crate::types::{Package, PackageFlags, RuntimePermission, InstallPermission};
use crate::options::{UninstallOptions, InstallOptions, uninstall_args, install_args};
use crate::dump::{
    SimplePackageReader, section_after, package_flags_of, runtime_permissions_of, runtime_view,
    requested_permissions_of, install_permissions_of,
};
use crate::text::trim;
use crate::outside::{chars_of, decimal_char, is_decimal_char};

verus! {

/// The package manager of the device of a shell.
pub struct PackageManager<'a> {
    pub parent: AdbShell<'a>,
}

/// The first position at or after `i` that holds no decimal digit (`\d`).
pub open spec fn decimal_end(s: Seq<char>, i: int) -> int
    decreases s.len() - i,
{
    if 0 <= i < s.len() && decimal_char(s[i]) {
        decimal_end(s, i + 1)
    } else {
        i
    }
}

/// The first position at or after `i` that holds white space, or the end.
pub open spec fn name_end(s: Seq<char>, i: int) -> int
    decreases s.len() - i,
{
    if 0 <= i < s.len() && !is_ws(s[i]) {
        name_end(s, i + 1)
    } else {
        i
    }
}

/// Whether `<file>.apk=` ends at `f + 5` with a name after it.
pub open spec fn apk_at(s: Seq<char>, f: int) -> bool {
    occurs_at(s, ".apk="@, f) && f + 5 < s.len() && !is_ws(s[f + 5])
}

/// The last `f` in `[x, e]` with [`apk_at`], or -1.
pub open spec fn last_apk(s: Seq<char>, x: int, e: int) -> int
    decreases e - x + 1,
{
    if e < x {
        -1
    } else if apk_at(s, e) {
        e
    } else {
        last_apk(s, x, e - 1)
    }
}

/// An entry ` versionCode:<n>` or ` uid:<n>` at `p`: whether it is the
/// version code, and the bounds of the number (`\s(versionCode|uid):(\d+)`).
pub open spec fn code_group(s: Seq<char>, p: int) -> Option<(bool, int, int)> {
    if 0 <= p < s.len() && is_ws(s[p]) {
        if occurs_at(s, "versionCode:"@, p + 1) && decimal_end(s, p + 13) > p + 13 {
            Some((true, p + 13, decimal_end(s, p + 13)))
        } else if occurs_at(s, "uid:"@, p + 1) && decimal_end(s, p + 5) > p + 5 {
            Some((false, p + 5, decimal_end(s, p + 5)))
        } else {
            None
        }
    } else {
        None
    }
}

/// A package entry matched from `i`, as
/// `package:((?P<file>.*\.apk)=)?(?P<name>\S+)(\s(versionCode|uid):(\d+))?(\s(versionCode|uid):(\d+))?`
/// matches it there: the file (up to the last `.apk=` of the line that a
/// name follows), the name, the two optional entries, and where the match ends.
pub open spec fn package_at(s: Seq<char>, i: int) -> Option<
    (Option<(int, int)>, (int, int), Option<(bool, int, int)>, Option<(bool, int, int)>, int),
> {
    let x = i + 8;
    let f = last_apk(s, x, next_index(s, '\n', x));
    let ns = if f >= 0 { f + 5 } else { x };
    let ne = name_end(s, ns);
    if occurs_at(s, "package:"@, i) && ne > ns {
        let file = if f >= 0 { Some((x, f + 4)) } else { None };
        match code_group(s, ne) {
            None => Some((file, (ns, ne), None, None, ne)),
            Some(a) => match code_group(s, a.2) {
                None => Some((file, (ns, ne), Some(a), None, a.2)),
                Some(b) => Some((file, (ns, ne), Some(a), Some(b), b.2)),
            },
        }
    } else {
        None
    }
}

/// The first position at or after `p` from which [`package_at`] matches, or -1.
pub open spec fn first_package(s: Seq<char>, p: int) -> int
    decreases s.len() - p,
{
    if p < 0 || p >= s.len() {
        -1
    } else if package_at(s, p) is Some {
        p
    } else {
        first_package(s, p + 1)
    }
}

/// A number of a package entry as an `i32`, when it is one.
pub open spec fn code_value(s: Seq<char>, g: Option<(bool, int, int)>) -> Option<Option<int>> {
    match g {
        None => Some(None),
        Some(x) => match parse_in_range(s.subrange(x.1, x.2), true, -0x8000_0000, 0x7fff_ffff) {
            Some(v) => Some(Some(v)),
            None => None,
        },
    }
}

/// The package that a match stands for: its name, its file, its version
/// code and uid (the first entry says which is which, the second is the
/// other); none when a number is no `i32`.
pub open spec fn package_of(
    s: Seq<char>,
    m: (Option<(int, int)>, (int, int), Option<(bool, int, int)>, Option<(bool, int, int)>, int),
) -> Option<(Seq<char>, Option<Seq<char>>, Option<int>, Option<int>)> {
    let (vg, ug) = match m.2 {
        Some(a) => if a.0 {
            (Some(a), m.3)
        } else {
            (m.3, Some(a))
        },
        None => (None, None),
    };
    let file = match m.0 {
        Some(f) => Some(s.subrange(f.0, f.1)),
        None => None,
    };
    match (code_value(s, vg), code_value(s, ug)) {
        (Some(v), Some(u)) => Some((s.subrange(m.1.0, m.1.1), file, v, u)),
        _ => None,
    }
}

/// The packages of the successive matches from `p`.
pub open spec fn packages_from(s: Seq<char>, p: int) -> Seq<(Seq<char>, Option<Seq<char>>, Option<int>, Option<int>)>
    decreases s.len() - p,
{
    let i = first_package(s, p);
    if i < 0 {
        seq![]
    } else {
        let m = package_at(s, i)->0;
        if p < m.4 <= s.len() {
            (match package_of(s, m) {
                Some(k) => seq![k],
                None => seq![],
            }) + packages_from(s, m.4)
        } else {
            seq![]
        }
    }
}

/// A package as texts and numbers.
pub open spec fn package_view(p: Package) -> (Seq<char>, Option<Seq<char>>, Option<int>, Option<int>) {
    (
        p.package_name@,
        match p.file_name {
            Some(f) => Some(f@),
            None => None,
        },
        match p.version_code {
            Some(v) => Some(v as int),
            None => None,
        },
        match p.uid {
            Some(u) => Some(u as int),
            None => None,
        },
    )
}

pub(crate) fn decimal_end_at(s: &[char], i: usize) -> (r: usize)
    requires
        i <= s@.len(),
    ensures
        r == decimal_end(s@, i as int),
        i <= r <= s@.len(),
{
    let mut j = i;
    while j < s.len() && is_decimal_char(s[j])
        invariant
            i <= j <= s@.len(),
            decimal_end(s@, j as int) == decimal_end(s@, i as int),
        decreases s@.len() - j,
    {
        j = j + 1;
    }
    j
}

fn name_end_at(s: &[char], i: usize) -> (r: usize)
    requires
        i <= s@.len(),
    ensures
        r == name_end(s@, i as int),
        i <= r <= s@.len(),
{
    let mut j = i;
    while j < s.len() && !crate::text::is_whitespace(s[j])
        invariant
            i <= j <= s@.len(),
            name_end(s@, j as int) == name_end(s@, i as int),
        decreases s@.len() - j,
    {
        j = j + 1;
    }
    j
}

/// The words the matcher compares against.
struct Words {
    apk: Vec<char>,
    version: Vec<char>,
    uid: Vec<char>,
    package: Vec<char>,
}

spec fn words_ok(w: Words) -> bool {
    &&& w.apk@ == ".apk="@
    &&& w.version@ == "versionCode:"@
    &&& w.uid@ == "uid:"@
    &&& w.package@ == "package:"@
    &&& w.apk@.len() == 5
    &&& w.version@.len() == 12
    &&& w.uid@.len() == 4
    &&& w.package@.len() == 8
}

fn words() -> (w: Words)
    ensures
        words_ok(w),
{
    proof {
        reveal_strlit(".apk=");
        reveal_strlit("versionCode:");
        reveal_strlit("uid:");
        reveal_strlit("package:");
    }
    Words {
        apk: chars_of(".apk="),
        version: chars_of("versionCode:"),
        uid: chars_of("uid:"),
        package: chars_of("package:"),
    }
}

fn last_apk_at(s: &[char], x: usize, e: usize, w: &Words) -> (r: Option<usize>)
    requires
        e <= s@.len(),
        s@.len() == s.len(),
        words_ok(*w),
    ensures
        match r {
            Some(f) => last_apk(s@, x as int, e as int) == f as int && x <= f && f + 5 < s@.len(),
            None => last_apk(s@, x as int, e as int) == -1,
        },
{
    let mut j = e;
    loop
        invariant
            j <= e <= s@.len(),
            s@.len() == s.len(),
            words_ok(*w),
            last_apk(s@, x as int, j as int) == last_apk(s@, x as int, e as int),
        decreases j,
    {
        if j < x {
            return None;
        }
        if matches_at(s, w.apk.as_slice(), j) && s.len() - j > 5 && !crate::text::is_whitespace(s[j + 5]) {
            return Some(j);
        }
        if j == 0 {
            assert(last_apk(s@, x as int, -1) == -1);
            return None;
        }
        j = j - 1;
    }
}

fn code_group_at(s: &[char], p: usize, w: &Words) -> (r: Option<(bool, usize, usize)>)
    requires
        p <= s@.len(),
        s@.len() == s.len(),
        words_ok(*w),
    ensures
        match r {
            Some(g) => code_group(s@, p as int) == Some((g.0, g.1 as int, g.2 as int)) && p < g.1 < g.2 <= s@.len(),
            None => code_group(s@, p as int) is None,
        },
{
    if !(p < s.len() && crate::text::is_whitespace(s[p])) {
        return None;
    }
    if matches_at(s, w.version.as_slice(), p + 1) {
        let de = decimal_end_at(s, p + 13);
        if de > p + 13 {
            return Some((true, p + 13, de));
        }
    }
    if matches_at(s, w.uid.as_slice(), p + 1) {
        let de = decimal_end_at(s, p + 5);
        if de > p + 5 {
            proof {
                reveal_strlit("versionCode:");
                reveal_strlit("uid:");
                if occurs_at(s@, "versionCode:"@, p + 1) {
                    assert(s@.subrange(p + 1, p + 13)[0] == s@[p + 1]);
                    assert(s@.subrange(p + 1, p + 5)[0] == s@[p + 1]);
                    assert(false);
                }
            }
            return Some((false, p + 5, de));
        }
    }
    None
}

/// Where a match from `i` stands, with every position as a `usize`.
struct PackageMatchAt {
    file: Option<(usize, usize)>,
    name: (usize, usize),
    a: Option<(bool, usize, usize)>,
    b: Option<(bool, usize, usize)>,
    end: usize,
}

spec fn opt_pair(o: Option<(usize, usize)>) -> Option<(int, int)> {
    match o {
        Some(x) => Some((x.0 as int, x.1 as int)),
        None => None,
    }
}

spec fn opt_group(o: Option<(bool, usize, usize)>) -> Option<(bool, int, int)> {
    match o {
        Some(x) => Some((x.0, x.1 as int, x.2 as int)),
        None => None,
    }
}

spec fn match_view(m: PackageMatchAt) -> (
    Option<(int, int)>,
    (int, int),
    Option<(bool, int, int)>,
    Option<(bool, int, int)>,
    int,
) {
    (opt_pair(m.file), (m.name.0 as int, m.name.1 as int), opt_group(m.a), opt_group(m.b), m.end as int)
}

spec fn match_bounds(m: PackageMatchAt, len: int) -> bool {
    &&& (m.file matches Some(f) ==> f.0 <= f.1 <= len)
    &&& m.name.0 < m.name.1 <= len
    &&& (m.a matches Some(g) ==> g.1 < g.2 <= len)
    &&& (m.b matches Some(g) ==> g.1 < g.2 <= len)
    &&& m.name.1 <= m.end <= len
}

fn package_at_pos(s: &[char], i: usize, w: &Words) -> (r: Option<PackageMatchAt>)
    requires
        i <= s@.len(),
        s@.len() == s.len(),
        words_ok(*w),
    ensures
        match r {
            Some(m) => package_at(s@, i as int) == Some(match_view(m)) && match_bounds(m, s@.len() as int) && i
                < m.end,
            None => package_at(s@, i as int) is None,
        },
{
    if !matches_at(s, w.package.as_slice(), i) {
        return None;
    }
    let x = i + 8;
    let le = next_index_of(s, '\n', x);
    let f = last_apk_at(s, x, le, w);
    let ns = match f {
        Some(f) => f + 5,
        None => x,
    };
    let ne = name_end_at(s, ns);
    if !(ne > ns) {
        return None;
    }
    let file = match f {
        Some(f) => Some((x, f + 4)),
        None => None,
    };
    match code_group_at(s, ne, w) {
        None => Some(PackageMatchAt { file, name: (ns, ne), a: None, b: None, end: ne }),
        Some(a) => match code_group_at(s, a.2, w) {
            None => Some(PackageMatchAt { file, name: (ns, ne), a: Some(a), b: None, end: a.2 }),
            Some(b) => Some(PackageMatchAt { file, name: (ns, ne), a: Some(a), b: Some(b), end: b.2 }),
        },
    }
}

fn code_number(s: &[char], g: Option<(bool, usize, usize)>) -> (r: Option<Option<i32>>)
    requires
        g matches Some(x) ==> x.1 <= x.2 <= s@.len(),
    ensures
        match code_value(s@, opt_group(g)) {
            Some(Some(v)) => r == Some(Some(v as i32)),
            Some(None) => r == Some(None::<i32>),
            None => r is None,
        },
{
    match g {
        None => Some(None),
        Some(x) => {
            let digits = copy_chars(s, x.1, x.2);
            match parse_int(digits.as_slice(), true, -0x8000_0000, 0x7fff_ffff) {
                Some(v) => Some(Some(v as i32)),
                None => None,
            }
        },
    }
}

fn package_from(s: &[char], m: &PackageMatchAt) -> (r: Option<Package>)
    requires
        match_bounds(*m, s@.len() as int),
    ensures
        match package_of(s@, match_view(*m)) {
            Some(k) => r matches Some(p) && package_view(p) == k,
            None => r is None,
        },
{
    let (vg, ug) = match m.a {
        Some(a) => if a.0 {
            (Some(a), m.b)
        } else {
            (m.b, Some(a))
        },
        None => (None, None),
    };
    let v = code_number(s, vg);
    let u = code_number(s, ug);
    match (v, u) {
        (Some(v), Some(u)) => {
            let file_name = match m.file {
                Some(f) => Some(string_from(s, f.0, f.1)),
                None => None,
            };
            Some(
                Package {
                    package_name: string_from(s, m.name.0, m.name.1),
                    file_name,
                    version_code: v,
                    uid: u,
                },
            )
        },
        _ => None,
    }
}

/// `pm list packages <filters> <display options> [name]`.
pub open spec fn list_packages_args(
    filters: ListPackageFilter,
    display: ListPackageDisplayOptions,
    name_filter: Option<Seq<char>>,
) -> Seq<Seq<char>> {
    seq!["pm"@, "list"@, "packages"@] + list_filter_args(filters) + list_display_args(display) + match name_filter {
        Some(n) => seq![n],
        None => seq![],
    }
}

impl<'a> PackageManager<'a> {
    /// `pm list packages <filters> <display options> [name]`.
    pub fn list_packages_command(
        &self,
        filters: &ListPackageFilter,
        display: &ListPackageDisplayOptions,
        name_filter: Option<&str>,
    ) -> (c: AdbCommand)
        ensures
            c@ == shell_view(
                *self.parent.parent,
                list_packages_args(
                    *filters,
                    *display,
                    match name_filter {
                        Some(n) => Some(n@),
                        None => None,
                    },
                ),
                None,
                false,
            ),
    {
        let head = crate::command::strings(&["pm", "list", "packages"]);
        assert(crate::command::texts(seq!["pm", "list", "packages"]) =~= seq!["pm"@, "list"@, "packages"@]);
        let mut args = concat(concat(head, filters.as_args()), display.as_args());
        match name_filter {
            Some(n) => {
                args = push_str(args, n.to_owned());
            },
            None => {},
        }
        assert(args.deep_view() =~= list_packages_args(
            *filters,
            *display,
            match name_filter {
                Some(n) => Some(n@),
                None => None,
            },
        ));
        self.parent.command(args)
    }

    /// The packages that `pm list packages` printed: one for each match of
    /// the entry pattern (see [`package_at`]) whose numbers are `i32`s, in
    /// order; output that is not UTF-8 is the `Errno` `EINVAL`.
    pub fn list_packages(&self, stdout: &Vec<u8>) -> (r: Result<Vec<Package>>)
        ensures
            match utf8_text(stdout@) {
                Some(t) => r matches Ok(v) && v@.len() == packages_from(t, 0).len() && forall|i: int|
                    0 <= i < v@.len() ==> package_view(#[trigger] v@[i]) == packages_from(t, 0)[i],
                None => r == Err::<Vec<Package>, AdbError>(AdbError::Errno(22)),
            },
    {
        let cs = match rustix_text(stdout) {
            Ok(v) => v,
            Err(e) => {
                return Err(e);
            },
        };
        let s = cs.as_slice();
        let w = words();
        let ghost t = s@;
        let ghost all = packages_from(t, 0);
        let mut out: Vec<Package> = Vec::new();
        let mut p: usize = 0;
        let mut i: usize = 0;
        loop
            invariant
                p <= i <= s@.len(),
                s@ == t,
                s@.len() == s.len(),
                utf8_text(stdout@) == Some(t),
                words_ok(w),
                all == packages_from(t, 0),
                out@.len() + packages_from(t, p as int).len() == all.len(),
                forall|k: int| 0 <= k < out@.len() ==> package_view(#[trigger] out@[k]) == all[k],
                forall|k: int|
                    0 <= k < packages_from(t, p as int).len() ==> #[trigger] packages_from(t, p as int)[k] == all[out@.len()
                        + k],
                first_package(t, i as int) == first_package(t, p as int),
            ensures
                out@.len() == all.len(),
                forall|k: int| 0 <= k < out@.len() ==> package_view(#[trigger] out@[k]) == all[k],
            decreases s@.len() - i,
        {
            if i == s.len() {
                assert(first_package(t, i as int) == -1);
                assert(packages_from(t, p as int).len() == 0);
                break;
            }
            match package_at_pos(s, i, &w) {
                None => {
                    i = i + 1;
                },
                Some(m) => {
                    let ghost rest = packages_from(t, m.end as int);
                    let ghost pre = out@;
                    match package_from(s, &m) {
                        Some(pk) => {
                            proof {
                                assert(packages_from(t, p as int) == seq![package_view(pk)] + rest);
                                assert(packages_from(t, p as int)[0] == all[out@.len() as int]);
                            }
                            out.push(pk);
                            proof {
                                assert forall|k: int| 0 <= k < rest.len() implies #[trigger] rest[k] == all[out@.len() + k] by {
                                    assert(packages_from(t, p as int)[k + 1] == rest[k]);
                                }
                            }
                        },
                        None => {
                            proof {
                                assert(packages_from(t, p as int) =~= rest);
                            }
                        },
                    }
                    p = m.end;
                    i = m.end;
                },
            }
        }
        Ok(out)
    }
}

} // verus!

verus! {

/// How long the package dumps that the permission and flag readers use may
/// take, in milliseconds.
pub const DUMP_TIMEOUT_MS: u64 = 1000;

/// `--user <u>` when a user is given, nothing otherwise.
pub open spec fn user_words(user: Option<Seq<char>>) -> Seq<Seq<char>> {
    match user {
        Some(u) => seq!["--user"@, u],
        None => seq![],
    }
}

/// The text of an optional argument.
pub open spec fn opt_text(o: Option<&str>) -> Option<Seq<char>> {
    match o {
        Some(s) => Some(s@),
        None => None,
    }
}

/// The first position at or after `i` where `p` occurs in `s`, or -1.
pub open spec fn first_occurrence(s: Seq<char>, p: Seq<char>, i: int) -> int
    decreases s.len() + 1 - i,
{
    if i < 0 || i > s.len() {
        -1
    } else if occurs_at(s, p, i) {
        i
    } else {
        first_occurrence(s, p, i + 1)
    }
}

/// What follows the first `package:` in the trimmed output of `pm path`;
/// none when it holds no `package:`.
pub open spec fn package_path_of(t: Seq<char>) -> Option<Seq<char>> {
    let u = trim(t);
    let k = first_occurrence(u, "package:"@, 0);
    if k < 0 {
        None
    } else {
        Some(u.subrange(k + 8, u.len() as int))
    }
}

fn find_text(s: &[char], p: &[char]) -> (r: Option<usize>)
    requires
        s@.len() == s.len(),
    ensures
        match r {
            Some(k) => first_occurrence(s@, p@, 0) == k as int && k + p@.len() <= s@.len(),
            None => first_occurrence(s@, p@, 0) == -1,
        },
{
    let mut k: usize = 0;
    loop
        invariant
            k <= s@.len(),
            s@.len() == s.len(),
            first_occurrence(s@, p@, k as int) == first_occurrence(s@, p@, 0),
        decreases s@.len() - k,
    {
        if matches_at(s, p, k) {
            return Some(k);
        }
        if k == s.len() {
            assert(first_occurrence(s@, p@, (k + 1) as int) == -1);
            return None;
        }
        k = k + 1;
    }
}

fn with_user(v: Vec<String>, user: Option<&str>) -> (r: Vec<String>)
    ensures
        r.deep_view() == v.deep_view() + user_words(opt_text(user)),
{
    let ghost v0 = v.deep_view();
    match user {
        Some(u) => {
            let r = push_str(push_str(v, "--user".to_owned()), u.to_owned());
            assert(r.deep_view() =~= v0 + user_words(opt_text(user)));
            r
        },
        None => {
            assert(v.deep_view() =~= v0 + user_words(opt_text(user)));
            v
        },
    }
}

impl<'a> PackageManager<'a> {
    /// `pm path [--user <u>] <package>`.
    pub fn path_command(&self, package_name: &str, user: Option<&str>) -> (c: AdbCommand)
        ensures
            c@ == shell_view(
                *self.parent.parent,
                seq!["pm"@, "path"@] + user_words(opt_text(user)) + seq![package_name@],
                None,
                false,
            ),
    {
        let head = crate::command::pair("pm", "path".to_owned());
        let v = push_str(with_user(head, user), package_name.to_owned());
        assert(v.deep_view() =~= seq!["pm"@, "path"@] + user_words(opt_text(user)) + seq![package_name@]);
        self.parent.command(v)
    }

    /// The path of the package from what `pm path` printed: see
    /// [`package_path_of`]; output without `package:` is
    /// `PackageNotFoundError(<package>)`, output that is not UTF-8 the
    /// `Errno` `EINVAL`.
    pub fn path(&self, stdout: &Vec<u8>, package_name: &str) -> (r: Result<String>)
        ensures
            match utf8_text(stdout@) {
                Some(t) => match package_path_of(t) {
                    Some(p) => r matches Ok(v) && v@ == p,
                    None => r matches Err(AdbError::PackageNotFoundError(n)) && n@ == package_name@,
                },
                None => r == Err::<String, AdbError>(AdbError::Errno(22)),
            },
    {
        let cs = match rustix_text(stdout) {
            Ok(v) => v,
            Err(e) => {
                return Err(e);
            },
        };
        let u = crate::text::trimmed(cs.as_slice(), 0, cs.len());
        proof {
            assert(cs@.subrange(0, cs@.len() as int) =~= cs@);
        }
        let key = chars_of("package:");
        proof {
            reveal_strlit("package:");
        }
        let us = u.as_slice();
        assert(us@.len() == us.len());
        match find_text(us, key.as_slice()) {
            Some(k) => Ok(string_from(us, k + 8, us.len())),
            None => Err(AdbError::PackageNotFoundError(package_name.to_owned())),
        }
    }

    /// Whether the package is installed, from the outcome of
    /// [`PackageManager::path`] run for it: a path that is not empty; no for
    /// `PackageNotFoundError` and for a failed run that wrote nothing; any
    /// other error stays.
    pub fn is_installed(&self, path: Result<String>) -> (r: Result<bool>)
        ensures
            match path {
                Ok(p) => r == Ok::<bool, AdbError>(p@.len() > 0),
                Err(AdbError::PackageNotFoundError(_)) => r == Ok::<bool, AdbError>(false),
                Err(AdbError::CmdError(c)) => if c.stdout@.len() == 0 && c.stderr@.len() == 0 {
                    r == Ok::<bool, AdbError>(false)
                } else {
                    r == Err::<bool, AdbError>(AdbError::CmdError(c))
                },
                Err(e) => r == Err::<bool, AdbError>(e),
            },
    {
        match path {
            Ok(p) => Ok(chars_of(p.as_str()).len() > 0),
            Err(AdbError::PackageNotFoundError(_)) => Ok(false),
            Err(AdbError::CmdError(c)) => {
                if c.stdout.len() == 0 && c.stderr.len() == 0 {
                    Ok(false)
                } else {
                    Err(AdbError::CmdError(c))
                }
            },
            Err(e) => Err(e),
        }
    }

    /// `pm grant [--user <u>] <package> <permission>`.
    pub fn grant(&self, package_name: &str, permission: &str, user: Option<&str>) -> (c: AdbCommand)
        ensures
            c@ == shell_view(
                *self.parent.parent,
                seq!["pm"@, "grant"@] + user_words(opt_text(user)) + seq![package_name@, permission@],
                None,
                false,
            ),
    {
        let head = crate::command::pair("pm", "grant".to_owned());
        let v = push_str(push_str(with_user(head, user), package_name.to_owned()), permission.to_owned());
        assert(v.deep_view() =~= seq!["pm"@, "grant"@] + user_words(opt_text(user)) + seq![
            package_name@,
            permission@,
        ]);
        self.parent.command(v)
    }

    /// `pm revoke [--user <u>] <package> <permission>`.
    pub fn revoke(&self, package_name: &str, permission: &str, user: Option<&str>) -> (c: AdbCommand)
        ensures
            c@ == shell_view(
                *self.parent.parent,
                seq!["pm"@, "revoke"@] + user_words(opt_text(user)) + seq![package_name@, permission@],
                None,
                false,
            ),
    {
        let head = crate::command::pair("pm", "revoke".to_owned());
        let v = push_str(push_str(with_user(head, user), package_name.to_owned()), permission.to_owned());
        assert(v.deep_view() =~= seq!["pm"@, "revoke"@] + user_words(opt_text(user)) + seq![
            package_name@,
            permission@,
        ]);
        self.parent.command(v)
    }

    /// `pm reset-permissions`: every runtime permission back to its default.
    pub fn reset_permissions(&self) -> (c: AdbCommand)
        ensures
            c@ == shell_view(*self.parent.parent, seq!["pm"@, "reset-permissions"@], None, false),
    {
        self.parent.command(crate::command::pair("pm", "reset-permissions".to_owned()))
    }

    /// `pm dump <package>`, killed after `timeout_ms` when given.
    pub fn dump_command(&self, package_name: &str, timeout_ms: Option<u64>) -> (c: AdbCommand)
        ensures
            c@ == shell_view(*self.parent.parent, seq!["pm"@, "dump"@, package_name@], timeout_ms, false),
    {
        let v = push_str(crate::command::pair("pm", "dump".to_owned()), package_name.to_owned());
        assert(v.deep_view() =~= seq!["pm"@, "dump"@, package_name@]);
        self.parent.parent.shell_command(v, timeout_ms, false)
    }

    /// The text `pm dump` printed; output that is not UTF-8 is the `Errno`
    /// `EINVAL`.
    pub fn dump(&self, stdout: &Vec<u8>) -> (r: Result<String>)
        ensures
            match utf8_text(stdout@) {
                Some(t) => r matches Ok(v) && v@ == t,
                None => r == Err::<String, AdbError>(AdbError::Errno(22)),
            },
    {
        match rustix_text(stdout) {
            Ok(v) => Ok(crate::outside::string_of(v.as_slice())),
            Err(e) => Err(e),
        }
    }

    /// The runtime permissions a package dump lists; see
    /// [`runtime_permissions_of`]. The dump comes from
    /// [`PackageManager::dump_command`] with [`DUMP_TIMEOUT_MS`].
    pub fn runtime_permissions(&self, dump: &str) -> (r: Result<Vec<RuntimePermission>>)
        ensures
            match runtime_permissions_of(dump@) {
                Some(es) => r matches Ok(v) && v@.map_values(|p: RuntimePermission| runtime_view(p)) == es,
                None => r == Err::<Vec<RuntimePermission>, AdbError>(AdbError::ParseInputError),
            },
    {
        crate::dump::runtime_permissions(dump)
    }

    /// The install permissions a package dump lists: those of its package
    /// section (see [`install_permissions_of`]), none when the section has
    /// no list; a dump without a package section is `ParseInputError`.
    pub fn install_permissions(&self, dump: &str) -> (r: Result<Vec<InstallPermission>>)
        ensures
            match section_after(dump@, "Packages:\n"@) {
                Some(p) => match install_permissions_of(p) {
                    Some(es) => r matches Ok(v) && v@.len() == es.len() && forall|i: int|
                        0 <= i < v@.len() ==> (#[trigger] v@[i]).name@ == es[i].0 && v@[i].granted == es[i].1,
                    None => r matches Ok(v) && v@.len() == 0,
                },
                None => r == Err::<Vec<InstallPermission>, AdbError>(AdbError::ParseInputError),
            },
    {
        match SimplePackageReader::new(dump) {
            Ok(reader) => match reader.install_permissions() {
                Some(v) => Ok(v),
                None => Ok(Vec::new()),
            },
            Err(e) => Err(e),
        }
    }

    /// The permissions a package requests, from its dump: those of its
    /// package section (see [`requested_permissions_of`]), none when the
    /// section has no list; a dump without a package section is
    /// `ParseInputError`.
    pub fn requested_permissions(&self, dump: &str) -> (r: Result<Vec<String>>)
        ensures
            match section_after(dump@, "Packages:\n"@) {
                Some(p) => match requested_permissions_of(p) {
                    Some(ns) => r matches Ok(v) && v.deep_view() == ns,
                    None => r matches Ok(v) && v@.len() == 0,
                },
                None => r == Err::<Vec<String>, AdbError>(AdbError::ParseInputError),
            },
    {
        match SimplePackageReader::new(dump) {
            Ok(reader) => match reader.requested_permissions() {
                Some(v) => Ok(v),
                None => Ok(Vec::new()),
            },
            Err(e) => Err(e),
        }
    }

    /// The flags of a package, from its dump; see [`package_flags_of`].
    pub fn package_flags(&self, dump: &str) -> (r: Result<Vec<PackageFlags>>)
        ensures
            match package_flags_of(dump@) {
                Some(fs) => r matches Ok(v) && v@ == fs,
                None => r == Err::<Vec<PackageFlags>, AdbError>(AdbError::ParseInputError),
            },
    {
        crate::dump::package_flags(dump)
    }

    /// Whether a package is a system package, from its dump: its flags hold
    /// `System`.
    pub fn is_system(&self, dump: &str) -> (r: Result<bool>)
        ensures
            match package_flags_of(dump@) {
                Some(fs) => r == Ok::<bool, AdbError>(fs.contains(PackageFlags::System)),
                None => r == Err::<bool, AdbError>(AdbError::ParseInputError),
            },
    {
        crate::dump::is_system(dump)
    }

    /// `cmd package uninstall <options> <package>`.
    pub fn uninstall(&self, package_name: &str, options: Option<UninstallOptions>) -> (c: AdbCommand)
        ensures
            c@ == shell_view(
                *self.parent.parent,
                seq!["cmd"@, "package"@, "uninstall"@] + match options {
                    Some(o) => uninstall_args(o),
                    None => seq![],
                } + seq![package_name@],
                None,
                false,
            ),
    {
        let mut v = crate::command::strings(&["cmd", "package", "uninstall"]);
        assert(crate::command::texts(seq!["cmd", "package", "uninstall"]) =~= seq!["cmd"@, "package"@, "uninstall"@]);
        match options {
            Some(o) => {
                v = concat(v, o.as_args());
            },
            None => {},
        }
        let v = push_str(v, package_name.to_owned());
        assert(v.deep_view() =~= seq!["cmd"@, "package"@, "uninstall"@] + match options {
            Some(o) => uninstall_args(o),
            None => seq![],
        } + seq![package_name@]);
        self.parent.command(v)
    }

    /// `cmd package install <options> <path>`, for an APK already on the
    /// device.
    pub fn install(&self, src: &str, options: Option<InstallOptions>) -> (c: AdbCommand)
        ensures
            c@ == shell_view(
                *self.parent.parent,
                seq!["cmd"@, "package"@, "install"@] + match options {
                    Some(o) => install_args(o),
                    None => seq![],
                } + seq![src@],
                None,
                false,
            ),
    {
        let mut v = crate::command::strings(&["cmd", "package", "install"]);
        assert(crate::command::texts(seq!["cmd", "package", "install"]) =~= seq!["cmd"@, "package"@, "install"@]);
        match options {
            Some(o) => {
                v = concat(v, o.as_args());
            },
            None => {},
        }
        let v = push_str(v, src.to_owned());
        assert(v.deep_view() =~= seq!["cmd"@, "package"@, "install"@] + match options {
            Some(o) => install_args(o),
            None => seq![],
        } + seq![src@]);
        self.parent.command(v)
    }

    /// `pm <operation> [--user <u>] <package or component>`.
    pub fn operation(&self, operation: &str, package_or_component: &str, user: Option<&str>) -> (c: AdbCommand)
        ensures
            c@ == shell_view(
                *self.parent.parent,
                seq!["pm"@, operation@] + user_words(opt_text(user)) + seq![package_or_component@],
                None,
                false,
            ),
    {
        let head = crate::command::pair("pm", operation.to_owned());
        let v = push_str(with_user(head, user), package_or_component.to_owned());
        assert(v.deep_view() =~= seq!["pm"@, operation@] + user_words(opt_text(user)) + seq![
            package_or_component@,
        ]);
        self.parent.command(v)
    }

    /// `pm clear [--user <u>] <package>`.
    pub fn clear(&self, package_name: &str, user: Option<&str>) -> (c: AdbCommand)
        ensures
            c@ == shell_view(
                *self.parent.parent,
                seq!["pm"@, "clear"@] + user_words(opt_text(user)) + seq![package_name@],
                None,
                false,
            ),
    {
        let c = self.operation("clear", package_name, user);
        proof {
            reveal_strlit("clear");
        }
        c
    }

    /// `pm suspend [--user <u>] <package>`.
    pub fn suspend(&self, package_name: &str, user: Option<&str>) -> (c: AdbCommand)
        ensures
            c@ == shell_view(
                *self.parent.parent,
                seq!["pm"@, "suspend"@] + user_words(opt_text(user)) + seq![package_name@],
                None,
                false,
            ),
    {
        let c = self.operation("suspend", package_name, user);
        proof {
            reveal_strlit("suspend");
        }
        c
    }

    /// `pm unsuspend [--user <u>] <package>`.
    pub fn unsuspend(&self, package_name: &str, user: Option<&str>) -> (c: AdbCommand)
        ensures
            c@ == shell_view(
                *self.parent.parent,
                seq!["pm"@, "unsuspend"@] + user_words(opt_text(user)) + seq![package_name@],
                None,
                false,
            ),
    {
        let c = self.operation("unsuspend", package_name, user);
        proof {
            reveal_strlit("unsuspend");
        }
        c
    }

    /// `pm hide [--user <u>] <package>`.
    pub fn hide_package(&self, package_name: &str, user: Option<&str>) -> (c: AdbCommand)
        ensures
            c@ == shell_view(
                *self.parent.parent,
                seq!["pm"@, "hide"@] + user_words(opt_text(user)) + seq![package_name@],
                None,
                false,
            ),
    {
        let c = self.operation("hide", package_name, user);
        proof {
            reveal_strlit("hide");
        }
        c
    }

    /// `pm unhide [--user <u>] <package>`.
    pub fn unhide(&self, package_name: &str, user: Option<&str>) -> (c: AdbCommand)
        ensures
            c@ == shell_view(
                *self.parent.parent,
                seq!["pm"@, "unhide"@] + user_words(opt_text(user)) + seq![package_name@],
                None,
                false,
            ),
    {
        let c = self.operation("unhide", package_name, user);
        proof {
            reveal_strlit("unhide");
        }
        c
    }

    /// `pm default-state [--user <u>] <package>`.
    pub fn default_state(&self, package_name: &str, user: Option<&str>) -> (c: AdbCommand)
        ensures
            c@ == shell_view(
                *self.parent.parent,
                seq!["pm"@, "default-state"@] + user_words(opt_text(user)) + seq![package_name@],
                None,
                false,
            ),
    {
        let c = self.operation("default-state", package_name, user);
        proof {
            reveal_strlit("default-state");
        }
        c
    }

    /// `pm disable-until-used [--user <u>] <package>`.
    pub fn disable_until_used(&self, package_name: &str, user: Option<&str>) -> (c: AdbCommand)
        ensures
            c@ == shell_view(
                *self.parent.parent,
                seq!["pm"@, "disable-until-used"@] + user_words(opt_text(user)) + seq![package_name@],
                None,
                false,
            ),
    {
        let c = self.operation("disable-until-used", package_name, user);
        proof {
            reveal_strlit("disable-until-used");
        }
        c
    }

    /// `pm disable-user [--user <u>] <package>`.
    pub fn disable_user(&self, package_name: &str, user: Option<&str>) -> (c: AdbCommand)
        ensures
            c@ == shell_view(
                *self.parent.parent,
                seq!["pm"@, "disable-user"@] + user_words(opt_text(user)) + seq![package_name@],
                None,
                false,
            ),
    {
        let c = self.operation("disable-user", package_name, user);
        proof {
            reveal_strlit("disable-user");
        }
        c
    }

    /// `pm disable [--user <u>] <package>`.
    pub fn disable(&self, package_name: &str, user: Option<&str>) -> (c: AdbCommand)
        ensures
            c@ == shell_view(
                *self.parent.parent,
                seq!["pm"@, "disable"@] + user_words(opt_text(user)) + seq![package_name@],
                None,
                false,
            ),
    {
        let c = self.operation("disable", package_name, user);
        proof {
            reveal_strlit("disable");
        }
        c
    }

    /// `pm enable [--user <u>] <package>`.
    pub fn enable(&self, package_name: &str, user: Option<&str>) -> (c: AdbCommand)
        ensures
            c@ == shell_view(
                *self.parent.parent,
                seq!["pm"@, "enable"@] + user_words(opt_text(user)) + seq![package_name@],
                None,
                false,
            ),
    {
        let c = self.operation("enable", package_name, user);
        proof {
            reveal_strlit("enable");
        }
        c
    }
}

} // verus!
