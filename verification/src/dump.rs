//! Reading the text that `dumpsys package <name>` prints: the package
//! section, its fields, permissions and flags, and the dexopt section.
use vstd::prelude::*;
use crate::error::{AdbError, Result};
use crate::text::{is_ws, ws_end, next_index, occurs_at, skip_spaces, next_index_of, matches_at, copy_chars, split_on, split_string};
use crate::types::{PackageFlags, InstallPermission, RuntimePermission, package_flag_of};
use crate::outside::{chars_of, string_of, word_char, is_word_char};

verus! {

/// Whether position `i` of `s` starts a line: the start of the text or the
/// position after a `\n` (the `^` of a multi-line pattern).
pub open spec fn line_start(s: Seq<char>, i: int) -> bool {
    i == 0 || (0 < i <= s.len() && s[i - 1] == '\n')
}

/// Whether a line is empty at `j`: a line starts there and ends there (the
/// `(?m)^$` pattern).
pub open spec fn empty_line_at(s: Seq<char>, j: int) -> bool {
    line_start(s, j) && (j == s.len() || (0 <= j < s.len() && s[j] == '\n'))
}

/// The first empty line at or after `j`, or -1.
pub open spec fn first_empty_line(s: Seq<char>, j: int) -> int
    decreases s.len() + 1 - j,
{
    if j < 0 || j > s.len() {
        -1
    } else if empty_line_at(s, j) {
        j
    } else {
        first_empty_line(s, j + 1)
    }
}

/// The first position at or after `k` where a line starts with `h`, or -1
/// (the `(?m)^<h>` pattern).
pub open spec fn first_header(s: Seq<char>, h: Seq<char>, k: int) -> int
    decreases s.len() + 1 - k,
{
    if k < 0 || k > s.len() {
        -1
    } else if line_start(s, k) && occurs_at(s, h, k) {
        k
    } else {
        first_header(s, h, k + 1)
    }
}

/// The section that follows the first line `h` (which ends with `\n`): the
/// text up to the first empty line after it; none when either is missing.
pub open spec fn section_after(s: Seq<char>, h: Seq<char>) -> Option<Seq<char>> {
    let k = first_header(s, h, 0);
    if k < 0 {
        None
    } else {
        let start = k + h.len();
        let e = first_empty_line(s, start);
        if e < 0 {
            None
        } else {
            Some(s.subrange(start, e))
        }
    }
}

fn find_empty_line(s: &[char], j: usize) -> (r: Option<usize>)
    requires
        j <= s@.len(),
        s@.len() == s.len(),
    ensures
        match r {
            Some(e) => first_empty_line(s@, j as int) == e as int && j <= e <= s@.len(),
            None => first_empty_line(s@, j as int) == -1,
        },
{
    let mut p = j;
    loop
        invariant
            j <= p <= s@.len(),
            s@.len() == s.len(),
            first_empty_line(s@, p as int) == first_empty_line(s@, j as int),
        decreases s@.len() - p,
    {
        let starts = p == 0 || s[p - 1] == '\n';
        let ends = p == s.len() || s[p] == '\n';
        if starts && ends {
            return Some(p);
        }
        if p == s.len() {
            assert(first_empty_line(s@, (p + 1) as int) == -1);
            return None;
        }
        p = p + 1;
    }
}

fn find_header(s: &[char], h: &[char]) -> (r: Option<usize>)
    requires
        s@.len() == s.len(),
    ensures
        match r {
            Some(k) => first_header(s@, h@, 0) == k as int && k + h@.len() <= s@.len(),
            None => first_header(s@, h@, 0) == -1,
        },
{
    let mut k: usize = 0;
    loop
        invariant
            k <= s@.len(),
            s@.len() == s.len(),
            first_header(s@, h@, k as int) == first_header(s@, h@, 0),
        decreases s@.len() - k,
    {
        let starts = k == 0 || s[k - 1] == '\n';
        if starts && matches_at(s, h, k) {
            return Some(k);
        }
        if k == s.len() {
            assert(first_header(s@, h@, (k + 1) as int) == -1);
            return None;
        }
        k = k + 1;
    }
}

/// [`section_after`] of `s`.
fn section(s: &[char], h: &[char]) -> (r: Option<Vec<char>>)
    requires
        s@.len() == s.len(),
    ensures
        match section_after(s@, h@) {
            Some(t) => r matches Some(v) && v@ == t,
            None => r is None,
        },
{
    match find_header(s, h) {
        None => None,
        Some(k) => {
            let start = k + h.len();
            match find_empty_line(s, start) {
                None => None,
                Some(e) => Some(copy_chars(s, start, e)),
            }
        },
    }
}

/// The sections of a package dump that the reader looks at.
pub struct SimplePackageReader {
    /// The package section: what follows the line `Packages:` up to the
    /// first empty line.
    pub data: Vec<char>,
    /// The dexopt section, empty when the dump has none.
    pub dexopt: DexoptState,
}

/// The section that follows the line `Dexopt state:`.
pub struct DexoptState {
    pub data: Vec<char>,
}

impl SimplePackageReader {
    /// The reader of a dump: its package section must exist (else
    /// `ParseInputError`); its dexopt section may be missing.
    pub fn new(data: &str) -> (r: Result<SimplePackageReader>)
        ensures
            match section_after(data@, "Packages:\n"@) {
                Some(p) => r matches Ok(reader) && reader.data@ == p && reader.dexopt.data@ == match section_after(
                    data@,
                    "Dexopt state:\n"@,
                ) {
                    Some(d) => d,
                    None => Seq::<char>::empty(),
                },
                None => r == Err::<SimplePackageReader, AdbError>(AdbError::ParseInputError),
            },
    {
        let s = chars_of(data);
        let packages = chars_of("Packages:\n");
        let dexopt = chars_of("Dexopt state:\n");
        let p = section(s.as_slice(), packages.as_slice());
        let d = section(s.as_slice(), dexopt.as_slice());
        match p {
            Some(pd) => {
                let dd = match d {
                    Some(v) => v,
                    None => Vec::new(),
                };
                Ok(SimplePackageReader { data: pd, dexopt: DexoptState { data: dd } })
            },
            None => Err(AdbError::ParseInputError),
        }
    }
}

} // verus!

verus! {

/// Where the white-space run that ends at `k` starts.
pub open spec fn ws_start(s: Seq<char>, k: int) -> int
    decreases k,
{
    if 0 < k <= s.len() && is_ws(s[k - 1]) {
        ws_start(s, k - 1)
    } else {
        k
    }
}

/// The first line start inside the white-space run that ends at `k`, or
/// -1: where an indentation of what stands at `k` begins.
pub open spec fn indent_start(s: Seq<char>, k: int) -> int {
    let m = ws_start(s, k);
    if m == 0 {
        0
    } else {
        let p = next_index(s, '\n', m);
        if p < k {
            p + 1
        } else {
            -1
        }
    }
}

/// Whether `key` stands at `k` after at least `n` characters of white space
/// that begin a line (the `(?m)^\s{n,}<key>` pattern, for a key that does
/// not begin with white space).
pub open spec fn indented_at(s: Seq<char>, key: Seq<char>, k: int, n: int) -> bool {
    occurs_at(s, key, k) && 0 <= indent_start(s, k) && indent_start(s, k) + n <= k
}

/// The first position at or after `k` where `key` stands indented by at
/// least three, or -1.
pub open spec fn first_indented(s: Seq<char>, key: Seq<char>, k: int) -> int
    decreases s.len() + 1 - k,
{
    if k < 0 || k > s.len() {
        -1
    } else if indented_at(s, key, k, 3) {
        k
    } else {
        first_indented(s, key, k + 1)
    }
}

/// The value of the first field `<name>=<value>` that stands on a line
/// indented by at least three: the rest of that line (the pattern
/// `(?m)^\s{3,}<name>=(.*)$`).
pub open spec fn item_value(s: Seq<char>, name: Seq<char>) -> Option<Seq<char>> {
    let key = name + seq!['='];
    let k = first_indented(s, key, 0);
    if k < 0 {
        None
    } else {
        let v = k + key.len();
        Some(s.subrange(v, next_index(s, '\n', v)))
    }
}

fn run_start(s: &[char], k: usize) -> (m: usize)
    requires
        k <= s@.len(),
    ensures
        m == ws_start(s@, k as int),
        m <= k,
{
    let mut m = k;
    while m > 0 && crate::text::is_whitespace(s[m - 1])
        invariant
            m <= k <= s@.len(),
            ws_start(s@, m as int) == ws_start(s@, k as int),
        decreases m,
    {
        m = m - 1;
    }
    m
}

fn indent_of(s: &[char], k: usize) -> (r: Option<usize>)
    requires
        k <= s@.len(),
    ensures
        match r {
            Some(i) => indent_start(s@, k as int) == i as int,
            None => indent_start(s@, k as int) == -1,
        },
{
    let m = run_start(s, k);
    if m == 0 {
        return Some(0);
    }
    let p = next_index_of(s, '\n', m);
    if p < k {
        Some(p + 1)
    } else {
        None
    }
}

fn indented(s: &[char], key: &[char], k: usize, n: usize) -> (b: bool)
    requires
        k <= s@.len(),
    ensures
        b == indented_at(s@, key@, k as int, n as int),
{
    if !matches_at(s, key, k) {
        return false;
    }
    match indent_of(s, k) {
        Some(i) => i <= k && k - i >= n,
        None => false,
    }
}

fn find_indented(s: &[char], key: &[char]) -> (r: Option<usize>)
    requires
        s@.len() == s.len(),
    ensures
        match r {
            Some(k) => first_indented(s@, key@, 0) == k as int && k + key@.len() <= s@.len(),
            None => first_indented(s@, key@, 0) == -1,
        },
{
    let mut k: usize = 0;
    loop
        invariant
            k <= s@.len(),
            s@.len() == s.len(),
            first_indented(s@, key@, k as int) == first_indented(s@, key@, 0),
        decreases s@.len() - k,
    {
        if indented(s, key, k, 3) {
            return Some(k);
        }
        if k == s.len() {
            assert(first_indented(s@, key@, (k + 1) as int) == -1);
            return None;
        }
        k = k + 1;
    }
}

impl SimplePackageReader {
    /// The value of the field `name` in the package section (see
    /// [`item_value`]); a missing field is `NameNotFoundError(name)`.
    pub fn get_item(&self, name: &str) -> (r: Result<String>)
        ensures
            match item_value(self.data@, name@) {
                Some(v) => r matches Ok(t) && t@ == v,
                None => r matches Err(AdbError::NameNotFoundError(n)) && n@ == name@,
            },
    {
        let mut key_chars = chars_of(name);
        key_chars.push('=');
        let ghost key = name@ + seq!['='];
        assert(key_chars@ =~= key);
        let s = self.data.as_slice();
        match find_indented(s, key_chars.as_slice()) {
            Some(k) => {
                assert(s@.len() == s.len());
                let v = k + key_chars.len();
                let e = next_index_of(s, '\n', v);
                Ok(crate::text::string_from(s, v, e))
            },
            None => Err(AdbError::NameNotFoundError(name.to_owned())),
        }
    }

    /// The field `versionName`.
    pub fn get_version_name(&self) -> (r: Option<String>)
        ensures
            match item_value(self.data@, "versionName"@) {
                Some(v) => r matches Some(t) && t@ == v,
                None => r is None,
            },
    {
        self.get_item("versionName").ok()
    }

    /// The field `firstInstallTime`.
    pub fn get_first_install_time(&self) -> (r: Option<String>)
        ensures
            match item_value(self.data@, "firstInstallTime"@) {
                Some(v) => r matches Some(t) && t@ == v,
                None => r is None,
            },
    {
        self.get_item("firstInstallTime").ok()
    }

    /// The field `lastUpdateTime`.
    pub fn get_last_update_time(&self) -> (r: Option<String>)
        ensures
            match item_value(self.data@, "lastUpdateTime"@) {
                Some(v) => r matches Some(t) && t@ == v,
                None => r is None,
            },
    {
        self.get_item("lastUpdateTime").ok()
    }

    /// The field `timeStamp`.
    pub fn get_timestamp(&self) -> (r: Option<String>)
        ensures
            match item_value(self.data@, "timeStamp"@) {
                Some(v) => r matches Some(t) && t@ == v,
                None => r is None,
            },
    {
        self.get_item("timeStamp").ok()
    }

    /// The field `dataDir`.
    pub fn get_data_dir(&self) -> (r: Option<String>)
        ensures
            match item_value(self.data@, "dataDir"@) {
                Some(v) => r matches Some(t) && t@ == v,
                None => r is None,
            },
    {
        self.get_item("dataDir").ok()
    }

    /// The field `userId`.
    pub fn get_user_id(&self) -> (r: Option<String>)
        ensures
            match item_value(self.data@, "userId"@) {
                Some(v) => r matches Some(t) && t@ == v,
                None => r is None,
            },
    {
        self.get_item("userId").ok()
    }

    /// The field `codePath`.
    pub fn get_code_path(&self) -> (r: Option<String>)
        ensures
            match item_value(self.data@, "codePath"@) {
                Some(v) => r matches Some(t) && t@ == v,
                None => r is None,
            },
    {
        self.get_item("codePath").ok()
    }

    /// The field `resourcePath`.
    pub fn get_resource_path(&self) -> (r: Option<String>)
        ensures
            match item_value(self.data@, "resourcePath"@) {
                Some(v) => r matches Some(t) && t@ == v,
                None => r is None,
            },
    {
        self.get_item("resourcePath").ok()
    }
}

} // verus!

verus! {

/// The last position `j` in `[gs, e]` where white space stands before `]`, or -1.
pub open spec fn close_before(s: Seq<char>, gs: int, e: int) -> int
    decreases e - gs + 1,
{
    if e < gs {
        -1
    } else if 0 <= e && e + 1 < s.len() && is_ws(s[e]) && s[e + 1] == ']' {
        e
    } else {
        close_before(s, gs, e - 1)
    }
}

/// Where the flag list of a `pkgFlags=[` at `k` ends, or -1: after one
/// white space, the list runs on its line to the last white space before a
/// `]`.
pub open spec fn flags_close(s: Seq<char>, k: int) -> int {
    let t = k + 10;
    if 0 <= t < s.len() && is_ws(s[t]) {
        close_before(s, t + 1, next_index(s, '\n', t + 1))
    } else {
        -1
    }
}

/// Whether the flag pattern `^\s*pkgFlags=\[\s(.*)\s]` matches with its
/// key at `k`.
pub open spec fn flags_at(s: Seq<char>, k: int) -> bool {
    occurs_at(s, "pkgFlags=["@, k) && indent_start(s, k) >= 0 && flags_close(s, k) >= 0
}

/// The first position at or after `k` where [`flags_at`] holds, or -1.
pub open spec fn first_flags(s: Seq<char>, k: int) -> int
    decreases s.len() + 1 - k,
{
    if k < 0 || k > s.len() {
        -1
    } else if flags_at(s, k) {
        k
    } else {
        first_flags(s, k + 1)
    }
}

/// The flags that the words of a list name, in order; other words are
/// skipped.
pub open spec fn known_flags(words: Seq<Seq<char>>) -> Seq<PackageFlags>
    decreases words.len(),
{
    if words.len() == 0 {
        seq![]
    } else {
        let rest = known_flags(words.drop_last());
        match package_flag_of(words.last()) {
            Some(f) => rest.push(f),
            None => rest,
        }
    }
}

/// The package flags of a package section: the words of the first flag
/// list, cut at spaces, that name a flag; none when the section has no
/// flag list.
pub open spec fn package_flags_of(s: Seq<char>) -> Option<Seq<PackageFlags>> {
    let k = first_flags(s, 0);
    if k < 0 {
        None
    } else {
        Some(known_flags(split_on(s.subrange(k + 11, flags_close(s, k)), ' ')))
    }
}

impl PackageFlags {
    /// The flag that `pm dump` writes as `value`; any other word is
    /// `NameNotFoundError(value)`.
    pub fn try_from_str(value: &str) -> (r: Result<PackageFlags>)
        ensures
            match package_flag_of(value@) {
                Some(f) => r == Ok::<PackageFlags, AdbError>(f),
                None => r matches Err(AdbError::NameNotFoundError(n)) && n@ == value@,
            },
    {
        if crate::text::str_eq(value, "SYSTEM") {
            Ok(PackageFlags::System)
        } else if crate::text::str_eq(value, "HAS_CODE") {
            Ok(PackageFlags::HasCode)
        } else if crate::text::str_eq(value, "ALLOW_CLEAR_USER_DATA") {
            Ok(PackageFlags::AllowClearUserData)
        } else if crate::text::str_eq(value, "UPDATED_SYSTEM_APP") {
            Ok(PackageFlags::UpdatedSystemApp)
        } else if crate::text::str_eq(value, "ALLOW_BACKUP") {
            Ok(PackageFlags::AllowBackup)
        } else {
            Err(AdbError::NameNotFoundError(value.to_owned()))
        }
    }
}

fn find_close(s: &[char], gs: usize, e: usize) -> (r: Option<usize>)
    requires
        e <= s@.len(),
        s@.len() == s.len(),
    ensures
        match r {
            Some(j) => close_before(s@, gs as int, e as int) == j as int && gs <= j && j + 1 < s@.len(),
            None => close_before(s@, gs as int, e as int) == -1,
        },
{
    let mut j = e;
    loop
        invariant
            j <= e <= s@.len(),
            s@.len() == s.len(),
            close_before(s@, gs as int, j as int) == close_before(s@, gs as int, e as int),
        decreases j,
    {
        if j < gs {
            return None;
        }
        if j < s.len() && s.len() - j > 1 && crate::text::is_whitespace(s[j]) && s[j + 1] == ']' {
            return Some(j);
        }
        if j == 0 {
            assert(close_before(s@, gs as int, -1) == -1);
            return None;
        }
        j = j - 1;
    }
}

fn flags_close_at(s: &[char], k: usize) -> (r: Option<usize>)
    requires
        k <= s@.len(),
        s@.len() == s.len(),
    ensures
        match r {
            Some(j) => flags_close(s@, k as int) == j as int && k + 11 <= j && j + 1 < s@.len(),
            None => flags_close(s@, k as int) < 0,
        },
{
    if s.len() - k <= 10 {
        return None;
    }
    let t = k + 10;
    if !crate::text::is_whitespace(s[t]) {
        return None;
    }
    let le = next_index_of(s, '\n', t + 1);
    find_close(s, t + 1, le)
}

/// The flags of a package section; see [`package_flags_of`]. A section
/// without a flag list is `ParseInputError`.
pub fn package_flags(dump: &str) -> (r: Result<Vec<PackageFlags>>)
    ensures
        match package_flags_of(dump@) {
            Some(fs) => r matches Ok(v) && v@ == fs,
            None => r == Err::<Vec<PackageFlags>, AdbError>(AdbError::ParseInputError),
        },
{
    let cs = chars_of(dump);
    let s = cs.as_slice();
    let key = chars_of("pkgFlags=[");
    let mut k: usize = 0;
    let mut found: Option<(usize, usize)> = None;
    loop
        invariant_except_break
            found is None,
        invariant
            k <= s@.len(),
            s@ == dump@,
            s@.len() == s.len(),
            key@ == "pkgFlags=["@,
            first_flags(s@, k as int) == first_flags(s@, 0),
        ensures
            match found {
                Some(p) => first_flags(s@, 0) == p.0 as int && flags_close(s@, p.0 as int) == p.1 as int && p.0
                    + 11 <= p.1 && p.1 < s@.len(),
                None => first_flags(s@, 0) == -1,
            },
        decreases s@.len() - k,
    {
        if matches_at(s, key.as_slice(), k) && indent_of(s, k).is_some() {
            match flags_close_at(s, k) {
                Some(j) => {
                    found = Some((k, j));
                    break;
                },
                None => {},
            }
        }
        if k == s.len() {
            assert(first_flags(s@, (k + 1) as int) == -1);
            break;
        }
        k = k + 1;
    }
    match found {
        None => Err(AdbError::ParseInputError),
        Some((k, j)) => {
            let g = copy_chars(s, k + 11, j);
            let words = split_string(g.as_slice(), 0, ' ');
            proof {
                assert(g@.subrange(0, g@.len() as int) =~= g@);
            }
            let ghost ws = words.deep_view();
            let mut out: Vec<PackageFlags> = Vec::new();
            let mut i: usize = 0;
            assert(ws.subrange(0, 0) =~= Seq::<Seq<char>>::empty());
            while i < words.len()
                invariant
                    i <= words@.len(),
                    ws == words.deep_view(),
                    out@ == known_flags(ws.subrange(0, i as int)),
                decreases words@.len() - i,
            {
                proof {
                    assert(ws.subrange(0, i + 1).drop_last() =~= ws.subrange(0, i as int));
                    assert(ws.subrange(0, i + 1).last() == words@[i as int]@);
                }
                match PackageFlags::try_from_str(words[i].as_str()) {
                    Ok(f) => {
                        out.push(f);
                    },
                    Err(_) => {},
                }
                i = i + 1;
            }
            assert(ws.subrange(0, words@.len() as int) =~= ws);
            Ok(out)
        },
    }
}

} // verus!

verus! {

/// Whether a package section marks the package as a system package: its
/// flags name `SYSTEM`; a section without flags is `ParseInputError`.
pub fn is_system(data: &str) -> (r: Result<bool>)
    ensures
        match package_flags_of(data@) {
            Some(fs) => r == Ok::<bool, AdbError>(fs.contains(PackageFlags::System)),
            None => r == Err::<bool, AdbError>(AdbError::ParseInputError),
        },
{
    match package_flags(data) {
        Ok(fs) => {
            let mut i: usize = 0;
            while i < fs.len()
                invariant
                    i <= fs@.len(),
                    package_flags_of(data@) == Some(fs@),
                    forall|j: int| 0 <= j < i ==> fs@[j] != PackageFlags::System,
                decreases fs@.len() - i,
            {
                if fs[i] == PackageFlags::System {
                    assert(fs@[i as int] == PackageFlags::System);
                    assert(fs@.contains(PackageFlags::System));
                    return Ok(true);
                }
                i = i + 1;
            }
            Ok(false)
        },
        Err(e) => Err(e),
    }
}

impl SimplePackageReader {
    /// The flags of the package section, none when it has no flag list.
    pub fn get_package_flags(&self) -> (r: Option<Vec<PackageFlags>>)
        ensures
            match package_flags_of(self.data@) {
                Some(fs) => r matches Some(v) && v@ == fs,
                None => r is None,
            },
    {
        let s = string_of(self.data.as_slice());
        package_flags(s.as_str()).ok()
    }

    /// Whether the package is a system package, none when the section has
    /// no flag list.
    pub fn is_system(&self) -> (r: Option<bool>)
        ensures
            match package_flags_of(self.data@) {
                Some(fs) => r == Some(fs.contains(PackageFlags::System)),
                None => r is None,
            },
    {
        let s = string_of(self.data.as_slice());
        is_system(s.as_str()).ok()
    }
}

} // verus!

verus! {

/// A character of a permission name: a word character or a dot (`[\w\.]`).
pub open spec fn perm_char(c: char) -> bool {
    word_char(c) || c == '.'
}

/// The first position at or after `i` that holds no permission-name character.
pub open spec fn perm_word_end(s: Seq<char>, i: int) -> int
    decreases s.len() - i,
{
    if 0 <= i < s.len() && perm_char(s[i]) {
        perm_word_end(s, i + 1)
    } else {
        i
    }
}

/// Where the permission name that starts at `w` ends when it closes a line,
/// or -1 (`[\w\.]+$`).
pub open spec fn perm_name_end(s: Seq<char>, w: int) -> int {
    let e = perm_word_end(s, w);
    if e > w && (e == s.len() || (0 <= e < s.len() && s[e] == '\n')) {
        e
    } else {
        -1
    }
}

/// One item of the requested-permission list at `x`: at least four
/// characters of white space, then a name that closes its line; where it
/// ends, or -1 (`\s{4,}[\w\.]+$`; word characters are never white space).
pub open spec fn perm_item(s: Seq<char>, x: int) -> int {
    let w = ws_end(s, x);
    if w - x >= 4 {
        perm_name_end(s, w)
    } else {
        -1
    }
}

/// Where the items that follow one another from `x` end: as many as match.
pub open spec fn perm_items_end(s: Seq<char>, x: int) -> int
    decreases s.len() - x,
{
    let e = perm_item(s, x);
    if x < e <= s.len() {
        perm_items_end(s, e)
    } else {
        x
    }
}

/// Whether the list `requested permissions:` with at least one item stands
/// at `k`, indented by at least three.
pub open spec fn requested_at(s: Seq<char>, k: int) -> bool {
    indented_at(s, "requested permissions:\n"@, k, 3) && perm_item(s, k + 23) > k + 23
}

/// The first position at or after `k` where [`requested_at`] holds, or -1.
pub open spec fn first_requested(s: Seq<char>, k: int) -> int
    decreases s.len() + 1 - k,
{
    if k < 0 || k > s.len() {
        -1
    } else if requested_at(s, k) {
        k
    } else {
        first_requested(s, k + 1)
    }
}

/// A line of a text that is one permission name indented by at least four
/// (`(?m)^\s{4,}([\w\.]+)$`): the bounds of the name.
pub open spec fn perm_line(h: Seq<char>, l: int) -> Option<(int, int)> {
    let w = ws_end(h, l);
    if line_start(h, l) && w - l >= 4 && perm_name_end(h, w) >= 0 {
        Some((w, perm_name_end(h, w)))
    } else {
        None
    }
}

/// The first position at or after `p` where [`perm_line`] matches, or -1.
pub open spec fn first_perm_line(h: Seq<char>, p: int) -> int
    decreases h.len() + 1 - p,
{
    if p < 0 || p > h.len() {
        -1
    } else if perm_line(h, p) is Some {
        p
    } else {
        first_perm_line(h, p + 1)
    }
}

/// The names that the successive matches of [`perm_line`] from `p` capture.
pub open spec fn perm_names(h: Seq<char>, p: int) -> Seq<Seq<char>>
    decreases h.len() - p,
{
    let l = first_perm_line(h, p);
    if l < 0 {
        seq![]
    } else {
        let m = perm_line(h, l)->0;
        if p < m.1 <= h.len() && 0 <= m.0 <= m.1 {
            seq![h.subrange(m.0, m.1)] + perm_names(h, m.1)
        } else {
            seq![]
        }
    }
}

/// The requested permissions of a package section: the text from the
/// first line `requested permissions:` through its items, and in it the
/// names of the lines that match [`perm_line`]; none without such a list.
pub open spec fn requested_permissions_of(s: Seq<char>) -> Option<Seq<Seq<char>>> {
    let k = first_requested(s, 0);
    if k < 0 {
        None
    } else {
        Some(perm_names(s.subrange(indent_start(s, k), perm_items_end(s, k + 23)), 0))
    }
}

fn is_perm_char(c: char) -> (b: bool)
    ensures
        b == perm_char(c),
{
    is_word_char(c) || c == '.'
}

fn perm_name_end_at(s: &[char], w: usize) -> (r: Option<usize>)
    requires
        w <= s@.len(),
    ensures
        match r {
            Some(e) => perm_name_end(s@, w as int) == e as int && w < e <= s@.len(),
            None => perm_name_end(s@, w as int) == -1,
        },
{
    let mut e = w;
    while e < s.len() && is_perm_char(s[e])
        invariant
            w <= e <= s@.len(),
            perm_word_end(s@, e as int) == perm_word_end(s@, w as int),
        decreases s@.len() - e,
    {
        e = e + 1;
    }
    if e > w && (e == s.len() || s[e] == '\n') {
        Some(e)
    } else {
        None
    }
}

fn perm_item_at(s: &[char], x: usize) -> (r: Option<usize>)
    requires
        x <= s@.len(),
    ensures
        match r {
            Some(e) => perm_item(s@, x as int) == e as int && x < e <= s@.len(),
            None => perm_item(s@, x as int) == -1,
        },
{
    let w = skip_spaces(s, x);
    if w - x >= 4 {
        perm_name_end_at(s, w)
    } else {
        None
    }
}

fn perm_items_end_at(s: &[char], x: usize) -> (r: usize)
    requires
        x <= s@.len(),
    ensures
        r == perm_items_end(s@, x as int),
        x <= r <= s@.len(),
{
    let mut p = x;
    loop
        invariant
            x <= p <= s@.len(),
            perm_items_end(s@, p as int) == perm_items_end(s@, x as int),
        decreases s@.len() - p,
    {
        match perm_item_at(s, p) {
            Some(e) => {
                p = e;
            },
            None => {
                return p;
            },
        }
    }
}

fn perm_line_at(h: &[char], l: usize) -> (r: Option<(usize, usize)>)
    requires
        l <= h@.len(),
    ensures
        match r {
            Some(m) => perm_line(h@, l as int) == Some((m.0 as int, m.1 as int)) && l <= m.0 < m.1 <= h@.len(),
            None => perm_line(h@, l as int) is None,
        },
{
    if !(l == 0 || h[l - 1] == '\n') {
        return None;
    }
    let w = skip_spaces(h, l);
    if w - l < 4 {
        return None;
    }
    match perm_name_end_at(h, w) {
        Some(e) => Some((w, e)),
        None => None,
    }
}

/// The names of [`perm_names`] from `0`.
fn perm_names_in(h: &[char]) -> (r: Vec<String>)
    requires
        h@.len() == h.len(),
    ensures
        r.deep_view() == perm_names(h@, 0),
{
    let mut out: Vec<String> = Vec::new();
    let mut p: usize = 0;
    let mut l: usize = 0;
    let ghost all = perm_names(h@, 0);
    loop
        invariant
            p <= l <= h@.len(),
            h@.len() == h.len(),
            all == perm_names(h@, 0),
            out.deep_view() + perm_names(h@, p as int) == all,
            first_perm_line(h@, l as int) == first_perm_line(h@, p as int),
        decreases h@.len() + 1 - l,
    {
        match perm_line_at(h, l) {
            Some(m) => {
                let ghost prev = out.deep_view();
                let name = crate::text::string_from(h, m.0, m.1);
                out = crate::command::push_str(out, name);
                proof {
                    assert(perm_names(h@, p as int) == seq![h@.subrange(m.0 as int, m.1 as int)] + perm_names(
                        h@,
                        m.1 as int,
                    ));
                    assert(out.deep_view() + perm_names(h@, m.1 as int) =~= prev + perm_names(h@, p as int));
                }
                p = m.1;
                l = m.1;
            },
            None => {
                if l == h.len() {
                    assert(first_perm_line(h@, (l + 1) as int) == -1);
                    assert(first_perm_line(h@, l as int) == -1);
                    assert(perm_names(h@, p as int) == Seq::<Seq<char>>::empty());
                    assert(out.deep_view() =~= all);
                    return out;
                }
                l = l + 1;
            },
        }
    }
}

fn find_requested(s: &[char], header: &[char]) -> (r: Option<usize>)
    requires
        s@.len() == s.len(),
        header@ == "requested permissions:\n"@,
    ensures
        match r {
            Some(k) => first_requested(s@, 0) == k as int && k + 23 <= s@.len() && requested_at(s@, k as int),
            None => first_requested(s@, 0) == -1,
        },
{
    proof {
        reveal_strlit("requested permissions:\n");
    }
    let mut k: usize = 0;
    loop
        invariant
            k <= s@.len(),
            s@.len() == s.len(),
            header@ == "requested permissions:\n"@,
            header@.len() == 23,
            first_requested(s@, k as int) == first_requested(s@, 0),
        decreases s@.len() - k,
    {
        if indented(s, header, k, 3) {
            if perm_item_at(s, k + 23).is_some() {
                return Some(k);
            }
        }
        if k == s.len() {
            assert(first_requested(s@, (k + 1) as int) == -1);
            return None;
        }
        k = k + 1;
    }
}

impl SimplePackageReader {
    /// The permissions that the package requests; see
    /// [`requested_permissions_of`].
    pub fn requested_permissions(&self) -> (r: Option<Vec<String>>)
        ensures
            match requested_permissions_of(self.data@) {
                Some(ns) => r matches Some(v) && v.deep_view() == ns,
                None => r is None,
            },
    {
        let s = self.data.as_slice();
        assert(s@.len() == s.len());
        let header = chars_of("requested permissions:\n");
        match find_requested(s, header.as_slice()) {
            None => None,
            Some(k) => {
                let i = match indent_of(s, k) {
                    Some(i) => i,
                    None => {
                        return None;
                    },
                };
                let e = perm_items_end_at(s, k + 23);
                if !(i <= e) {
                    return None;
                }
                let h = copy_chars(s, i, e);
                Some(perm_names_in(h.as_slice()))
            },
        }
    }
}

} // verus!

verus! {

/// Whether `granted=` stands at `g` and is followed by `true` or `false` and
/// a line end; the value and where the line end is (`granted=(true|false)$`).
pub open spec fn granted_at(h: Seq<char>, g: int) -> Option<(bool, int)> {
    if occurs_at(h, "granted=true"@, g) && (g + 12 == h.len() || (0 <= g + 12 < h.len() && h[g + 12] == '\n')) {
        Some((true, g + 12))
    } else if occurs_at(h, "granted=false"@, g) && (g + 13 == h.len() || (0 <= g + 13 < h.len() && h[g + 13]
        == '\n')) {
        Some((false, g + 13))
    } else {
        None
    }
}

/// One item of the install-permission list at `x`: at least four
/// characters of white space, a name up to the first `:`, white space and
/// `granted=true` or `granted=false` closing its line, and the `\n` after
/// it; where the item ends, or -1.
pub open spec fn install_item(s: Seq<char>, x: int) -> int {
    let c = next_index(s, ':', x);
    let g = ws_end(s, c + 1);
    if ws_end(s, x) - x >= 4 && c - x >= 5 && c < s.len() && g > c + 1 {
        match granted_at(s, g) {
            Some(m) => if m.1 < s.len() {
                m.1 + 1
            } else {
                -1
            },
            None => -1,
        }
    } else {
        -1
    }
}

/// Where the install items that follow one another from `x` end.
pub open spec fn install_items_end(s: Seq<char>, x: int) -> int
    decreases s.len() - x,
{
    let e = install_item(s, x);
    if x < e <= s.len() {
        install_items_end(s, e)
    } else {
        x
    }
}

/// Whether the list `install permissions:` with at least one item stands
/// at `k`, indented by at least three.
pub open spec fn install_at(s: Seq<char>, k: int) -> bool {
    indented_at(s, "install permissions:\n"@, k, 3) && install_item(s, k + 21) > k + 21
}

/// The first position at or after `k` where [`install_at`] holds, or -1.
pub open spec fn first_install(s: Seq<char>, k: int) -> int
    decreases s.len() + 1 - k,
{
    if k < 0 || k > s.len() {
        -1
    } else if install_at(s, k) {
        k
    } else {
        first_install(s, k + 1)
    }
}

/// A line `<name>: granted=<true|false>` indented by at least four
/// (`(?m)^\s{4,}(?P<name>[^\:]+):\s+granted=(?P<granted>true|false)$`): the
/// bounds of the name, whether granted, and where the match ends. The name
/// starts after the white space, or at its last character when only white
/// space stands before the `:`.
pub open spec fn install_line(h: Seq<char>, l: int) -> Option<(int, int, bool, int)> {
    let w = ws_end(h, l);
    let c = next_index(h, ':', l);
    let g = ws_end(h, c + 1);
    if line_start(h, l) && w - l >= 4 && c - l >= 5 && c < h.len() && g > c + 1 {
        match granted_at(h, g) {
            Some(m) => Some((if w < c { w } else { c - 1 }, c, m.0, m.1)),
            None => None,
        }
    } else {
        None
    }
}

/// The first position at or after `p` where [`install_line`] matches, or -1.
pub open spec fn first_install_line(h: Seq<char>, p: int) -> int
    decreases h.len() + 1 - p,
{
    if p < 0 || p > h.len() {
        -1
    } else if install_line(h, p) is Some {
        p
    } else {
        first_install_line(h, p + 1)
    }
}

/// The (name, granted) pairs that the successive matches of
/// [`install_line`] from `p` capture.
pub open spec fn install_entries(h: Seq<char>, p: int) -> Seq<(Seq<char>, bool)>
    decreases h.len() - p,
{
    let l = first_install_line(h, p);
    if l < 0 {
        seq![]
    } else {
        let m = install_line(h, l)->0;
        if p < m.3 <= h.len() && 0 <= m.0 <= m.1 {
            seq![(h.subrange(m.0, m.1), m.2)] + install_entries(h, m.3)
        } else {
            seq![]
        }
    }
}

/// The install permissions of a package section: the text from the first
/// line `install permissions:` through its items, and in it the entries of
/// the lines that match [`install_line`]; none without such a list.
pub open spec fn install_permissions_of(s: Seq<char>) -> Option<Seq<(Seq<char>, bool)>> {
    let k = first_install(s, 0);
    if k < 0 {
        None
    } else {
        Some(install_entries(s.subrange(indent_start(s, k), install_items_end(s, k + 21)), 0))
    }
}

fn granted_at_pos(h: &[char], g: usize) -> (r: Option<(bool, usize)>)
    requires
        g <= h@.len(),
        h@.len() == h.len(),
    ensures
        match r {
            Some(m) => granted_at(h@, g as int) == Some((m.0, m.1 as int)) && g < m.1 <= h@.len(),
            None => granted_at(h@, g as int) is None,
        },
{
    let t = chars_of("granted=true");
    let f = chars_of("granted=false");
    proof {
        reveal_strlit("granted=true");
        reveal_strlit("granted=false");
    }
    if matches_at(h, t.as_slice(), g) {
        assert(g + 12 <= h@.len());
        let e = g + 12;
        if e == h.len() || h[e] == '\n' {
            return Some((true, e));
        }
    }
    if matches_at(h, f.as_slice(), g) {
        assert(g + 13 <= h@.len());
        let e = g + 13;
        if e == h.len() || h[e] == '\n' {
            return Some((false, e));
        }
    }
    None
}

fn install_item_at(s: &[char], x: usize) -> (r: Option<usize>)
    requires
        x <= s@.len(),
        s@.len() == s.len(),
    ensures
        match r {
            Some(e) => install_item(s@, x as int) == e as int && x < e <= s@.len(),
            None => install_item(s@, x as int) == -1,
        },
{
    let w = skip_spaces(s, x);
    let c = next_index_of(s, ':', x);
    if !(w - x >= 4 && c - x >= 5 && c < s.len()) {
        return None;
    }
    let g = skip_spaces(s, c + 1);
    if !(g > c + 1) {
        return None;
    }
    match granted_at_pos(s, g) {
        Some(m) => if m.1 < s.len() {
            Some(m.1 + 1)
        } else {
            None
        },
        None => None,
    }
}

fn install_items_end_at(s: &[char], x: usize) -> (r: usize)
    requires
        x <= s@.len(),
        s@.len() == s.len(),
    ensures
        r == install_items_end(s@, x as int),
        x <= r <= s@.len(),
{
    let mut p = x;
    loop
        invariant
            x <= p <= s@.len(),
            s@.len() == s.len(),
            install_items_end(s@, p as int) == install_items_end(s@, x as int),
        decreases s@.len() - p,
    {
        match install_item_at(s, p) {
            Some(e) => {
                p = e;
            },
            None => {
                return p;
            },
        }
    }
}

fn install_line_at(h: &[char], l: usize) -> (r: Option<(usize, usize, bool, usize)>)
    requires
        l <= h@.len(),
        h@.len() == h.len(),
    ensures
        match r {
            Some(m) => install_line(h@, l as int) == Some((m.0 as int, m.1 as int, m.2, m.3 as int)) && l
                <= m.0 <= m.1 < m.3 <= h@.len(),
            None => install_line(h@, l as int) is None,
        },
{
    if !(l == 0 || h[l - 1] == '\n') {
        return None;
    }
    let w = skip_spaces(h, l);
    let c = next_index_of(h, ':', l);
    if !(w - l >= 4 && c - l >= 5 && c < h.len()) {
        return None;
    }
    let g = skip_spaces(h, c + 1);
    if !(g > c + 1) {
        return None;
    }
    match granted_at_pos(h, g) {
        Some(m) => {
            let ns = if w < c {
                w
            } else {
                c - 1
            };
            Some((ns, c, m.0, m.1))
        },
        None => None,
    }
}

fn install_entries_in(h: &[char]) -> (r: Vec<InstallPermission>)
    requires
        h@.len() == h.len(),
    ensures
        r@.len() == install_entries(h@, 0).len(),
        forall|i: int|
            0 <= i < r@.len() ==> (#[trigger] r@[i]).name@ == install_entries(h@, 0)[i].0 && r@[i].granted
                == install_entries(h@, 0)[i].1,
{
    let mut out: Vec<InstallPermission> = Vec::new();
    let mut p: usize = 0;
    let mut l: usize = 0;
    let ghost all = install_entries(h@, 0);
    loop
        invariant
            p <= l <= h@.len(),
            h@.len() == h.len(),
            all == install_entries(h@, 0),
            out@.len() + install_entries(h@, p as int).len() == all.len(),
            forall|i: int|
                0 <= i < out@.len() ==> (#[trigger] out@[i]).name@ == all[i].0 && out@[i].granted == all[i].1,
            forall|i: int|
                0 <= i < install_entries(h@, p as int).len() ==> #[trigger] install_entries(h@, p as int)[i]
                    == all[out@.len() + i],
            first_install_line(h@, l as int) == first_install_line(h@, p as int),
        decreases h@.len() + 1 - l,
    {
        match install_line_at(h, l) {
            Some(m) => {
                let ghost rest = install_entries(h@, m.3 as int);
                proof {
                    assert(install_entries(h@, p as int) == seq![
                        (h@.subrange(m.0 as int, m.1 as int), m.2),
                    ] + rest);
                    assert(install_entries(h@, p as int)[0] == all[out@.len() as int]);
                }
                let name = crate::text::string_from(h, m.0, m.1);
                let ghost n0 = out@.len();
                out.push(InstallPermission { name, granted: m.2 });
                proof {
                    assert forall|i: int| 0 <= i < rest.len() implies #[trigger] rest[i] == all[out@.len() + i] by {
                        assert(install_entries(h@, p as int)[i + 1] == rest[i]);
                    }
                }
                p = m.3;
                l = m.3;
            },
            None => {
                if l == h.len() {
                    assert(first_install_line(h@, (l + 1) as int) == -1);
                    assert(first_install_line(h@, l as int) == -1);
                    assert(install_entries(h@, p as int).len() == 0);
                    return out;
                }
                l = l + 1;
            },
        }
    }
}

fn find_install(s: &[char], header: &[char]) -> (r: Option<usize>)
    requires
        s@.len() == s.len(),
        header@ == "install permissions:\n"@,
    ensures
        match r {
            Some(k) => first_install(s@, 0) == k as int && k + 21 <= s@.len() && install_at(s@, k as int),
            None => first_install(s@, 0) == -1,
        },
{
    proof {
        reveal_strlit("install permissions:\n");
    }
    let mut k: usize = 0;
    loop
        invariant
            k <= s@.len(),
            s@.len() == s.len(),
            header@ == "install permissions:\n"@,
            header@.len() == 21,
            first_install(s@, k as int) == first_install(s@, 0),
        decreases s@.len() - k,
    {
        if indented(s, header, k, 3) {
            if install_item_at(s, k + 21).is_some() {
                return Some(k);
            }
        }
        if k == s.len() {
            assert(first_install(s@, (k + 1) as int) == -1);
            return None;
        }
        k = k + 1;
    }
}

impl SimplePackageReader {
    /// The install permissions of the package; see
    /// [`install_permissions_of`].
    pub fn install_permissions(&self) -> (r: Option<Vec<InstallPermission>>)
        ensures
            match install_permissions_of(self.data@) {
                Some(es) => r matches Some(v) && v@.len() == es.len() && forall|i: int|
                    0 <= i < v@.len() ==> (#[trigger] v@[i]).name@ == es[i].0 && v@[i].granted == es[i].1,
                None => r is None,
            },
    {
        let s = self.data.as_slice();
        assert(s@.len() == s.len());
        let header = chars_of("install permissions:\n");
        match find_install(s, header.as_slice()) {
            None => None,
            Some(k) => {
                let i = match indent_of(s, k) {
                    Some(i) => i,
                    None => {
                        return None;
                    },
                };
                let e = install_items_end_at(s, k + 21);
                let h = copy_chars(s, i, e);
                Some(install_entries_in(h.as_slice()))
            },
        }
    }
}

} // verus!

verus! {

/// Whether a package name can be written into a pattern as it is: it holds
/// none of the characters that give a pattern its structure (`.` is kept:
/// there it stands for any character).
pub open spec fn plain_pattern(p: Seq<char>) -> bool {
    forall|i: int|
        0 <= i < p.len() ==> !(#[trigger] p[i] == '\\' || p[i] == '+' || p[i] == '*' || p[i] == '?' || p[i]
            == '(' || p[i] == ')' || p[i] == '|' || p[i] == '[' || p[i] == ']' || p[i] == '{' || p[i] == '}'
            || p[i] == '^' || p[i] == '$')
}

/// Whether a line is the dexopt heading of a package: white space, then the
/// name in brackets closing the line, where a `.` of the name matches any
/// character but a line end (`^\s+\[<name>\]$` for a plain name).
pub open spec fn dex_header(l: Seq<char>, name: Seq<char>) -> bool {
    let w = ws_end(l, 0);
    &&& w >= 1
    &&& l.len() == w + name.len() + 2
    &&& l[w] == '['
    &&& l[l.len() - 1] == ']'
    &&& forall|j: int|
        0 <= j < name.len() ==> (#[trigger] name[j] == '.' && l[w + 1 + j] != '\n') || l[w + 1 + j] == name[j]
}

/// The path of a line `path: <path>` indented by white space
/// (`^\s+path:\s*(?<path>[^\n]+)$`): what follows the white space after the
/// colon, or its last character when only white space follows.
pub open spec fn dex_path(l: Seq<char>) -> Option<Seq<char>> {
    let w = ws_end(l, 0);
    let b = ws_end(l, w + 5);
    if w >= 1 && occurs_at(l, "path:"@, w) && l.len() > w + 5 {
        Some(l.subrange(if b < l.len() { b } else { l.len() - 1 }, l.len() as int))
    } else {
        None
    }
}

/// The pattern of the dexopt heading of a package: `^\s+\[<name>\]$`, the
/// name written into it as it stands.
pub open spec fn header_text(name: Seq<char>) -> Seq<char> {
    "^\\s+\\["@ + name + "\\]$"@
}

/// The path that the dexopt lines from `i` give: before any heading of
/// the package (a line that the pattern [`header_text`] matches), none;
/// after one, the first path line that is not itself a heading.
pub open spec fn dex_path_from(ls: Seq<Seq<char>>, name: Seq<char>, i: int, in_section: bool) -> Option<
    Seq<char>,
>
    decreases ls.len() - i,
{
    if i < 0 || i >= ls.len() {
        None
    } else if pattern_match(header_text(name), ls[i]) {
        dex_path_from(ls, name, i + 1, true)
    } else if in_section && dex_path(ls[i]) is Some {
        dex_path(ls[i])
    } else {
        dex_path_from(ls, name, i + 1, in_section)
    }
}

/// [`dex_path_from`] for a plain name, with the headings found by
/// [`dex_header`].
pub open spec fn dex_path_plain(ls: Seq<Seq<char>>, name: Seq<char>, i: int, in_section: bool) -> Option<
    Seq<char>,
>
    decreases ls.len() - i,
{
    if i < 0 || i >= ls.len() {
        None
    } else if dex_header(ls[i], name) {
        dex_path_plain(ls, name, i + 1, true)
    } else if in_section && dex_path(ls[i]) is Some {
        dex_path(ls[i])
    } else {
        dex_path_plain(ls, name, i + 1, in_section)
    }
}

/// Whether a text compiles as a pattern of the `regex` crate.
pub uninterp spec fn pattern_compiles(pattern: Seq<char>) -> bool;

/// Whether a compiled pattern of the `regex` crate matches a text.
pub uninterp spec fn pattern_match(pattern: Seq<char>, text: Seq<char>) -> bool;

/// `regex::Regex::new`: whether the pattern compiles. When it does is left
/// to the name [`pattern_compiles`]: besides syntax errors the crate
/// refuses patterns over its size limit.
#[verifier::external_body]
fn regex_compiles(pattern: &str) -> (b: bool)
    ensures
        b == pattern_compiles(pattern@),
{
    regex::Regex::new(pattern).is_ok()
}

/// `regex::Regex::is_match` of a compiled pattern on a text. For the
/// heading pattern of a plain name the crate's documented syntax makes the
/// match [`dex_header`]: `\s` is Unicode `White_Space`, `^` and `$` are the
/// ends of the text, `.` is any character but `\n`, and the other
/// characters of a plain name stand for themselves.
#[verifier::external_body]
fn regex_is_match(pattern: &str, text: &str) -> (b: bool)
    requires
        pattern_compiles(pattern@),
    ensures
        b == pattern_match(pattern@, text@),
        forall|name: Seq<char>|
            #![trigger header_text(name)]
            pattern@ == header_text(name) && plain_pattern(name) ==> b == dex_header(text@, name),
{
    regex::Regex::new(pattern).map(|re| re.is_match(text)).unwrap_or(false)
}

/// The pattern of the dexopt heading of a package, [`header_text`].
pub fn header_pattern(name: &str) -> (p: String)
    ensures
        p@ == header_text(name@),
{
    let mut p = "^\\s+\\[".to_owned();
    p.append(name);
    p.append("\\]$");
    p
}

/// Whether a package name makes a heading pattern that compiles.
pub fn is_package_pattern(package_name: &str) -> (b: bool)
    ensures
        b == pattern_compiles(header_text(package_name@)),
{
    let p = header_pattern(package_name);
    regex_compiles(p.as_str())
}

fn dex_path_of(l: &[char]) -> (r: Option<String>)
    requires
        l@.len() == l.len(),
    ensures
        match dex_path(l@) {
            Some(p) => r matches Some(s) && s@ == p,
            None => r is None,
        },
{
    let key = chars_of("path:");
    proof {
        reveal_strlit("path:");
    }
    let w = skip_spaces(l, 0);
    if !(w >= 1 && matches_at(l, key.as_slice(), w)) {
        return None;
    }
    if !(l.len() - w > 5) {
        return None;
    }
    let b = skip_spaces(l, w + 5);
    let a = if b < l.len() {
        b
    } else {
        l.len() - 1
    };
    Some(crate::text::string_from(l, a, l.len()))
}

impl DexoptState {
    /// The path that the dexopt section gives for a package: see
    /// [`dex_path_from`] over the section's lines, and [`dex_path_plain`]
    /// for a plain name.
    pub fn get_package_path(&self, package_name: &str) -> (r: Option<String>)
        requires
            pattern_compiles(header_text(package_name@)),
        ensures
            match dex_path_from(crate::text::lines(self.data@), package_name@, 0, false) {
                Some(p) => r matches Some(s) && s@ == p,
                None => r is None,
            },
            plain_pattern(package_name@) ==> match dex_path_plain(crate::text::lines(self.data@), package_name@, 0, false) {
                Some(p) => r matches Some(s) && s@ == p,
                None => r is None,
            },
    {
        let ghost name = package_name@;
        let pattern = header_pattern(package_name);
        let ls = crate::text::split_text_lines(self.data.as_slice());
        let ghost all = ls.deep_view();
        let mut in_section = false;
        let mut i: usize = 0;
        while i < ls.len()
            invariant
                i <= ls@.len(),
                all == ls.deep_view(),
                all == crate::text::lines(self.data@),
                name == package_name@,
                pattern@ == header_text(name),
                pattern_compiles(pattern@),
                dex_path_from(all, name, i as int, in_section) == dex_path_from(all, name, 0, false),
                plain_pattern(name) ==> dex_path_plain(all, name, i as int, in_section) == dex_path_plain(all, name, 0, false),
            decreases ls@.len() - i,
        {
            let line = ls[i].as_slice();
            assert(line@ == all[i as int]);
            let text = crate::outside::string_of(line);
            if regex_is_match(pattern.as_str(), text.as_str()) {
                in_section = true;
            } else if in_section {
                match dex_path_of(line) {
                    Some(p) => {
                        return Some(p);
                    },
                    None => {},
                }
            }
            i = i + 1;
        }
        None
    }
}

/// The path of an installed package, from a dump: the dexopt path of the
/// package when the dump has a package section; none otherwise, and none
/// for a name that makes no valid pattern.
pub fn is_installed(data: &str, package_name: &str) -> (r: Option<String>)
    ensures
        !pattern_compiles(header_text(package_name@)) ==> r is None,
        pattern_compiles(header_text(package_name@)) ==> match section_after(data@, "Packages:\n"@) {
            Some(_) => match dex_path_from(
                crate::text::lines(
                    match section_after(data@, "Dexopt state:\n"@) {
                        Some(d) => d,
                        None => Seq::<char>::empty(),
                    },
                ),
                package_name@,
                0,
                false,
            ) {
                Some(p) => r matches Some(s) && s@ == p,
                None => r is None,
            },
            None => r is None,
        },
        pattern_compiles(header_text(package_name@)) && plain_pattern(package_name@) ==> match section_after(
            data@,
            "Packages:\n"@,
        ) {
            Some(_) => match dex_path_plain(
                crate::text::lines(
                    match section_after(data@, "Dexopt state:\n"@) {
                        Some(d) => d,
                        None => Seq::<char>::empty(),
                    },
                ),
                package_name@,
                0,
                false,
            ) {
                Some(p) => r matches Some(s) && s@ == p,
                None => r is None,
            },
            None => r is None,
        },
{
    if !is_package_pattern(package_name) {
        return None;
    }
    match SimplePackageReader::new(data) {
        Ok(reader) => reader.dexopt.get_package_path(package_name),
        Err(_) => None,
    }
}

} // verus!

verus! {

/// Whether `granted=false,` or `granted=true,` stands at `g`: the value and
/// where the comma ends.
pub open spec fn granted_comma_at(h: Seq<char>, g: int) -> Option<(bool, int)> {
    if occurs_at(h, "granted=false,"@, g) {
        Some((false, g + 14))
    } else if occurs_at(h, "granted=true,"@, g) {
        Some((true, g + 13))
    } else {
        None
    }
}

/// One runtime permission line at `l`, as the pattern
/// `^\s*([^:]+):\s+granted=(false|true),\s+flags=\[\s*([^\]]+)\]$` matches it
/// there: the bounds of the name, whether granted, the bounds of the flags
/// and where the match ends. A group that the white space before it would
/// swallow whole keeps the last white-space character; the name and the
/// flags may run over line ends.
pub open spec fn runtime_line(h: Seq<char>, l: int) -> Option<(int, int, bool, int, int, int)> {
    let w = ws_end(h, l);
    let c = next_index(h, ':', l);
    let g = ws_end(h, c + 1);
    if line_start(h, l) && l < c && c < h.len() && g > c + 1 {
        match granted_comma_at(h, g) {
            Some(m) => {
                let f = ws_end(h, m.1);
                let f0 = f + 7;
                let w3 = ws_end(h, f0);
                let r = next_index(h, ']', f0);
                if f > m.1 && occurs_at(h, "flags=["@, f) && f0 < r && r < h.len() && (r + 1 == h.len() || h[r
                    + 1] == '\n') {
                    Some((if w < c { w } else { c - 1 }, c, m.0, if w3 < r { w3 } else { r - 1 }, r, r + 1))
                } else {
                    None
                }
            },
            None => None,
        }
    } else {
        None
    }
}

/// The first position at or after `p` where [`runtime_line`] matches, or -1.
pub open spec fn first_runtime_line(h: Seq<char>, p: int) -> int
    decreases h.len() + 1 - p,
{
    if p < 0 || p > h.len() {
        -1
    } else if runtime_line(h, p) is Some {
        p
    } else {
        first_runtime_line(h, p + 1)
    }
}

/// The (name, granted, flags) of the successive matches of
/// [`runtime_line`] from `p`; the flags are split at each `|`.
pub open spec fn runtime_entries(h: Seq<char>, p: int) -> Seq<(Seq<char>, bool, Seq<Seq<char>>)>
    decreases h.len() - p,
{
    let l = first_runtime_line(h, p);
    if l < 0 {
        seq![]
    } else {
        let m = runtime_line(h, l)->0;
        if p < m.5 <= h.len() && 0 <= m.0 <= m.1 && 0 <= m.3 <= m.4 {
            seq![(h.subrange(m.0, m.1), m.2, split_on(h.subrange(m.3, m.4), '|'))] + runtime_entries(h, m.5)
        } else {
            seq![]
        }
    }
}

/// Whether the heading `runtime permissions:`, indented by at least three
/// and followed by white space, stands at `k`.
pub open spec fn runtime_at(s: Seq<char>, k: int) -> bool {
    indented_at(s, "runtime permissions:"@, k, 3) && ws_end(s, k + 20) > k + 20
}

/// The first position at or after `k` where [`runtime_at`] holds, or -1.
pub open spec fn first_runtime(s: Seq<char>, k: int) -> int
    decreases s.len() + 1 - k,
{
    if k < 0 || k > s.len() {
        -1
    } else if runtime_at(s, k) {
        k
    } else {
        first_runtime(s, k + 1)
    }
}

/// The runtime permissions of a dump: none without a heading (see
/// [`runtime_at`]); after the first heading and the white space that
/// follows it, the text up to the first empty line, and in it the entries
/// of [`runtime_entries`]; no entries when no empty line follows.
pub open spec fn runtime_permissions_of(s: Seq<char>) -> Option<Seq<(Seq<char>, bool, Seq<Seq<char>>)>> {
    let k = first_runtime(s, 0);
    if k < 0 {
        None
    } else {
        let o = s.subrange(ws_end(s, k + 20), s.len() as int);
        let q = first_empty_line(o, 0);
        if q < 0 {
            Some(seq![])
        } else {
            Some(runtime_entries(o.subrange(0, q), 0))
        }
    }
}

/// The value a runtime permission stands for.
pub open spec fn runtime_view(p: RuntimePermission) -> (Seq<char>, bool, Seq<Seq<char>>) {
    (p.name@, p.granted, p.flags.deep_view())
}

fn granted_comma_pos(h: &[char], g: usize) -> (r: Option<(bool, usize)>)
    requires
        g <= h@.len(),
        h@.len() == h.len(),
    ensures
        match r {
            Some(m) => granted_comma_at(h@, g as int) == Some((m.0, m.1 as int)) && g < m.1 <= h@.len(),
            None => granted_comma_at(h@, g as int) is None,
        },
{
    let f = chars_of("granted=false,");
    let t = chars_of("granted=true,");
    proof {
        reveal_strlit("granted=false,");
        reveal_strlit("granted=true,");
    }
    if matches_at(h, f.as_slice(), g) {
        return Some((false, g + 14));
    }
    if matches_at(h, t.as_slice(), g) {
        return Some((true, g + 13));
    }
    None
}

fn runtime_line_at(h: &[char], l: usize) -> (r: Option<(usize, usize, bool, usize, usize, usize)>)
    requires
        l <= h@.len(),
        h@.len() == h.len(),
    ensures
        match r {
            Some(m) => runtime_line(h@, l as int) == Some(
                (m.0 as int, m.1 as int, m.2, m.3 as int, m.4 as int, m.5 as int),
            ) && l <= m.0 <= m.1 && m.3 <= m.4 < m.5 <= h@.len() && l < m.5,
            None => runtime_line(h@, l as int) is None,
        },
{
    if !(l == 0 || h[l - 1] == '\n') {
        return None;
    }
    let w = skip_spaces(h, l);
    let c = next_index_of(h, ':', l);
    if !(l < c && c < h.len()) {
        return None;
    }
    let g = skip_spaces(h, c + 1);
    if !(g > c + 1) {
        return None;
    }
    let m = match granted_comma_pos(h, g) {
        Some(m) => m,
        None => {
            return None;
        },
    };
    let f = skip_spaces(h, m.1);
    let key = chars_of("flags=[");
    proof {
        reveal_strlit("flags=[");
    }
    if !(f > m.1 && matches_at(h, key.as_slice(), f)) {
        return None;
    }
    let f0 = f + 7;
    let w3 = skip_spaces(h, f0);
    let r = next_index_of(h, ']', f0);
    if !(f0 < r && r < h.len() && (r + 1 == h.len() || h[r + 1] == '\n')) {
        return None;
    }
    let ns = if w < c {
        w
    } else {
        c - 1
    };
    let fs = if w3 < r {
        w3
    } else {
        r - 1
    };
    Some((ns, c, m.0, fs, r, r + 1))
}

fn runtime_entries_in(h: &[char]) -> (r: Vec<RuntimePermission>)
    requires
        h@.len() == h.len(),
    ensures
        r@.map_values(|p: RuntimePermission| runtime_view(p)) == runtime_entries(h@, 0),
{
    let mut out: Vec<RuntimePermission> = Vec::new();
    let mut p: usize = 0;
    let mut l: usize = 0;
    let ghost all = runtime_entries(h@, 0);
    loop
        invariant
            p <= l <= h@.len(),
            h@.len() == h.len(),
            all == runtime_entries(h@, 0),
            out@.map_values(|q: RuntimePermission| runtime_view(q)) + runtime_entries(h@, p as int) == all,
            first_runtime_line(h@, l as int) == first_runtime_line(h@, p as int),
        decreases h@.len() + 1 - l,
    {
        match runtime_line_at(h, l) {
            Some(m) => {
                let ghost rest = runtime_entries(h@, m.5 as int);
                let ghost e = (h@.subrange(m.0 as int, m.1 as int), m.2, split_on(
                    h@.subrange(m.3 as int, m.4 as int),
                    '|',
                ));
                proof {
                    assert(runtime_entries(h@, p as int) == seq![e] + rest);
                }
                let name = crate::text::string_from(h, m.0, m.1);
                let part = copy_chars(h, m.3, m.4);
                let flags = split_string(part.as_slice(), 0, '|');
                proof {
                    assert(part@.subrange(0, part@.len() as int) =~= part@);
                }
                let ghost before = out@.map_values(|q: RuntimePermission| runtime_view(q));
                out.push(RuntimePermission { name, granted: m.2, flags });
                proof {
                    assert(out@.map_values(|q: RuntimePermission| runtime_view(q)) =~= before.push(e));
                    assert(before.push(e) + rest =~= before + (seq![e] + rest));
                }
                p = m.5;
                l = m.5;
            },
            None => {
                if l == h.len() {
                    assert(first_runtime_line(h@, (l + 1) as int) == -1);
                    assert(first_runtime_line(h@, l as int) == -1);
                    assert(runtime_entries(h@, p as int) =~= Seq::<(Seq<char>, bool, Seq<Seq<char>>)>::empty());
                    assert(out@.map_values(|q: RuntimePermission| runtime_view(q)) =~= all);
                    return out;
                }
                l = l + 1;
            },
        }
    }
}

fn find_runtime(s: &[char]) -> (r: Option<usize>)
    requires
        s@.len() == s.len(),
    ensures
        match r {
            Some(k) => first_runtime(s@, 0) == k as int && k + 20 < s@.len() && runtime_at(s@, k as int),
            None => first_runtime(s@, 0) == -1,
        },
{
    let header = chars_of("runtime permissions:");
    proof {
        reveal_strlit("runtime permissions:");
    }
    let mut k: usize = 0;
    loop
        invariant
            k <= s@.len(),
            s@.len() == s.len(),
            header@ == "runtime permissions:"@,
            header@.len() == 20,
            first_runtime(s@, k as int) == first_runtime(s@, 0),
        decreases s@.len() - k,
    {
        if indented(s, header.as_slice(), k, 3) {
            if skip_spaces(s, k + 20) > k + 20 {
                return Some(k);
            }
        }
        if k == s.len() {
            assert(first_runtime(s@, (k + 1) as int) == -1);
            return None;
        }
        k = k + 1;
    }
}

/// The runtime permissions that a package dump lists; see
/// [`runtime_permissions_of`]. A dump without the heading is
/// `ParseInputError`.
pub fn runtime_permissions(data: &str) -> (r: Result<Vec<RuntimePermission>>)
    ensures
        match runtime_permissions_of(data@) {
            Some(es) => r matches Ok(v) && v@.map_values(|p: RuntimePermission| runtime_view(p)) == es,
            None => r == Err::<Vec<RuntimePermission>, AdbError>(AdbError::ParseInputError),
        },
{
    let cs = chars_of(data);
    let s = cs.as_slice();
    assert(s@.len() == s.len());
    match find_runtime(s) {
        None => Err(AdbError::ParseInputError),
        Some(k) => {
            let start = skip_spaces(s, k + 20);
            let o = copy_chars(s, start, s.len());
            let os = o.as_slice();
            assert(os@.len() == os.len());
            match find_empty_line(os, 0) {
                None => {
                    let v: Vec<RuntimePermission> = Vec::new();
                    assert(v@.map_values(|p: RuntimePermission| runtime_view(p)) =~= Seq::<
                        (Seq<char>, bool, Seq<Seq<char>>),
                    >::empty());
                    Ok(v)
                },
                Some(q) => {
                    let h = copy_chars(os, 0, q);
                    Ok(runtime_entries_in(h.as_slice()))
                },
            }
        },
    }
}

} // verus!

verus! {

/// The version code of the package section: the leading run of decimal
/// digits (`\d`) of the field `versionCode`, read as an `i32`; none when
/// the field is missing, starts with no digit or does not fit.
pub open spec fn version_code_of(s: Seq<char>) -> Option<i32> {
    match item_value(s, "versionCode"@) {
        Some(v) => {
            let d = crate::pm::decimal_end(v, 0);
            if d > 0 {
                match crate::text::parse_in_range(v.subrange(0, d), true, -0x8000_0000, 0x7fff_ffff) {
                    Some(n) => Some(n as i32),
                    None => None,
                }
            } else {
                None
            }
        },
        None => None,
    }
}

impl SimplePackageReader {
    /// The field `versionCode` as a number; see [`version_code_of`].
    pub fn get_version_code(&self) -> (r: Option<i32>)
        ensures
            r == version_code_of(self.data@),
    {
        match self.get_item("versionCode") {
            Ok(v) => {
                let cs = chars_of(v.as_str());
                let d = crate::pm::decimal_end_at(cs.as_slice(), 0);
                if d > 0 {
                    let digits = copy_chars(cs.as_slice(), 0, d);
                    match crate::text::parse_int(digits.as_slice(), true, -0x8000_0000, 0x7fff_ffff) {
                        Some(n) => Some(n as i32),
                        None => None,
                    }
                } else {
                    None
                }
            },
            Err(_) => None,
        }
    }
}

} // verus!
