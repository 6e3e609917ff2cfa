//! The `apkanalyzer` tool of the Android SDK: where it lies and what its
//! summary of an APK says.
use vstd::prelude::*;
use crate::text::{ws_end, utf8_text, trim, skip_spaces, string_from};
use crate::devices::nonws_end;
use crate::command::AdbCommand;
use crate::error::AdbError;
use crate::text::{all_utf8_lines, split_lines, parse_in_range, rustix_text, strict_lines, parse_int};

verus! {

/// The `apkanalyzer` tool at a path.
#[derive(Debug, Clone)]
pub struct ApkAnalyzer {
    pub path: String,
}

/// What `apkanalyzer apk summary` says of an APK.
#[derive(Debug, Clone)]
pub struct ApkSummary {
    pub package_name: String,
    pub version_code: String,
    pub version_name: String,
}

/// A path with a relative component added, as `PathBuf::join` adds it: a
/// `/` between them unless the path is empty or ends with one.
pub open spec fn path_join(p: Seq<char>, c: Seq<char>) -> Seq<char> {
    if p.len() > 0 && p.last() != '/' {
        p + "/"@ + c
    } else {
        p + c
    }
}

/// Where `apkanalyzer` lies under an SDK: `cmdline-tools/latest/bin/apkanalyzer`.
pub open spec fn apk_analyzer_path(home: Seq<char>) -> Seq<char> {
    path_join(path_join(path_join(path_join(home, "cmdline-tools"@), "latest"@), "bin"@), "apkanalyzer"@)
}

fn join(p: String, c: &str) -> (r: String)
    ensures
        r@ == path_join(p@, c@),
{
    let cs = crate::outside::chars_of(p.as_str());
    let mut r = p;
    if cs.len() > 0 && cs[cs.len() - 1] != '/' {
        r.append("/");
    }
    r.append(c);
    r
}

/// The path of `apkanalyzer` under the SDK that the lookup of the SDK
/// found; the lookup's error as it is. `exists` tells whether that path
/// exists; when it does not, the error is `apkanalyzer not found`.
pub fn apk_analyzer(android_home: Result<String, String>, exists: bool) -> (r: Result<String, String>)
    ensures
        match android_home {
            Err(e) => r == Err::<String, String>(e),
            Ok(h) => if exists {
                r matches Ok(p) && p@ == apk_analyzer_path(h@)
            } else {
                r matches Err(m) && m@ == "apkanalyzer not found"@
            },
        },
{
    match android_home {
        Err(e) => Err(e),
        Ok(h) => {
            if exists {
                Ok(join(join(join(join(h, "cmdline-tools"), "latest"), "bin"), "apkanalyzer"))
            } else {
                Err("apkanalyzer not found".to_owned())
            }
        },
    }
}

/// The SDK directory: `ANDROID_HOME` when it is set and exists; when it is
/// set but missing, the directory of the `adb` executable if that exists;
/// the error of the variable's lookup, or of the `adb` lookup, as it is;
/// `ANDROID_HOME not set or invalid` when neither directory exists.
/// `home_exists` and `dir_exists` tell whether the two directories exist.
pub fn android_home(
    env_home: Result<String, String>,
    home_exists: bool,
    adb_dir: Result<Option<String>, String>,
    dir_exists: bool,
) -> (r: Result<String, String>)
    ensures
        match env_home {
            Err(e) => r == Err::<String, String>(e),
            Ok(h) => if home_exists {
                r == Ok::<String, String>(h)
            } else {
                match adb_dir {
                    Err(e) => r == Err::<String, String>(e),
                    Ok(Some(d)) => if dir_exists {
                        r == Ok::<String, String>(d)
                    } else {
                        r matches Err(m) && m@ == "ANDROID_HOME not set or invalid"@
                    },
                    Ok(None) => r matches Err(m) && m@ == "ANDROID_HOME not set or invalid"@,
                }
            },
        },
{
    match env_home {
        Err(e) => Err(e),
        Ok(h) => {
            if home_exists {
                Ok(h)
            } else {
                match adb_dir {
                    Err(e) => Err(e),
                    Ok(Some(d)) => {
                        if dir_exists {
                            Ok(d)
                        } else {
                            Err("ANDROID_HOME not set or invalid".to_owned())
                        }
                    },
                    Ok(None) => Err("ANDROID_HOME not set or invalid".to_owned()),
                }
            }
        },
    }
}

/// The pieces that cutting a trimmed text at its first two runs of white
/// space gives (`Regex::splitn(text, 3)` with `[\s\t]+`).
pub open spec fn summary_pieces(t: Seq<char>) -> Seq<Seq<char>> {
    let a1 = nonws_end(t, 0);
    let b1 = ws_end(t, a1);
    let a2 = nonws_end(t, b1);
    let b2 = ws_end(t, a2);
    if a1 >= t.len() {
        seq![t]
    } else if a2 >= t.len() {
        seq![t.subrange(0, a1), t.subrange(b1, t.len() as int)]
    } else {
        seq![t.subrange(0, a1), t.subrange(b1, a2), t.subrange(b2, t.len() as int)]
    }
}

impl ApkAnalyzer {
    /// The analyzer that [`apk_analyzer`] found, or its error.
    pub fn new(found: Result<String, String>) -> (r: Result<ApkAnalyzer, String>)
        ensures
            match found {
                Ok(p) => r matches Ok(a) && a.path == p,
                Err(e) => r == Err::<ApkAnalyzer, String>(e),
            },
    {
        match found {
            Ok(path) => Ok(ApkAnalyzer { path }),
            Err(e) => Err(e),
        }
    }

    /// The analyzer at a path.
    pub fn from(path: &str) -> (a: ApkAnalyzer)
        ensures
            a.path@ == path@,
    {
        ApkAnalyzer { path: path.to_owned() }
    }

    /// The pieces of what `apkanalyzer apk summary` printed: the output
    /// read as UTF-8 (else `None`), trimmed, cut as [`summary_pieces`] says.
    pub fn summary_fields(&self, stdout: &Vec<u8>) -> (r: Option<Vec<String>>)
        ensures
            match utf8_text(stdout@) {
                Some(t) => r matches Some(v) && v.deep_view() == summary_pieces(trim(t)),
                None => r is None,
            },
    {
        let cs = match crate::text::cmd_text(stdout) {
            Some(v) => v,
            None => {
                return None;
            },
        };
        let tv = crate::text::trimmed(cs.as_slice(), 0, cs.len());
        proof {
            assert(cs@.subrange(0, cs@.len() as int) =~= cs@);
        }
        let t = tv.as_slice();
        let a1 = crate::devices::nonws_end_of(t, 0);
        let b1 = skip_spaces(t, a1);
        let a2 = crate::devices::nonws_end_of(t, b1);
        let b2 = skip_spaces(t, a2);
        let mut v: Vec<String> = Vec::new();
        if a1 >= t.len() {
            v.push(string_from(t, 0, t.len()));
            assert(t@.subrange(0, t@.len() as int) =~= t@);
        } else if a2 >= t.len() {
            v.push(string_from(t, 0, a1));
            v.push(string_from(t, b1, t.len()));
        } else {
            v.push(string_from(t, 0, a1));
            v.push(string_from(t, b1, a2));
            v.push(string_from(t, b2, t.len()));
        }
        assert(v.deep_view() =~= summary_pieces(trim(utf8_text(stdout@)->0)));
        Some(v)
    }

    /// The summary of an APK from the three pieces of its summary line:
    /// package name, version code, version name.
    pub fn summary(&self, fields: Vec<String>) -> (s: ApkSummary)
        requires
            fields@.len() == 3,
        ensures
            s.package_name == fields@[0],
            s.version_code == fields@[1],
            s.version_name == fields@[2],
    {
        ApkSummary {
            package_name: fields[0].clone(),
            version_code: fields[1].clone(),
            version_name: fields[2].clone(),
        }
    }
}

} // verus!

verus! {

/// The trimmed text of an output; not UTF-8 is the `Errno` `EINVAL`.
pub open spec fn trimmed_output(b: Seq<u8>) -> core::result::Result<Seq<char>, AdbError> {
    match utf8_text(b) {
        Some(t) => Ok(trim(t)),
        None => Err(AdbError::Errno(22)),
    }
}

/// The lines of an output, each UTF-8; a line that is not is
/// `InvalidData`.
pub open spec fn output_lines(b: Seq<u8>) -> core::result::Result<Seq<Seq<char>>, AdbError> {
    match all_utf8_lines(split_lines(b, 10u8, 13u8)) {
        Some(ls) => Ok(ls),
        None => Err(AdbError::InvalidData),
    }
}

/// A number that the trimmed output writes in decimal as an `i64`; not
/// UTF-8 is the `Errno` `EINVAL`, not such a number `ParseIntError`.
pub open spec fn sdk_output(b: Seq<u8>) -> core::result::Result<i64, AdbError> {
    match utf8_text(b) {
        Some(t) => match parse_in_range(trim(t), true, -0x8000_0000_0000_0000, 0x7fff_ffff_ffff_ffff) {
            Some(n) => Ok(n as i64),
            None => Err(AdbError::ParseIntError),
        },
        None => Err(AdbError::Errno(22)),
    }
}

fn trimmed_text(stdout: &Vec<u8>) -> (r: crate::error::Result<String>)
    ensures
        match trimmed_output(stdout@) {
            Ok(t) => r matches Ok(s) && s@ == t,
            Err(e) => r == Err::<String, AdbError>(e),
        },
{
    match rustix_text(stdout) {
        Ok(v) => Ok(crate::text::trim_string(v.as_slice())),
        Err(e) => Err(e),
    }
}

fn lines_text(stdout: &Vec<u8>) -> (r: crate::error::Result<Vec<String>>)
    ensures
        match output_lines(stdout@) {
            Ok(ls) => r matches Ok(v) && v.deep_view() == ls,
            Err(e) => r == Err::<Vec<String>, AdbError>(e),
        },
{
    match strict_lines(stdout.as_slice()) {
        Some(v) => Ok(v),
        None => Err(AdbError::InvalidData),
    }
}

fn sdk_number(stdout: &Vec<u8>) -> (r: crate::error::Result<i64>)
    ensures
        r == sdk_output(stdout@),
{
    let cs = match rustix_text(stdout) {
        Ok(v) => v,
        Err(e) => {
            return Err(e);
        },
    };
    let t = crate::text::trimmed(cs.as_slice(), 0, cs.len());
    proof {
        assert(cs@.subrange(0, cs@.len() as int) =~= cs@);
    }
    match parse_int(t.as_slice(), true, -0x8000_0000_0000_0000, 0x7fff_ffff_ffff_ffff) {
        Some(n) => Ok(n as i64),
        None => Err(AdbError::ParseIntError),
    }
}

/// The texts of literal words followed by one more.
pub open spec fn words_then(w: Seq<&str>, last: Seq<char>) -> Seq<Seq<char>> {
    crate::command::texts(w).push(last)
}

impl ApkAnalyzer {
    /// `apkanalyzer <args>`.
    pub fn command(&self, args: Vec<String>) -> (c: AdbCommand)
        ensures
            c@.program == self.path@,
            c@.args == args.deep_view(),
            c@.timeout_ms is None,
            !c@.spawn_only,
    {
        AdbCommand { program: self.path.clone(), args, timeout_ms: None, spawn_only: false }
    }

    fn tool_command(&self, words: &[&str], last: &str) -> (c: AdbCommand)
        ensures
            c@.program == self.path@,
            c@.args == words_then(words@, last@),
            c@.timeout_ms is None,
            !c@.spawn_only,
    {
        let v = crate::command::push_str(crate::command::strings(words), last.to_owned());
        self.command(v)
    }

    /// `apkanalyzer manifest version-name <apk>`.
    pub fn version_name_command(&self, apk_path: &str) -> (c: AdbCommand)
        ensures
            c@.program == self.path@ && c@.args == seq!["manifest"@, "version-name"@, apk_path@],
    {
        let c = self.tool_command(&["manifest", "version-name"], apk_path);
        assert(c@.args =~= seq!["manifest"@, "version-name"@, apk_path@]);
        c
    }

    /// The version name, the output trimmed; see [`trimmed_output`].
    pub fn version_name(&self, stdout: &Vec<u8>) -> (r: crate::error::Result<String>)
        ensures
            match trimmed_output(stdout@) {
                Ok(t) => r matches Ok(s) && s@ == t,
                Err(e) => r == Err::<String, AdbError>(e),
            },
    {
        trimmed_text(stdout)
    }

    /// `apkanalyzer manifest version-code <apk>`.
    pub fn version_code_command(&self, apk_path: &str) -> (c: AdbCommand)
        ensures
            c@.program == self.path@ && c@.args == seq!["manifest"@, "version-code"@, apk_path@],
    {
        let c = self.tool_command(&["manifest", "version-code"], apk_path);
        assert(c@.args =~= seq!["manifest"@, "version-code"@, apk_path@]);
        c
    }

    /// The version code as text, the output trimmed; see [`trimmed_output`].
    pub fn version_code(&self, stdout: &Vec<u8>) -> (r: crate::error::Result<String>)
        ensures
            match trimmed_output(stdout@) {
                Ok(t) => r matches Ok(s) && s@ == t,
                Err(e) => r == Err::<String, AdbError>(e),
            },
    {
        trimmed_text(stdout)
    }

    /// `apkanalyzer manifest application-id <apk>`.
    pub fn application_id_command(&self, apk_path: &str) -> (c: AdbCommand)
        ensures
            c@.program == self.path@ && c@.args == seq!["manifest"@, "application-id"@, apk_path@],
    {
        let c = self.tool_command(&["manifest", "application-id"], apk_path);
        assert(c@.args =~= seq!["manifest"@, "application-id"@, apk_path@]);
        c
    }

    /// The application id, the output trimmed; see [`trimmed_output`].
    pub fn application_id(&self, stdout: &Vec<u8>) -> (r: crate::error::Result<String>)
        ensures
            match trimmed_output(stdout@) {
                Ok(t) => r matches Ok(s) && s@ == t,
                Err(e) => r == Err::<String, AdbError>(e),
            },
    {
        trimmed_text(stdout)
    }

    /// `apkanalyzer manifest min-sdk <apk>`.
    pub fn min_sdk_command(&self, apk_path: &str) -> (c: AdbCommand)
        ensures
            c@.program == self.path@ && c@.args == seq!["manifest"@, "min-sdk"@, apk_path@],
    {
        let c = self.tool_command(&["manifest", "min-sdk"], apk_path);
        assert(c@.args =~= seq!["manifest"@, "min-sdk"@, apk_path@]);
        c
    }

    /// The minimum SDK level; see [`sdk_output`].
    pub fn min_sdk(&self, stdout: &Vec<u8>) -> (r: crate::error::Result<i64>)
        ensures
            r == sdk_output(stdout@),
    {
        sdk_number(stdout)
    }

    /// `apkanalyzer manifest target-sdk <apk>`.
    pub fn target_sdk_command(&self, apk_path: &str) -> (c: AdbCommand)
        ensures
            c@.program == self.path@ && c@.args == seq!["manifest"@, "target-sdk"@, apk_path@],
    {
        let c = self.tool_command(&["manifest", "target-sdk"], apk_path);
        assert(c@.args =~= seq!["manifest"@, "target-sdk"@, apk_path@]);
        c
    }

    /// The target SDK level; see [`sdk_output`].
    pub fn target_sdk(&self, stdout: &Vec<u8>) -> (r: crate::error::Result<i64>)
        ensures
            r == sdk_output(stdout@),
    {
        sdk_number(stdout)
    }

    /// `apkanalyzer manifest print <apk>`.
    pub fn manifest_code_command(&self, apk_path: &str) -> (c: AdbCommand)
        ensures
            c@.program == self.path@ && c@.args == seq!["manifest"@, "print"@, apk_path@],
    {
        let c = self.tool_command(&["manifest", "print"], apk_path);
        assert(c@.args =~= seq!["manifest"@, "print"@, apk_path@]);
        c
    }

    /// The manifest, the output trimmed; see [`trimmed_output`].
    pub fn manifest_code(&self, stdout: &Vec<u8>) -> (r: crate::error::Result<String>)
        ensures
            match trimmed_output(stdout@) {
                Ok(t) => r matches Ok(s) && s@ == t,
                Err(e) => r == Err::<String, AdbError>(e),
            },
    {
        trimmed_text(stdout)
    }

    /// `apkanalyzer manifest debuggable <apk>`.
    pub fn debuggable_command(&self, apk_path: &str) -> (c: AdbCommand)
        ensures
            c@.program == self.path@ && c@.args == seq!["manifest"@, "debuggable"@, apk_path@],
    {
        let c = self.tool_command(&["manifest", "debuggable"], apk_path);
        assert(c@.args =~= seq!["manifest"@, "debuggable"@, apk_path@]);
        c
    }

    /// Whether the trimmed output reads `true`; see [`trimmed_output`].
    pub fn debuggable(&self, stdout: &Vec<u8>) -> (r: crate::error::Result<bool>)
        ensures
            match trimmed_output(stdout@) {
                Ok(t) => r == Ok::<bool, AdbError>(t == "true"@),
                Err(e) => r == Err::<bool, AdbError>(e),
            },
    {
        match trimmed_text(stdout) {
            Ok(s) => {
                let t = crate::outside::chars_of(s.as_str());
                let tr = crate::outside::chars_of("true");
                proof {
                    reveal_strlit("true");
                }
                let b = t.len() == 4 && crate::text::matches_at(t.as_slice(), tr.as_slice(), 0);
                proof {
                    if b {
                        assert(t@ =~= t@.subrange(0, 4));
                    }
                    if t@ == "true"@ {
                        assert(t@.subrange(0, 4) =~= t@);
                    }
                }
                Ok(b)
            },
            Err(e) => Err(e),
        }
    }

    /// `apkanalyzer manifest permissions <apk>`.
    pub fn manifest_permissions_command(&self, apk_path: &str) -> (c: AdbCommand)
        ensures
            c@.program == self.path@ && c@.args == seq!["manifest"@, "permissions"@, apk_path@],
    {
        let c = self.tool_command(&["manifest", "permissions"], apk_path);
        assert(c@.args =~= seq!["manifest"@, "permissions"@, apk_path@]);
        c
    }

    /// The permissions, one per line; see [`output_lines`].
    pub fn manifest_permissions(&self, stdout: &Vec<u8>) -> (r: crate::error::Result<Vec<String>>)
        ensures
            match output_lines(stdout@) {
                Ok(ls) => r matches Ok(v) && v.deep_view() == ls,
                Err(e) => r == Err::<Vec<String>, AdbError>(e),
            },
    {
        lines_text(stdout)
    }

    /// `apkanalyzer files list <apk>`.
    pub fn files_list_command(&self, apk_path: &str) -> (c: AdbCommand)
        ensures
            c@.program == self.path@ && c@.args == seq!["files"@, "list"@, apk_path@],
    {
        let c = self.tool_command(&["files", "list"], apk_path);
        assert(c@.args =~= seq!["files"@, "list"@, apk_path@]);
        c
    }

    /// The paths of the files in the APK, one per line; see
    /// [`output_lines`].
    pub fn files_list(&self, stdout: &Vec<u8>) -> (r: crate::error::Result<Vec<String>>)
        ensures
            match output_lines(stdout@) {
                Ok(ls) => r matches Ok(v) && v.deep_view() == ls,
                Err(e) => r == Err::<Vec<String>, AdbError>(e),
            },
    {
        lines_text(stdout)
    }

    /// `apkanalyzer files cat --file <path> <apk>`.
    pub fn files_cat_command(&self, apk_path: &str, path: &str) -> (c: AdbCommand)
        ensures
            c@.program == self.path@ && c@.args == seq!["files"@, "cat"@, "--file"@, path@, apk_path@],
    {
        let v = crate::command::push_str(
            crate::command::push_str(crate::command::strings(&["files", "cat", "--file"]), path.to_owned()),
            apk_path.to_owned(),
        );
        assert(crate::command::texts(seq!["files", "cat", "--file"]) =~= seq!["files"@, "cat"@, "--file"@]);
        let c = self.command(v);
        assert(c@.args =~= seq!["files"@, "cat"@, "--file"@, path@, apk_path@]);
        c
    }

    /// The content of the file, the output trimmed; see [`trimmed_output`].
    pub fn files_cat(&self, stdout: &Vec<u8>) -> (r: crate::error::Result<String>)
        ensures
            match trimmed_output(stdout@) {
                Ok(t) => r matches Ok(s) && s@ == t,
                Err(e) => r == Err::<String, AdbError>(e),
            },
    {
        trimmed_text(stdout)
    }

    /// `apkanalyzer apk summary <apk>`.
    pub fn summary_command(&self, apk_path: &str) -> (c: AdbCommand)
        ensures
            c@.program == self.path@ && c@.args == seq!["apk"@, "summary"@, apk_path@],
    {
        let c = self.tool_command(&["apk", "summary"], apk_path);
        assert(c@.args =~= seq!["apk"@, "summary"@, apk_path@]);
        c
    }

    /// `apkanalyzer dex list <apk>`.
    pub fn dex_list_command(&self, apk_path: &str) -> (c: AdbCommand)
        ensures
            c@.program == self.path@ && c@.args == seq!["dex"@, "list"@, apk_path@],
    {
        let c = self.tool_command(&["dex", "list"], apk_path);
        assert(c@.args =~= seq!["dex"@, "list"@, apk_path@]);
        c
    }

    /// The dex files of the APK, one per line; see [`output_lines`].
    pub fn dex_list(&self, stdout: &Vec<u8>) -> (r: crate::error::Result<Vec<String>>)
        ensures
            match output_lines(stdout@) {
                Ok(ls) => r matches Ok(v) && v.deep_view() == ls,
                Err(e) => r == Err::<Vec<String>, AdbError>(e),
            },
    {
        lines_text(stdout)
    }

    /// `apkanalyzer dex code -class <class> <apk>`.
    pub fn dex_code_command(&self, apk_path: &str, class_name: &str) -> (c: AdbCommand)
        ensures
            c@.program == self.path@ && c@.args == seq!["dex"@, "code"@, "-class"@, class_name@, apk_path@],
    {
        let v = crate::command::push_str(
            crate::command::push_str(crate::command::strings(&["dex", "code", "-class"]), class_name.to_owned()),
            apk_path.to_owned(),
        );
        assert(crate::command::texts(seq!["dex", "code", "-class"]) =~= seq!["dex"@, "code"@, "-class"@]);
        let c = self.command(v);
        assert(c@.args =~= seq!["dex"@, "code"@, "-class"@, class_name@, apk_path@]);
        c
    }

    /// The smali code of the class, the output as it stands; not UTF-8 is
    /// the `Errno` `EINVAL`.
    pub fn dex_code(&self, stdout: &Vec<u8>) -> (r: crate::error::Result<String>)
        ensures
            match utf8_text(stdout@) {
                Some(t) => r matches Ok(s) && s@ == t,
                None => r == Err::<String, AdbError>(AdbError::Errno(22)),
            },
    {
        match rustix_text(stdout) {
            Ok(v) => Ok(crate::outside::string_of(v.as_slice())),
            Err(e) => Err(e),
        }
    }
}

} // verus!
