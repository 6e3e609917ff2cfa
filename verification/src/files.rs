//! Files on the device: tests, listing, removal, modes and reading.
use vstd::prelude::*;
use crate::client::shell_view;
use crate::command::{push_str, concat, pair, AdbCommand};
use crate::error::{AdbError, Result};
use crate::outside::{debug_text, debug_text_of, mode_bits};
use crate::shell::AdbShell;
use crate::text::{
    utf8_text, trim_end, read_lines_of, read_lines, cmd_text, rustix_text, trimmed_end, parse_int,
    parse_in_range,
};

verus! {

/// The shell line that prints `1` when `test -<mode> <path>` holds and `0`
/// otherwise; the path is written as a quoted Rust string.
pub open spec fn test_line(mode: Seq<char>, path: Seq<char>) -> Seq<char> {
    "test -"@ + mode + " "@ + debug_text_of(path) + " && echo 1 || echo 0"@
}

/// Whether the output of a test line says yes: it is UTF-8 and reads `1`
/// once trailing white space is dropped.
pub open spec fn test_answer(b: Seq<u8>) -> bool {
    match utf8_text(b) {
        Some(t) => trim_end(t) == "1"@,
        None => false,
    }
}

/// `ls [options] <path>`.
pub open spec fn ls_args(path: Seq<char>, options: Option<Seq<char>>) -> Seq<Seq<char>> {
    seq!["ls"@] + crate::shell::opt_arg(options) + seq![path]
}

/// The optional words of `rm`, as texts.
pub open spec fn word_texts(v: Option<Vec<&str>>) -> Seq<Seq<char>> {
    match v {
        Some(w) => Seq::new(w@.len(), |i: int| w@[i]@),
        None => seq![],
    }
}

/// The mode that `stat -c '%a'` printed: the output, without trailing
/// white space, read as a decimal `u32` and kept to the bits a file mode
/// holds; not UTF-8 is the `Errno` `EINVAL`, not a number `ParseIntError`.
pub open spec fn file_mode_of(b: Seq<u8>) -> core::result::Result<u32, AdbError> {
    match utf8_text(b) {
        Some(t) => match parse_in_range(trim_end(t), false, 0, 0xffff_ffff) {
            Some(n) => Ok((n as u32) & 0o177777u32),
            None => Err(AdbError::ParseIntError),
        },
        None => Err(AdbError::Errno(22)),
    }
}

fn test_answer_of(stdout: &Vec<u8>) -> (b: bool)
    ensures
        b == test_answer(stdout@),
{
    match cmd_text(stdout) {
        Some(v) => {
            let t = trimmed_end(v.as_slice(), 0, v.len());
            let r = t.len() == 1 && t[0] == '1';
            proof {
                assert(v@.subrange(0, v@.len() as int) =~= v@);
                reveal_strlit("1");
                if r {
                    assert(t@ =~= "1"@);
                } else if t@ == "1"@ {
                    assert(t@[0] == '1');
                }
            }
            r
        },
        None => false,
    }
}

impl<'a> AdbShell<'a> {
    /// `test -<mode> <path>`, printing `1` or `0`; see [`test_line`].
    pub fn test_file_command(&self, path: &str, mode: &str) -> (c: AdbCommand)
        ensures
            c@ == shell_view(*self.parent, seq![test_line(mode@, path@)], None, false),
    {
        let mut line = "test -".to_owned();
        line.append(mode);
        line.append(" ");
        let q = debug_text(path);
        line.append(q.as_str());
        line.append(" && echo 1 || echo 0");
        let v = crate::command::single(line.as_str());
        self.command(v)
    }

    /// Whether a test said yes; see [`test_answer`].
    pub fn test_file(&self, stdout: &Vec<u8>) -> (b: bool)
        ensures
            b == test_answer(stdout@),
    {
        test_answer_of(stdout)
    }

    /// `test -e <path>`: whether anything is there.
    pub fn path_exists_command(&self, path: &str) -> (c: AdbCommand)
        ensures
            c@ == shell_view(*self.parent, seq![test_line("e"@, path@)], None, false),
    {
        self.test_file_command(path, "e")
    }

    /// Whether the test said yes; see [`test_answer`].
    pub fn path_exists(&self, stdout: &Vec<u8>) -> (b: bool)
        ensures
            b == test_answer(stdout@),
    {
        test_answer_of(stdout)
    }

    /// `test -f <path>`: whether a regular file is there.
    pub fn is_file_command(&self, path: &str) -> (c: AdbCommand)
        ensures
            c@ == shell_view(*self.parent, seq![test_line("f"@, path@)], None, false),
    {
        self.test_file_command(path, "f")
    }

    /// Whether the test said yes; see [`test_answer`].
    pub fn is_file(&self, stdout: &Vec<u8>) -> (b: bool)
        ensures
            b == test_answer(stdout@),
    {
        test_answer_of(stdout)
    }

    /// `test -d <path>`: whether a directory is there.
    pub fn is_dir_command(&self, path: &str) -> (c: AdbCommand)
        ensures
            c@ == shell_view(*self.parent, seq![test_line("d"@, path@)], None, false),
    {
        self.test_file_command(path, "d")
    }

    /// Whether the test said yes; see [`test_answer`].
    pub fn is_dir(&self, stdout: &Vec<u8>) -> (b: bool)
        ensures
            b == test_answer(stdout@),
    {
        test_answer_of(stdout)
    }

    /// `test -h <path>`: whether a symbolic link is there.
    pub fn is_symlink_command(&self, path: &str) -> (c: AdbCommand)
        ensures
            c@ == shell_view(*self.parent, seq![test_line("h"@, path@)], None, false),
    {
        self.test_file_command(path, "h")
    }

    /// Whether the test said yes; see [`test_answer`].
    pub fn is_symlink(&self, stdout: &Vec<u8>) -> (b: bool)
        ensures
            b == test_answer(stdout@),
    {
        test_answer_of(stdout)
    }

    /// `rm [options] <path>`; a run that succeeds means the path was
    /// removed.
    pub fn rm(&self, path: &str, options: Option<Vec<&str>>) -> (c: AdbCommand)
        ensures
            c@ == shell_view(*self.parent, seq!["rm"@] + word_texts(options) + seq![path@], None, false),
    {
        let ghost ws = word_texts(options);
        let mut v = crate::command::single("rm");
        match options {
            Some(w) => {
                let o = crate::command::strings(w.as_slice());
                assert(crate::command::texts(w@) =~= ws);
                v = concat(v, o);
            },
            None => {},
        }
        let v = push_str(v, path.to_owned());
        assert(v.deep_view() =~= seq!["rm"@] + ws + seq![path@]);
        self.command(v)
    }

    /// `ls [options] <path>`.
    pub fn ls_command(&self, path: &str, options: Option<&str>) -> (c: AdbCommand)
        ensures
            c@ == shell_view(
                *self.parent,
                ls_args(
                    path@,
                    match options {
                        Some(o) => Some(o@),
                        None => None,
                    },
                ),
                None,
                false,
            ),
    {
        let mut v = crate::command::single("ls");
        match options {
            Some(o) => {
                v = push_str(v, o.to_owned());
            },
            None => {},
        }
        let v = push_str(v, path.to_owned());
        assert(v.deep_view() =~= ls_args(
            path@,
            match options {
                Some(o) => Some(o@),
                None => None,
            },
        ));
        self.command(v)
    }

    /// The entries `ls` printed: its lines that are UTF-8, in order (see
    /// [`read_lines_of`]).
    pub fn ls(&self, stdout: &Vec<u8>) -> (r: Vec<String>)
        ensures
            r.deep_view() == read_lines_of(stdout@),
    {
        let lines = read_lines(stdout.as_slice());
        let mut out: Vec<String> = Vec::new();
        let mut i: usize = 0;
        while i < lines.len()
            invariant
                i <= lines@.len(),
                lines.deep_view() == read_lines_of(stdout@),
                out.deep_view() == lines.deep_view().subrange(0, i as int),
            decreases lines@.len() - i,
        {
            let s = crate::outside::string_of(lines[i].as_slice());
            assert(lines.deep_view()[i as int] == lines@[i as int]@);
            let ghost before = out.deep_view();
            let ghost sv = s@;
            out.push(s);
            assert(out.deep_view() =~= before.push(sv));
            assert(lines.deep_view().subrange(0, i + 1) =~= lines.deep_view().subrange(0, i as int).push(sv));
            i = i + 1;
        }
        assert(lines.deep_view().subrange(0, lines@.len() as int) =~= lines.deep_view());
        out
    }

    /// `stat -L -c '%a' <path>`: the permission bits of what the path leads
    /// to.
    pub fn file_mode_command(&self, path: &str) -> (c: AdbCommand)
        ensures
            c@ == shell_view(*self.parent, seq!["stat"@, "-L"@, "-c"@, "'%a'"@, path@], None, false),
    {
        let mut v = crate::command::strings(&["stat", "-L", "-c", "'%a'"]);
        assert(crate::command::texts(seq!["stat", "-L", "-c", "'%a'"]) =~= seq!["stat"@, "-L"@, "-c"@, "'%a'"@]);
        let v = push_str(v, path.to_owned());
        assert(v.deep_view() =~= seq!["stat"@, "-L"@, "-c"@, "'%a'"@, path@]);
        self.command(v)
    }

    /// The mode that `stat` printed; see [`file_mode_of`].
    pub fn file_mode(&self, stdout: &Vec<u8>) -> (r: Result<u32>)
        ensures
            r == file_mode_of(stdout@),
    {
        let cs = match rustix_text(stdout) {
            Ok(v) => v,
            Err(e) => {
                return Err(e);
            },
        };
        let t = trimmed_end(cs.as_slice(), 0, cs.len());
        proof {
            assert(cs@.subrange(0, cs@.len() as int) =~= cs@);
        }
        match parse_int(t.as_slice(), false, 0, 0xffff_ffff) {
            Some(n) => Ok(mode_bits(n as u32)),
            None => Err(AdbError::ParseIntError),
        }
    }

    /// `cat <path>`: its standard output is the content of the file.
    pub fn cat(&self, path: &str) -> (c: AdbCommand)
        ensures
            c@ == shell_view(*self.parent, seq!["cat"@, path@], None, false),
    {
        self.command(pair("cat", path.to_owned()))
    }

    /// `screencap -p <path>`: a PNG of the screen, written on the device.
    pub fn save_screencap(&self, path: &str) -> (c: AdbCommand)
        ensures
            c@ == shell_view(*self.parent, seq!["screencap"@, "-p"@, path@], None, false),
    {
        let v = push_str(pair("screencap", "-p".to_owned()), path.to_owned());
        assert(v.deep_view() =~= seq!["screencap"@, "-p"@, path@]);
        self.command(v)
    }
}

} // verus!
