//! `adb shell` on one device: the command lines of each shell operation and
//! the readers of what they print.
use vstd::prelude::*;
use crate::client::{AdbClient, shell_view};
use crate::command::{strings, single, pair, push_str, texts, AdbCommand};
use crate::keycode::{KeyCode, keycode_name};
use crate::text::{
    decimal, int_decimal, u64_string, i64_string, trim, trim_end, ws_end, last_index_before,
    utf8_text, read_lines_of, read_lines, cmd_text, rustix_text, rfind_before, skip_spaces,
    string_from, trim_string, trim_end_string, str_eq, text_contains, contains_text, occurs_at,
    next_index, next_index_of, digits_end, is_ws,
};
use crate::outside::{properties_of, read_properties};
use crate::error::{AdbError, Result};
use crate::types::{
    InputSource, KeyEventType, MotionEvent, SettingsType, DumpsysPriority, SELinuxType,
    input_source_name, key_event_type_arg, motion_name, settings_name, dumpsys_priority_name,
    selinux_arg, Property, PropType, prop_type_spec, selinux_of,
};

verus! {

/// The shell of the device of a client.
pub struct AdbShell<'a> {
    pub parent: &'a AdbClient,
}

/// An optional argument: nothing, or the one word.
pub open spec fn opt_arg(o: Option<Seq<char>>) -> Seq<Seq<char>> {
    match o {
        Some(a) => seq![a],
        None => seq![],
    }
}

/// `input`, then the name of the source when one is given.
pub open spec fn input_args(source: Option<InputSource>) -> Seq<Seq<char>> {
    seq!["input"@] + opt_arg(
        match source {
            Some(s) => Some(input_source_name(s)),
            None => None,
        },
    )
}

/// The names of keys, in order.
pub open spec fn keycode_names(ks: Seq<KeyCode>) -> Seq<Seq<char>> {
    Seq::new(ks.len(), |i: int| keycode_name(ks[i]))
}

/// The decimal numbers of key codes, in order.
pub open spec fn keycode_numbers(ks: Seq<u32>) -> Seq<Seq<char>> {
    Seq::new(ks.len(), |i: int| decimal(ks[i] as nat))
}

/// `input [source] keyevent [--longpress | --doubletap] <key>`.
pub open spec fn keyevent_args(
    source: Option<InputSource>,
    event_type: Option<KeyEventType>,
    key: Seq<char>,
) -> Seq<Seq<char>> {
    input_args(source) + seq!["keyevent"@] + opt_arg(
        match event_type {
            Some(t) => Some(key_event_type_arg(t)),
            None => None,
        },
    ) + seq![key]
}

pub(crate) fn input_prefix(source: Option<InputSource>) -> (v: Vec<String>)
    ensures
        v.deep_view() == input_args(source),
{
    match source {
        Some(s) => {
            let v = pair("input", s.as_str().to_owned());
            assert(v.deep_view() =~= input_args(source));
            v
        },
        None => {
            let v = single("input");
            assert(v.deep_view() =~= input_args(source));
            v
        },
    }
}

pub(crate) fn with_word(v: Vec<String>, w: &str) -> (r: Vec<String>)
    ensures
        r.deep_view() == v.deep_view() + seq![w@],
{
    let ghost v0 = v.deep_view();
    let r = push_str(v, w.to_owned());
    assert(r.deep_view() =~= v0 + seq![w@]);
    r
}

fn with_key_names(v: Vec<String>, keys: &Vec<KeyCode>) -> (r: Vec<String>)
    ensures
        r.deep_view() == v.deep_view() + keycode_names(keys@),
{
    let mut r = v;
    let ghost v0 = r.deep_view();
    let mut i: usize = 0;
    while i < keys.len()
        invariant
            i <= keys@.len(),
            r.deep_view() == v0 + keycode_names(keys@.subrange(0, i as int)),
        decreases keys@.len() - i,
    {
        let ghost before = r.deep_view();
        r.push(keys[i].as_str().to_owned());
        assert(keycode_names(keys@.subrange(0, i + 1)) =~= keycode_names(keys@.subrange(0, i as int)).push(
            keycode_name(keys@[i as int]),
        ));
        assert(r.deep_view() =~= before.push(keycode_name(keys@[i as int])));
        i = i + 1;
    }
    assert(keys@.subrange(0, keys@.len() as int) =~= keys@);
    r
}

fn with_key_numbers(v: Vec<String>, keys: &Vec<u32>) -> (r: Vec<String>)
    ensures
        r.deep_view() == v.deep_view() + keycode_numbers(keys@),
{
    let mut r = v;
    let ghost v0 = r.deep_view();
    let mut i: usize = 0;
    while i < keys.len()
        invariant
            i <= keys@.len(),
            r.deep_view() == v0 + keycode_numbers(keys@.subrange(0, i as int)),
        decreases keys@.len() - i,
    {
        let ghost before = r.deep_view();
        r.push(u64_string(keys[i] as u64));
        assert(keycode_numbers(keys@.subrange(0, i + 1)) =~= keycode_numbers(keys@.subrange(0, i as int)).push(
            decimal(keys@[i as int] as nat),
        ));
        assert(r.deep_view() =~= before.push(decimal(keys@[i as int] as nat)));
        i = i + 1;
    }
    assert(keys@.subrange(0, keys@.len() as int) =~= keys@);
    r
}

fn keyevent_vec(source: Option<InputSource>, event_type: Option<KeyEventType>, key: String) -> (v: Vec<
    String,
>)
    ensures
        v.deep_view() == keyevent_args(source, event_type, key@),
{
    let mut v = with_word(input_prefix(source), "keyevent");
    match event_type {
        Some(t) => {
            v = with_word(v, t.as_flag());
        },
        None => {},
    }
    let ghost v0 = v.deep_view();
    let r = push_str(v, key);
    assert(r.deep_view() =~= keyevent_args(source, event_type, key@));
    r
}

impl<'a> AdbShell<'a> {
    /// `adb <device options> shell <args>`, waited for.
    pub fn command(&self, args: Vec<String>) -> (c: AdbCommand)
        ensures
            c@ == shell_view(*self.parent, args.deep_view(), None, false),
    {
        self.parent.shell_command(args, None, false)
    }

    /// `adb <device options> shell <args>`, started and left running.
    pub fn spawn(&self, args: Vec<String>) -> (c: AdbCommand)
        ensures
            c@ == shell_view(*self.parent, args.deep_view(), None, true),
    {
        self.parent.shell_command(args, None, true)
    }

    /// `sendevent <device> <type> <code> <value>`: writes one raw input event.
    pub fn send_event(&self, event: &str, code_type: i32, code: i32, value: i32) -> (c: AdbCommand)
        ensures
            c@ == shell_view(
                *self.parent,
                seq![
                    "sendevent"@,
                    event@,
                    int_decimal(code_type as int),
                    int_decimal(code as int),
                    int_decimal(value as int),
                ],
                None,
                false,
            ),
    {
        let mut v = pair("sendevent", event.to_owned());
        v = push_str(v, i64_string(code_type as i64));
        v = push_str(v, i64_string(code as i64));
        v = push_str(v, i64_string(value as i64));
        assert(v.deep_view() =~= seq![
            "sendevent"@,
            event@,
            int_decimal(code_type as int),
            int_decimal(code as int),
            int_decimal(value as int),
        ]);
        self.command(v)
    }

    /// The same command as [`AdbShell::send_event`], also waited for.
    pub fn try_send_event(&self, event: &str, code_type: i32, code: i32, value: i32) -> (c: AdbCommand)
        ensures
            c@ == shell_view(
                *self.parent,
                seq![
                    "sendevent"@,
                    event@,
                    int_decimal(code_type as int),
                    int_decimal(code as int),
                    int_decimal(value as int),
                ],
                None,
                false,
            ),
    {
        self.send_event(event, code_type, code, value)
    }

    /// `input [source] motionevent <DOWN|UP|MOVE|CANCEL> <x> <y>`.
    pub fn send_motion(&self, source: Option<InputSource>, motion: MotionEvent, pos: (i32, i32)) -> (c:
        AdbCommand)
        ensures
            c@ == shell_view(
                *self.parent,
                input_args(source) + seq![
                    "motionevent"@,
                    motion_name(motion),
                    int_decimal(pos.0 as int),
                    int_decimal(pos.1 as int),
                ],
                None,
                false,
            ),
    {
        let mut v = with_word(input_prefix(source), "motionevent");
        let ghost v0 = v.deep_view();
        v = push_str(v, motion.as_str().to_owned());
        v = push_str(v, i64_string(pos.0 as i64));
        v = push_str(v, i64_string(pos.1 as i64));
        assert(v.deep_view() =~= input_args(source) + seq![
            "motionevent"@,
            motion_name(motion),
            int_decimal(pos.0 as int),
            int_decimal(pos.1 as int),
        ]);
        self.command(v)
    }

    /// `input [source] draganddrop <x1> <y1> <x2> <y2> [milliseconds]`.
    pub fn send_draganddrop(
        &self,
        source: Option<InputSource>,
        duration_ms: Option<u64>,
        from_pos: (i32, i32),
        to_pos: (i32, i32),
    ) -> (c: AdbCommand)
        ensures
            c@ == shell_view(
                *self.parent,
                input_args(source) + seq![
                    "draganddrop"@,
                    int_decimal(from_pos.0 as int),
                    int_decimal(from_pos.1 as int),
                    int_decimal(to_pos.0 as int),
                    int_decimal(to_pos.1 as int),
                ] + opt_arg(
                    match duration_ms {
                        Some(d) => Some(decimal(d as nat)),
                        None => None,
                    },
                ),
                None,
                false,
            ),
    {
        let mut v = with_word(input_prefix(source), "draganddrop");
        v = push_str(v, i64_string(from_pos.0 as i64));
        v = push_str(v, i64_string(from_pos.1 as i64));
        v = push_str(v, i64_string(to_pos.0 as i64));
        v = push_str(v, i64_string(to_pos.1 as i64));
        match duration_ms {
            Some(d) => {
                v = push_str(v, u64_string(d));
            },
            None => {},
        }
        assert(v.deep_view() =~= input_args(source) + seq![
            "draganddrop"@,
            int_decimal(from_pos.0 as int),
            int_decimal(from_pos.1 as int),
            int_decimal(to_pos.0 as int),
            int_decimal(to_pos.1 as int),
        ] + opt_arg(
            match duration_ms {
                Some(d) => Some(decimal(d as nat)),
                None => None,
            },
        ));
        self.command(v)
    }

    /// `input [source] press`.
    pub fn send_press(&self, source: Option<InputSource>) -> (c: AdbCommand)
        ensures
            c@ == shell_view(*self.parent, input_args(source) + seq!["press"@], None, false),
    {
        self.command(with_word(input_prefix(source), "press"))
    }

    /// `input [source] keycombination <names…>`: presses the keys together.
    pub fn send_keyevent_combination(&self, source: Option<InputSource>, keycodes: Vec<KeyCode>) -> (c:
        AdbCommand)
        ensures
            c@ == shell_view(
                *self.parent,
                input_args(source) + seq!["keycombination"@] + keycode_names(keycodes@),
                None,
                false,
            ),
    {
        self.command(with_key_names(with_word(input_prefix(source), "keycombination"), &keycodes))
    }

    /// `input [source] keycombination <codes…>`, the keys given by number.
    pub fn send_keycode_combination(&self, source: Option<InputSource>, keycodes: Vec<u32>) -> (c:
        AdbCommand)
        ensures
            c@ == shell_view(
                *self.parent,
                input_args(source) + seq!["keycombination"@] + keycode_numbers(keycodes@),
                None,
                false,
            ),
    {
        self.command(with_key_numbers(with_word(input_prefix(source), "keycombination"), &keycodes))
    }

    /// [`AdbShell::send_keyevent_combination`], started and left running.
    pub fn try_send_keyevent_combination(&self, source: Option<InputSource>, keycodes: Vec<KeyCode>) -> (c:
        AdbCommand)
        ensures
            c@ == shell_view(
                *self.parent,
                input_args(source) + seq!["keycombination"@] + keycode_names(keycodes@),
                None,
                true,
            ),
    {
        self.spawn(with_key_names(with_word(input_prefix(source), "keycombination"), &keycodes))
    }

    /// [`AdbShell::send_keycode_combination`], started and left running.
    pub fn try_send_keycode_combination(&self, source: Option<InputSource>, keycodes: Vec<u32>) -> (c:
        AdbCommand)
        ensures
            c@ == shell_view(
                *self.parent,
                input_args(source) + seq!["keycombination"@] + keycode_numbers(keycodes@),
                None,
                true,
            ),
    {
        self.spawn(with_key_numbers(with_word(input_prefix(source), "keycombination"), &keycodes))
    }

    fn char_vec(text: &char, source: Option<InputSource>) -> (v: Vec<String>)
        ensures
            v.deep_view() == input_args(source) + seq!["text"@, seq![*text]],
    {
        let one = [*text];
        let s = crate::outside::string_of(&one);
        assert(one@ =~= seq![*text]);
        let v = push_str(with_word(input_prefix(source), "text"), s);
        assert(v.deep_view() =~= input_args(source) + seq!["text"@, seq![*text]]);
        v
    }

    /// `input [source] text <c>`: types one character.
    pub fn send_char(&self, text: &char, source: Option<InputSource>) -> (c: AdbCommand)
        ensures
            c@ == shell_view(*self.parent, input_args(source) + seq!["text"@, seq![*text]], None, false),
    {
        self.command(Self::char_vec(text, source))
    }

    /// [`AdbShell::send_char`], started and left running.
    pub fn try_send_char(&self, text: &char, source: Option<InputSource>) -> (c: AdbCommand)
        ensures
            c@ == shell_view(*self.parent, input_args(source) + seq!["text"@, seq![*text]], None, true),
    {
        self.spawn(Self::char_vec(text, source))
    }

    fn text_vec(text: &str, source: Option<InputSource>) -> (v: Vec<String>)
        ensures
            v.deep_view() == input_args(source) + seq![
                "text"@,
                crate::outside::debug_text_of(text@),
            ],
    {
        let quoted = crate::outside::debug_text(text);
        let v = push_str(with_word(input_prefix(source), "text"), quoted);
        assert(v.deep_view() =~= input_args(source) + seq!["text"@, crate::outside::debug_text_of(text@)]);
        v
    }

    /// `input [source] text <"text">`: types a text, handed to the shell in
    /// double quotes with Rust's escapes.
    pub fn send_text(&self, text: &str, source: Option<InputSource>) -> (c: AdbCommand)
        ensures
            c@ == shell_view(
                *self.parent,
                input_args(source) + seq!["text"@, crate::outside::debug_text_of(text@)],
                None,
                false,
            ),
    {
        self.command(Self::text_vec(text, source))
    }

    /// [`AdbShell::send_text`], started and left running.
    pub fn try_send_text(&self, text: &str, source: Option<InputSource>) -> (c: AdbCommand)
        ensures
            c@ == shell_view(
                *self.parent,
                input_args(source) + seq!["text"@, crate::outside::debug_text_of(text@)],
                None,
                true,
            ),
    {
        self.spawn(Self::text_vec(text, source))
    }

    /// `am force-stop <package>`.
    pub fn force_stop(&self, package_name: &str) -> (c: AdbCommand)
        ensures
            c@ == shell_view(*self.parent, seq!["am"@, "force-stop"@, package_name@], None, false),
    {
        let v = push_str(strings(&["am", "force-stop"]), package_name.to_owned());
        assert(texts(seq!["am", "force-stop"]) =~= seq!["am"@, "force-stop"@]);
        assert(v.deep_view() =~= seq!["am"@, "force-stop"@, package_name@]);
        self.command(v)
    }

    /// `setenforce <1|0>`.
    pub fn set_enforce(&self, enforce: SELinuxType) -> (c: AdbCommand)
        ensures
            c@ == shell_view(*self.parent, seq!["setenforce"@, selinux_arg(enforce)], None, false),
    {
        self.command(pair("setenforce", enforce.as_arg().to_owned()))
    }

    /// `input [source] keyevent [--longpress | --doubletap] <name>`.
    pub fn send_keyevent(&self, keycode: KeyCode, event_type: Option<KeyEventType>, source: Option<InputSource>) -> (c:
        AdbCommand)
        ensures
            c@ == shell_view(*self.parent, keyevent_args(source, event_type, keycode_name(keycode)), None, false),
    {
        self.command(keyevent_vec(source, event_type, keycode.as_str().to_owned()))
    }

    /// `input [source] keyevent [--longpress | --doubletap] <code>`.
    pub fn send_keycode(&self, keycode: u32, event_type: Option<KeyEventType>, source: Option<InputSource>) -> (c:
        AdbCommand)
        ensures
            c@ == shell_view(
                *self.parent,
                keyevent_args(source, event_type, decimal(keycode as nat)),
                None,
                false,
            ),
    {
        self.command(keyevent_vec(source, event_type, u64_string(keycode as u64)))
    }

    /// [`AdbShell::send_keyevent`], started and left running.
    pub fn try_send_keyevent(&self, keycode: KeyCode, event_type: Option<KeyEventType>, source: Option<
        InputSource,
    >) -> (c: AdbCommand)
        ensures
            c@ == shell_view(*self.parent, keyevent_args(source, event_type, keycode_name(keycode)), None, true),
    {
        self.spawn(keyevent_vec(source, event_type, keycode.as_str().to_owned()))
    }

    /// [`AdbShell::send_keycode`], started and left running.
    pub fn try_send_keycode(&self, keycode: u32, event_type: Option<KeyEventType>, source: Option<InputSource>) -> (c:
        AdbCommand)
        ensures
            c@ == shell_view(
                *self.parent,
                keyevent_args(source, event_type, decimal(keycode as nat)),
                None,
                true,
            ),
    {
        self.spawn(keyevent_vec(source, event_type, u64_string(keycode as u64)))
    }

    /// `input [source] keyevent <names…>`: presses the keys one after another.
    pub fn send_keyevents(&self, keycodes: Vec<KeyCode>, source: Option<InputSource>) -> (c: AdbCommand)
        ensures
            c@ == shell_view(
                *self.parent,
                input_args(source) + seq!["keyevent"@] + keycode_names(keycodes@),
                None,
                false,
            ),
    {
        self.command(with_key_names(with_word(input_prefix(source), "keyevent"), &keycodes))
    }

    /// `input [source] keyevent <codes…>`.
    pub fn send_keycodes(&self, keycodes: Vec<u32>, source: Option<InputSource>) -> (c: AdbCommand)
        ensures
            c@ == shell_view(
                *self.parent,
                input_args(source) + seq!["keyevent"@] + keycode_numbers(keycodes@),
                None,
                false,
            ),
    {
        self.command(with_key_numbers(with_word(input_prefix(source), "keyevent"), &keycodes))
    }

    /// [`AdbShell::send_keyevents`], started and left running.
    pub fn try_send_keyevents(&self, keycodes: Vec<KeyCode>, source: Option<InputSource>) -> (c: AdbCommand)
        ensures
            c@ == shell_view(
                *self.parent,
                input_args(source) + seq!["keyevent"@] + keycode_names(keycodes@),
                None,
                true,
            ),
    {
        self.spawn(with_key_names(with_word(input_prefix(source), "keyevent"), &keycodes))
    }

    /// [`AdbShell::send_keycodes`], started and left running.
    pub fn try_send_keycodes(&self, keycodes: Vec<u32>, source: Option<InputSource>) -> (c: AdbCommand)
        ensures
            c@ == shell_view(
                *self.parent,
                input_args(source) + seq!["keyevent"@] + keycode_numbers(keycodes@),
                None,
                true,
            ),
    {
        self.spawn(with_key_numbers(with_word(input_prefix(source), "keyevent"), &keycodes))
    }
}

} // verus!

verus! {

/// The key and value of one `getprop` line, as the pattern
/// `^\[(.*)\]\s*:\s*\[([^\]]*)\]$` captures them: the line opens with `[`
/// and closes with `]`; the key runs to the last `]` but one, which white
/// space, a `:`, white space and a `[` follow; the value is what lies
/// between that `[` and the closing `]`.
pub open spec fn prop_line(l: Seq<char>) -> Option<(Seq<char>, Seq<char>)> {
    let n = l.len() as int;
    if n >= 2 && l[0] == '[' && l[n - 1] == ']' {
        let i = last_index_before(l, ']', n - 1);
        if i >= 0 {
            let j = ws_end(l, i + 1);
            if j < n && l[j] == ':' {
                let k = ws_end(l, j + 1);
                if k < n - 1 && l[k] == '[' {
                    Some((l.subrange(1, i), l.subrange(k + 1, n - 1)))
                } else {
                    None
                }
            } else {
                None
            }
        } else {
            None
        }
    } else {
        None
    }
}

/// The entries of the lines that are `getprop` lines, in order.
pub open spec fn prop_entries(ls: Seq<Seq<char>>) -> Seq<(Seq<char>, Seq<char>)>
    decreases ls.len(),
{
    if ls.len() == 0 {
        seq![]
    } else {
        let rest = prop_entries(ls.drop_last());
        match prop_line(ls.last()) {
            Some(e) => rest.push(e),
            None => rest,
        }
    }
}

/// Properties as pairs of texts.
pub open spec fn props_view(v: Seq<Property>) -> Seq<(Seq<char>, Seq<char>)> {
    Seq::new(v.len(), |i: int| (v[i].key@, v[i].value@))
}

/// The value of the last entry with key `k`.
pub open spec fn last_value(es: Seq<(Seq<char>, Seq<char>)>, k: Seq<char>) -> Option<Seq<char>>
    decreases es.len(),
{
    if es.len() == 0 {
        None
    } else if es.last().0 == k {
        Some(es.last().1)
    } else {
        last_value(es.drop_last(), k)
    }
}

/// Whether `r` holds, once each, the keys of `es`, each with the type of the
/// last value given for it: the map that inserting the entries in order builds.
pub open spec fn prop_type_map(r: Seq<(String, PropType)>, es: Seq<(Seq<char>, Seq<char>)>) -> bool {
    &&& forall|i: int, j: int| 0 <= i < j < r.len() ==> r[i].0@ != r[j].0@
    &&& forall|i: int|
        0 <= i < r.len() ==> (#[trigger] last_value(es, r[i].0@) matches Some(v) && prop_type_spec(
            v,
            r[i].1,
        ))
    &&& forall|k: Seq<char>| #[trigger]
        last_value(es, k) is Some ==> exists|i: int| 0 <= i < r.len() && r[i].0@ == k
}

fn parse_prop_line(l: &[char]) -> (r: Option<(String, String)>)
    ensures
        match prop_line(l@) {
            Some(e) => r matches Some(p) && p.0@ == e.0 && p.1@ == e.1,
            None => r is None,
        },
{
    let n = l.len();
    if n < 2 || l[0] != '[' || l[n - 1] != ']' {
        return None;
    }
    match rfind_before(l, ']', n - 1) {
        None => None,
        Some(i) => {
            proof {
                crate::text::lemma_last_index_before(l@, ']', n - 1);
            }
            let j = skip_spaces(l, i + 1);
            if j < n && l[j] == ':' {
                let k = skip_spaces(l, j + 1);
                if k < n - 1 && l[k] == '[' {
                    Some((string_from(l, 1, i), string_from(l, k + 1, n - 1)))
                } else {
                    None
                }
            } else {
                None
            }
        },
    }
}

fn find_key(out: &Vec<(String, PropType)>, key: &String) -> (r: Option<usize>)
    ensures
        match r {
            Some(j) => j < out@.len() && out@[j as int].0@ == key@,
            None => forall|m: int| 0 <= m < out@.len() ==> out@[m].0@ != key@,
        },
{
    let mut j: usize = 0;
    while j < out.len()
        invariant
            j <= out@.len(),
            forall|m: int| 0 <= m < j ==> out@[m].0@ != key@,
        decreases out@.len() - j,
    {
        if str_eq(out[j].0.as_str(), key.as_str()) {
            return Some(j);
        }
        j = j + 1;
    }
    None
}

impl<'a> AdbShell<'a> {
    /// `whoami`.
    pub fn whoami_command(&self) -> (c: AdbCommand)
        ensures
            c@ == shell_view(*self.parent, seq!["whoami"@], None, false),
    {
        self.command(single("whoami"))
    }

    /// The user that `whoami` printed, trimmed; none when the output is not
    /// UTF-8.
    pub fn whoami(&self, stdout: &Vec<u8>) -> (r: Option<String>)
        ensures
            match utf8_text(stdout@) {
                Some(t) => r matches Some(u) && u@ == trim(t),
                None => r is None,
            },
    {
        match cmd_text(stdout) {
            Some(v) => Some(trim_string(v.as_slice())),
            None => None,
        }
    }

    /// `which <command>`.
    pub fn which_command(&self, command: &str) -> (c: AdbCommand)
        ensures
            c@ == shell_view(*self.parent, seq!["which"@, command@], None, false),
    {
        self.command(pair("which", command.to_owned()))
    }

    /// The path that `which` printed, without trailing white space; none
    /// when the output is not UTF-8.
    pub fn which(&self, stdout: &Vec<u8>) -> (r: Option<String>)
        ensures
            match utf8_text(stdout@) {
                Some(t) => r matches Some(u) && u@ == trim_end(t),
                None => r is None,
            },
    {
        match cmd_text(stdout) {
            Some(v) => Some(trim_end_string(v.as_slice())),
            None => None,
        }
    }

    /// `getprop <key>`.
    pub fn getprop_command(&self, key: &str) -> (c: AdbCommand)
        ensures
            c@ == shell_view(*self.parent, seq!["getprop"@, key@], None, false),
    {
        self.command(pair("getprop", key.to_owned()))
    }

    /// The value `getprop <key>` printed, without trailing white space;
    /// output that is not UTF-8 is the `Errno` `EINVAL`.
    pub fn getprop(&self, stdout: &Vec<u8>) -> (r: Result<String>)
        ensures
            match utf8_text(stdout@) {
                Some(t) => r matches Ok(v) && v@ == trim_end(t),
                None => r == Err::<String, AdbError>(AdbError::Errno(22)),
            },
    {
        match rustix_text(stdout) {
            Ok(v) => Ok(trim_end_string(v.as_slice())),
            Err(e) => Err(e),
        }
    }

    /// `getprop`: every property.
    pub fn getprops_command(&self) -> (c: AdbCommand)
        ensures
            c@ == shell_view(*self.parent, seq!["getprop"@], None, false),
    {
        self.command(single("getprop"))
    }

    /// The properties that `getprop` listed: one for each line `[key]: [value]`
    /// (see [`prop_line`]), in order; lines that are not UTF-8 or not of
    /// that shape are skipped.
    pub fn getprops(&self, stdout: &Vec<u8>) -> (r: Vec<Property>)
        ensures
            props_view(r@) == prop_entries(read_lines_of(stdout@)),
    {
        let lines = read_lines(stdout.as_slice());
        let ghost ls = lines.deep_view();
        let mut out: Vec<Property> = Vec::new();
        let mut i: usize = 0;
        assert(ls.subrange(0, 0) =~= Seq::<Seq<char>>::empty());
        assert(props_view(out@) =~= prop_entries(ls.subrange(0, 0)));
        while i < lines.len()
            invariant
                i <= lines@.len(),
                ls == lines.deep_view(),
                props_view(out@) == prop_entries(ls.subrange(0, i as int)),
            decreases lines@.len() - i,
        {
            proof {
                assert(ls.subrange(0, i + 1).drop_last() =~= ls.subrange(0, i as int));
                assert(ls.subrange(0, i + 1).last() == lines@[i as int]@);
            }
            let ghost before = out@;
            match parse_prop_line(lines[i].as_slice()) {
                Some(p) => {
                    out.push(Property { key: p.0, value: p.1 });
                    assert(props_view(out@) =~= props_view(before).push((p.0@, p.1@)));
                },
                None => {},
            }
            i = i + 1;
        }
        assert(ls.subrange(0, lines@.len() as int) =~= ls);
        out
    }

    /// `getprop -T`: the type of every property.
    pub fn getprop_types_command(&self) -> (c: AdbCommand)
        ensures
            c@ == shell_view(*self.parent, seq!["getprop"@, "-T"@], None, false),
    {
        self.command(pair("getprop", "-T".to_owned()))
    }

    /// The type of every property that `getprop -T` listed, keyed by
    /// property: the lines are read as [`AdbShell::getprops`] reads them and
    /// a later line for a key replaces an earlier one (see [`prop_type_map`]).
    pub fn getprop_types(&self, stdout: &Vec<u8>) -> (r: Vec<(String, PropType)>)
        ensures
            prop_type_map(r@, prop_entries(read_lines_of(stdout@))),
    {
        let props = self.getprops(stdout);
        let ghost es = props_view(props@);
        let mut out: Vec<(String, PropType)> = Vec::new();
        let mut i: usize = 0;
        assert(es.subrange(0, 0) =~= Seq::<(Seq<char>, Seq<char>)>::empty());
        while i < props.len()
            invariant
                i <= props@.len(),
                es == props_view(props@),
                prop_type_map(out@, es.subrange(0, i as int)),
            decreases props@.len() - i,
        {
            let ghost pre = es.subrange(0, i as int);
            let ghost cur = es.subrange(0, i + 1);
            let ghost before = out@;
            proof {
                assert(cur.drop_last() =~= pre);
                assert(cur.last() == es[i as int]);
            }
            let key = props[i].key.clone();
            let t = PropType::from_str(props[i].value.as_str());
            let ghost kv = key@;
            let found = find_key(&out, &key);
            proof {
                assert(forall|k: Seq<char>| k != key@ ==> #[trigger] last_value(cur, k) == last_value(pre, k));
                assert(last_value(cur, key@) == Some(es[i as int].1));
            }
            if let Some(j) = found {
                out.set(j, (key, t));
                proof {
                    assert(out@ == before.update(j as int, out@[j as int]));
                    assert(out@[j as int].0@ == kv);
                    assert forall|a: int, b: int| 0 <= a < b < out@.len() implies out@[a].0@ != out@[b].0@ by {
                        assert(before[a].0@ != before[b].0@);
                    }
                    assert forall|a: int| 0 <= a < out@.len() implies (#[trigger] last_value(cur, out@[a].0@) matches Some(
                        v,
                    ) && prop_type_spec(v, out@[a].1)) by {
                        if a != j {
                            assert(before[a].0@ != before[j as int].0@);
                        }
                    }
                    assert forall|k: Seq<char>| #[trigger] last_value(cur, k) is Some implies exists|a: int|
                        0 <= a < out@.len() && out@[a].0@ == k by {
                        if k == kv {
                            assert(out@[j as int].0@ == k);
                        } else {
                            let a = choose|a: int| 0 <= a < before.len() && before[a].0@ == k;
                            assert(out@[a].0@ == k);
                        }
                    }
                }
            } else {
                out.push((key, t));
                proof {
                    assert(out@[before.len() as int].0@ == kv);
                    assert forall|a: int, b: int| 0 <= a < b < out@.len() implies out@[a].0@ != out@[b].0@ by {
                        if b < before.len() {
                            assert(before[a].0@ != before[b].0@);
                        }
                    }
                    assert forall|a: int| 0 <= a < out@.len() implies (#[trigger] last_value(cur, out@[a].0@) matches Some(
                        v,
                    ) && prop_type_spec(v, out@[a].1)) by {
                        if a < before.len() {
                            assert(before[a] == out@[a]);
                        }
                    }
                    assert forall|k: Seq<char>| #[trigger] last_value(cur, k) is Some implies exists|a: int|
                        0 <= a < out@.len() && out@[a].0@ == k by {
                        if k == kv {
                            assert(out@[before.len() as int].0@ == k);
                        } else {
                            let a = choose|a: int| 0 <= a < before.len() && before[a].0@ == k;
                            assert(out@[a].0@ == k);
                        }
                    }
                }
            }
            i = i + 1;
        }
        assert(es.subrange(0, props@.len() as int) =~= es);
        out
    }
}

} // verus!

verus! {

/// The service names that `dumpsys -l` listed: each line trimmed, without
/// the lines that end with `:` (the heading).
pub open spec fn service_names(ls: Seq<Seq<char>>) -> Seq<Seq<char>>
    decreases ls.len(),
{
    if ls.len() == 0 {
        seq![]
    } else {
        let rest = service_names(ls.drop_last());
        let t = trim(ls.last());
        if t.len() > 0 && t.last() == ':' {
            rest
        } else {
            rest.push(t)
        }
    }
}

/// `dumpsys -l [--proto] [--priority <level>]`.
pub open spec fn dumpsys_list_args(proto_only: bool, priority: Option<DumpsysPriority>) -> Seq<Seq<char>> {
    seq!["dumpsys"@, "-l"@] + (if proto_only {
        seq!["--proto"@]
    } else {
        seq![]
    }) + match priority {
        Some(p) => seq!["--priority"@, dumpsys_priority_name(p)],
        None => seq![],
    }
}

impl<'a> AdbShell<'a> {
    /// `settings list <namespace>`.
    pub fn list_settings_command(&self, settings_type: SettingsType) -> (c: AdbCommand)
        ensures
            c@ == shell_view(*self.parent, seq!["settings"@, "list"@, settings_name(settings_type)], None, false),
    {
        let v = with_word(pair("settings", "list".to_owned()), settings_type.as_str());
        assert(v.deep_view() =~= seq!["settings"@, "list"@, settings_name(settings_type)]);
        self.command(v)
    }

    /// The settings that `settings list` printed, read as a Java properties
    /// text: one property for each key of the map that reading builds (in
    /// the map's order); a text that does not read is `PropertiesError` with
    /// the reader's message.
    pub fn list_settings(&self, stdout: &Vec<u8>) -> (r: Result<Vec<Property>>)
        ensures
            r is Ok <==> properties_of(stdout@) is Some,
            r matches Ok(v) ==> {
                let m = properties_of(stdout@)->0;
                &&& v@.len() == m.dom().len()
                &&& forall|i: int| 0 <= i < v@.len() ==> #[trigger] m.dom().contains(v@[i].key@) && m[v@[i].key@]
                    == v@[i].value@
                &&& forall|i: int, j: int| 0 <= i < j < v@.len() ==> v@[i].key@ != v@[j].key@
            },
            r matches Err(e) ==> e matches AdbError::PropertiesError(_),
    {
        match read_properties(stdout.as_slice()) {
            Ok(pairs) => {
                let mut out: Vec<Property> = Vec::new();
                let rest = pairs;
                let ghost all = rest@;
                let mut idx: usize = 0;
                while idx < rest.len()
                    invariant
                        idx <= rest@.len(),
                        rest@ == all,
                        out@.len() == idx,
                        forall|k: int| 0 <= k < idx ==> out@[k].key@ == all[k].0@ && out@[k].value@ == all[k].1@,
                    decreases rest@.len() - idx,
                {
                    let k = rest[idx].0.clone();
                    let v = rest[idx].1.clone();
                    out.push(Property { key: k, value: v });
                    idx = idx + 1;
                }
                proof {
                    let m = properties_of(stdout@)->0;
                    assert forall|i: int| 0 <= i < out@.len() implies #[trigger] m.dom().contains(out@[i].key@)
                        && m[out@[i].key@] == out@[i].value@ by {
                        assert(m.dom().contains(all[i].0@));
                    }
                    assert forall|i: int, j: int| 0 <= i < j < out@.len() implies out@[i].key@
                        != out@[j].key@ by {
                        assert(all[i].0@ != all[j].0@);
                    }
                }
                Ok(out)
            },
            Err(msg) => Err(AdbError::PropertiesError(msg)),
        }
    }

    /// `settings get <namespace> <key>`.
    pub fn get_setting_command(&self, settings_type: SettingsType, key: &str) -> (c: AdbCommand)
        ensures
            c@ == shell_view(
                *self.parent,
                seq!["settings"@, "get"@, settings_name(settings_type), key@],
                None,
                false,
            ),
    {
        let v = push_str(with_word(pair("settings", "get".to_owned()), settings_type.as_str()), key.to_owned());
        assert(v.deep_view() =~= seq!["settings"@, "get"@, settings_name(settings_type), key@]);
        self.command(v)
    }

    /// The value that `settings get` printed: the output trimmed at both
    /// ends; no output at all, or the text `null` (an unset or deleted
    /// setting), is `None`; output that is not UTF-8 is the `Errno`
    /// `EINVAL`.
    pub fn get_setting(&self, stdout: &Vec<u8>) -> (r: Result<Option<String>>)
        ensures
            stdout@.len() == 0 ==> r == Ok::<Option<String>, AdbError>(None),
            stdout@.len() > 0 ==> match utf8_text(stdout@) {
                Some(t) => if trim(t) == "null"@ {
                    r == Ok::<Option<String>, AdbError>(None)
                } else {
                    r matches Ok(Some(v)) && v@ == trim(t)
                },
                None => r == Err::<Option<String>, AdbError>(AdbError::Errno(22)),
            },
    {
        if stdout.len() == 0 {
            return Ok(None);
        }
        match rustix_text(stdout) {
            Ok(v) => {
                let o = trim_string(v.as_slice());
                if str_eq(o.as_str(), "null") {
                    Ok(None)
                } else {
                    Ok(Some(o))
                }
            },
            Err(e) => Err(e),
        }
    }

    /// The value that `settings get` printed, as the older client reads it:
    /// the whole output without trailing white space; output that is not
    /// UTF-8 is `Unknown("unexpected error")`.
    pub fn get_setting_text(&self, stdout: &Vec<u8>) -> (r: Result<Option<String>>)
        ensures
            match utf8_text(stdout@) {
                Some(t) => r matches Ok(Some(v)) && v@ == trim_end(t),
                None => r matches Err(AdbError::Unknown(m)) && m@ == "unexpected error"@,
            },
    {
        match cmd_text(stdout) {
            Some(v) => Ok(Some(trim_end_string(v.as_slice()))),
            None => Err(AdbError::Unknown("unexpected error".to_owned())),
        }
    }

    /// `settings put <namespace> <key> <value>`.
    pub fn put_setting(&self, settings_type: SettingsType, key: &str, value: &str) -> (c: AdbCommand)
        ensures
            c@ == shell_view(
                *self.parent,
                seq!["settings"@, "put"@, settings_name(settings_type), key@, value@],
                None,
                false,
            ),
    {
        let v = push_str(
            push_str(with_word(pair("settings", "put".to_owned()), settings_type.as_str()), key.to_owned()),
            value.to_owned(),
        );
        assert(v.deep_view() =~= seq!["settings"@, "put"@, settings_name(settings_type), key@, value@]);
        self.command(v)
    }

    /// `settings delete <namespace> <key>`.
    pub fn delete_setting(&self, settings_type: SettingsType, key: &str) -> (c: AdbCommand)
        ensures
            c@ == shell_view(
                *self.parent,
                seq!["settings"@, "delete"@, settings_name(settings_type), key@],
                None,
                false,
            ),
    {
        let v = push_str(with_word(pair("settings", "delete".to_owned()), settings_type.as_str()), key.to_owned());
        assert(v.deep_view() =~= seq!["settings"@, "delete"@, settings_name(settings_type), key@]);
        self.command(v)
    }

    /// `dumpsys -l [--proto] [--priority <level>]`: lists the services.
    pub fn dumpsys_list_command(&self, proto_only: bool, priority: Option<DumpsysPriority>) -> (c: AdbCommand)
        ensures
            c@ == shell_view(*self.parent, dumpsys_list_args(proto_only, priority), None, false),
    {
        let mut v = pair("dumpsys", "-l".to_owned());
        if proto_only {
            v = with_word(v, "--proto");
        }
        match priority {
            Some(p) => {
                v = with_word(with_word(v, "--priority"), p.as_str());
            },
            None => {},
        }
        assert(v.deep_view() =~= dumpsys_list_args(proto_only, priority));
        self.command(v)
    }

    /// The services that `dumpsys -l` listed; see [`service_names`].
    pub fn dumpsys_list(&self, stdout: &Vec<u8>) -> (r: Vec<String>)
        ensures
            r.deep_view() == service_names(read_lines_of(stdout@)),
    {
        let lines = read_lines(stdout.as_slice());
        let ghost ls = lines.deep_view();
        let mut out: Vec<String> = Vec::new();
        let mut i: usize = 0;
        assert(ls.subrange(0, 0) =~= Seq::<Seq<char>>::empty());
        while i < lines.len()
            invariant
                i <= lines@.len(),
                ls == lines.deep_view(),
                out.deep_view() == service_names(ls.subrange(0, i as int)),
            decreases lines@.len() - i,
        {
            proof {
                assert(ls.subrange(0, i + 1).drop_last() =~= ls.subrange(0, i as int));
                assert(ls.subrange(0, i + 1).last() == lines@[i as int]@);
            }
            let t = crate::text::trimmed(lines[i].as_slice(), 0, lines[i].len());
            proof {
                assert(lines@[i as int]@.subrange(0, lines@[i as int]@.len() as int) =~= lines@[i as int]@);
            }
            let n = t.len();
            if n > 0 && t[n - 1] == ':' {
            } else {
                let s = crate::outside::string_of(t.as_slice());
                out = push_str(out, s);
            }
            i = i + 1;
        }
        assert(ls.subrange(0, lines@.len() as int) =~= ls);
        out
    }

    /// `dumpsys input_method | egrep 'mInteractive=(true|false)'`, one shell
    /// word.
    pub fn is_screen_on_command(&self) -> (c: AdbCommand)
        ensures
            c@ == shell_view(
                *self.parent,
                seq!["dumpsys input_method | egrep 'mInteractive=(true|false)'"@],
                None,
                false,
            ),
    {
        self.command(single("dumpsys input_method | egrep 'mInteractive=(true|false)'"))
    }

    /// Whether the screen is on: the output holds `mInteractive=true`;
    /// output that is not UTF-8 is `ParseInputError`.
    pub fn is_screen_on(&self, stdout: &Vec<u8>) -> (r: Result<bool>)
        ensures
            match utf8_text(stdout@) {
                Some(t) => r == Ok::<bool, AdbError>(text_contains(t, "mInteractive=true"@)),
                None => r == Err::<bool, AdbError>(AdbError::ParseInputError),
            },
    {
        match cmd_text(stdout) {
            Some(v) => {
                let pat = crate::outside::chars_of("mInteractive=true");
                Ok(contains_text(v.as_slice(), pat.as_slice()))
            },
            None => Err(AdbError::ParseInputError),
        }
    }

    /// `getenforce`.
    pub fn get_enforce_command(&self) -> (c: AdbCommand)
        ensures
            c@ == shell_view(*self.parent, seq!["getenforce"@], None, false),
    {
        self.command(single("getenforce"))
    }

    /// The SELinux mode that `getenforce` printed; see
    /// [`SELinuxType::try_from_bytes`].
    pub fn get_enforce(&self, stdout: &Vec<u8>) -> (r: Result<SELinuxType>)
        ensures
            match utf8_text(stdout@) {
                None => r matches Err(AdbError::ParseSELinuxTypeError(e)) && e.msg is Some,
                Some(s) => match selinux_of(s) {
                    Some(t) => r == Ok::<SELinuxType, AdbError>(t),
                    None => r matches Err(AdbError::ParseSELinuxTypeError(e)) && e.msg matches Some(m) && m@
                        == "invalid value: "@ + trim(s),
                },
            },
    {
        match SELinuxType::try_from_bytes(stdout) {
            Ok(t) => Ok(t),
            Err(e) => Err(AdbError::ParseSELinuxTypeError(e)),
        }
    }
}

} // verus!

verus! {

/// What follows the event text that ends at `p` in a `getevent -S` record:
/// white space, `name:`, white space, and a nonempty name in double quotes.
/// The bounds of the name.
pub open spec fn name_tail(s: Seq<char>, p: int) -> Option<(int, int)> {
    let r = ws_end(s, p);
    if occurs_at(s, "name:"@, r) {
        let t = ws_end(s, r + 5);
        if t < s.len() && s[t] == '"' {
            let u = next_index(s, '"', t + 1);
            if t + 1 < u < s.len() {
                Some((t + 1, u))
            } else {
                None
            }
        } else {
            None
        }
    } else {
        None
    }
}

/// The longest event text `s[q..p]` with `p` at most `e` that a name
/// follows: the greedy `[^\n]+` of the record pattern.
pub open spec fn event_end(s: Seq<char>, q: int, e: int) -> Option<int>
    decreases e - q,
{
    if e <= q {
        None
    } else if name_tail(s, e) is Some {
        Some(e)
    } else {
        event_end(s, q, e - 1)
    }
}

/// The record of `getevent -S` that starts at `pos`, as the pattern
/// `^add\s+device\s+[0-9]+:\s(?P<event>[^\n]+)\s*name:\s*"(?P<name>[^"]+)"\n?`
/// matches it there: the bounds of the event, of the name, and where the
/// match ends.
pub open spec fn event_record(s: Seq<char>, pos: int) -> Option<(int, int, int, int, int)> {
    if occurs_at(s, "add"@, pos) {
        let a = ws_end(s, pos + 3);
        if a > pos + 3 && occurs_at(s, "device"@, a) {
            let b = ws_end(s, a + 6);
            let d = digits_end(s, b);
            if b > a + 6 && d > b && d + 1 < s.len() && s[d] == ':' && is_ws(s[d + 1]) {
                let q = d + 2;
                match event_end(s, q, next_index(s, '\n', q)) {
                    Some(p) => {
                        let n = name_tail(s, p)->0;
                        let end = if n.1 + 1 < s.len() && s[n.1 + 1] == '\n' {
                            n.1 + 2
                        } else {
                            n.1 + 1
                        };
                        Some((q, p, n.0, n.1, end))
                    },
                    None => None,
                }
            } else {
                None
            }
        } else {
            None
        }
    } else {
        None
    }
}

/// The (event, name) pairs of the records that follow one another from
/// `pos`, as the loop of the reader takes them until the pattern no longer
/// matches.
pub open spec fn events_from(s: Seq<char>, pos: int) -> Seq<(Seq<char>, Seq<char>)>
    decreases s.len() - pos,
{
    match event_record(s, pos) {
        Some(r) => if pos < r.4 <= s.len() {
            seq![(s.subrange(r.0, r.1), s.subrange(r.2, r.3))] + events_from(s, r.4)
        } else {
            seq![]
        },
        None => seq![],
    }
}

fn name_tail_at(s: &[char], p: usize) -> (r: Option<(usize, usize)>)
    requires
        p <= s@.len(),
        s@.len() == s.len(),
    ensures
        match r {
            Some(x) => name_tail(s@, p as int) == Some((x.0 as int, x.1 as int)) && x.0 < x.1 < s@.len(),
            None => name_tail(s@, p as int) is None,
        },
{
    let lit = crate::outside::chars_of("name:");
    proof {
        reveal_strlit("name:");
    }
    let r = skip_spaces(s, p);
    if !crate::text::matches_at(s, lit.as_slice(), r) {
        return None;
    }
    assert(lit@.len() == 5);
    assert(r + 5 <= s@.len());
    let t = skip_spaces(s, r + 5);
    if t < s.len() && s[t] == '"' {
        let u = next_index_of(s, '"', t + 1);
        if t + 1 < u && u < s.len() {
            Some((t + 1, u))
        } else {
            None
        }
    } else {
        None
    }
}

fn event_end_at(s: &[char], q: usize, e: usize) -> (r: Option<usize>)
    requires
        e <= s@.len(),
        s@.len() == s.len(),
    ensures
        match r {
            Some(p) => event_end(s@, q as int, e as int) == Some(p as int) && q < p <= e && name_tail(
                s@,
                p as int,
            ) is Some,
            None => event_end(s@, q as int, e as int) is None,
        },
{
    let mut p = e;
    while p > q
        invariant
            p <= e <= s@.len(),
            event_end(s@, q as int, p as int) == event_end(s@, q as int, e as int),
        decreases p,
    {
        if name_tail_at(s, p).is_some() {
            return Some(p);
        }
        p = p - 1;
    }
    None
}

fn event_record_at(s: &[char], pos: usize) -> (r: Option<(usize, usize, usize, usize, usize)>)
    requires
        pos <= s@.len(),
        s@.len() == s.len(),
    ensures
        match r {
            Some(x) => event_record(s@, pos as int) == Some(
                (x.0 as int, x.1 as int, x.2 as int, x.3 as int, x.4 as int),
            ) && x.0 < x.1 <= s@.len() && x.2 < x.3 < s@.len() && x.4 <= s@.len(),
            None => event_record(s@, pos as int) is None,
        },
{
    let add = crate::outside::chars_of("add");
    let device = crate::outside::chars_of("device");
    proof {
        reveal_strlit("add");
        reveal_strlit("device");
    }
    if !crate::text::matches_at(s, add.as_slice(), pos) {
        return None;
    }
    assert(add@.len() == 3);
    let a = skip_spaces(s, pos + 3);
    if !(a > pos + 3 && crate::text::matches_at(s, device.as_slice(), a)) {
        return None;
    }
    assert(device@.len() == 6);
    let b = skip_spaces(s, a + 6);
    let d = crate::text::skip_digits(s, b);
    if !(b > a + 6 && d > b && d < s.len() && s.len() - d >= 2 && s[d] == ':'
        && crate::text::is_whitespace(s[d + 1])) {
        return None;
    }
    let q = d + 2;
    let le = next_index_of(s, '\n', q);
    match event_end_at(s, q, le) {
        Some(p) => {
            match name_tail_at(s, p) {
                Some(n) => {
                    let end = if n.1 + 1 < s.len() && s[n.1 + 1] == '\n' {
                        n.1 + 2
                    } else {
                        n.1 + 1
                    };
                    Some((q, p, n.0, n.1, end))
                },
                None => None,
            }
        },
        None => None,
    }
}

impl<'a> AdbShell<'a> {
    /// `getevent -S`: the input devices.
    pub fn get_events_command(&self) -> (c: AdbCommand)
        ensures
            c@ == shell_view(*self.parent, seq!["getevent"@, "-S"@], None, false),
    {
        self.command(pair("getevent", "-S".to_owned()))
    }

    /// The (device, name) pairs of the records at the start of what
    /// `getevent -S` printed, one after another (see [`events_from`]);
    /// output that is not UTF-8 is the `Errno` `EINVAL`.
    pub fn get_events(&self, stdout: &Vec<u8>) -> (r: Result<Vec<(String, String)>>)
        ensures
            match utf8_text(stdout@) {
                Some(t) => r matches Ok(v) && v@.len() == events_from(t, 0).len() && forall|i: int|
                    0 <= i < v@.len() ==> (#[trigger] v@[i]).0@ == events_from(t, 0)[i].0 && v@[i].1@
                        == events_from(t, 0)[i].1,
                None => r == Err::<Vec<(String, String)>, AdbError>(AdbError::Errno(22)),
            },
    {
        let s = match rustix_text(stdout) {
            Ok(v) => v,
            Err(e) => {
                return Err(e);
            },
        };
        let ghost t = s@;
        let mut out: Vec<(String, String)> = Vec::new();
        let mut pos: usize = 0;
        loop
            invariant
                pos <= s@.len(),
                s@ == t,
                utf8_text(stdout@) == Some(t),
                out@.len() + events_from(t, pos as int).len() == events_from(t, 0).len(),
                forall|i: int|
                    0 <= i < out@.len() ==> (#[trigger] out@[i]).0@ == events_from(t, 0)[i].0 && out@[i].1@
                        == events_from(t, 0)[i].1,
                forall|i: int|
                    0 <= i < events_from(t, pos as int).len() ==> #[trigger] events_from(t, pos as int)[i]
                        == events_from(t, 0)[out@.len() + i],
            ensures
                utf8_text(stdout@) == Some(t),
                out@.len() == events_from(t, 0).len(),
                forall|i: int|
                    0 <= i < out@.len() ==> (#[trigger] out@[i]).0@ == events_from(t, 0)[i].0 && out@[i].1@
                        == events_from(t, 0)[i].1,
            decreases s@.len() - pos,
        {
            match event_record_at(s.as_slice(), pos) {
                Some(rec) => {
                    if !(pos < rec.4 && rec.4 <= s.len()) {
                        assert(events_from(t, pos as int).len() == 0);
                        break;
                    }
                    let ghost rest = events_from(t, rec.4 as int);
                    proof {
                        assert(events_from(t, pos as int) == seq![
                            (t.subrange(rec.0 as int, rec.1 as int), t.subrange(rec.2 as int, rec.3 as int)),
                        ] + rest);
                    }
                    let ev = string_from(s.as_slice(), rec.0, rec.1);
                    let nm = string_from(s.as_slice(), rec.2, rec.3);
                    let ghost n0 = out@.len();
                    out.push((ev, nm));
                    proof {
                        assert(events_from(t, pos as int)[0] == events_from(t, 0)[n0 as int]);
                        assert forall|i: int| 0 <= i < rest.len() implies #[trigger] rest[i] == events_from(
                            t,
                            0,
                        )[out@.len() + i] by {
                            assert(events_from(t, pos as int)[i + 1] == rest[i]);
                        }
                    }
                    pos = rec.4;
                },
                None => {
                    assert(events_from(t, pos as int).len() == 0);
                    break;
                },
            }
        }
        Ok(out)
    }
}

} // verus!

verus! {

/// How many command paths the cache keeps.
pub const COMMAND_CACHE_SIZE: usize = 10;

/// An empty cache of command paths that keeps [`COMMAND_CACHE_SIZE`]
/// entries.
pub fn command_path_cache() -> (c: crate::outside::PathCache)
    ensures
        crate::outside::path_cache_entries(c).dom().len() == 0,
        crate::outside::path_cache_entries(c).dom().finite(),
        crate::outside::path_cache_capacity(c) == COMMAND_CACHE_SIZE,
{
    crate::outside::new_path_cache(COMMAND_CACHE_SIZE)
}

/// What [`AdbShell::get_command_path`] asks for.
pub enum CommandPath {
    /// The cache knew the path (or that there is none).
    Known(Option<String>),
    /// Run this command and hand its output to
    /// [`AdbShell::store_command_path`].
    Lookup(AdbCommand),
}

/// The path that `command -v` printed: the output, trimmed, when it is
/// UTF-8 and not empty.
pub open spec fn command_path_of(b: Seq<u8>) -> Option<Seq<char>> {
    match utf8_text(b) {
        Some(t) => if trim(t).len() > 0 {
            Some(trim(t))
        } else {
            None
        },
        None => None,
    }
}

impl<'a> AdbShell<'a> {
    /// The key of a command in the cache of paths: the device address
    /// written out, then the command.
    pub fn command_path_key(&self, command: &str) -> (k: String)
        ensures
            k@ == crate::device::address_text(self.parent.device.0.0) + command@,
    {
        let mut k = self.parent.device.0.to_string();
        k.append(command);
        k
    }

    /// `command -v <command>`, one shell word.
    pub fn get_command_path_command(&self, command: &str) -> (c: AdbCommand)
        ensures
            c@ == shell_view(*self.parent, seq!["command -v "@ + command@], None, false),
    {
        let mut w = "command -v ".to_owned();
        w.append(command);
        let ghost wv = w@;
        let v = push_str(Vec::new(), w);
        assert(v.deep_view() =~= seq![wv]);
        self.command(v)
    }

    /// The path of `command` on the device from the cache, or the command
    /// that looks it up when the cache does not know it.
    pub fn get_command_path(&self, cache: &mut crate::outside::PathCache, command: &str) -> (r: CommandPath)
        ensures
            ({
                let key = crate::device::address_text(self.parent.device.0.0) + command@;
                &&& crate::outside::path_cache_entries(*final(cache)) == crate::outside::path_cache_entries(
                    *old(cache),
                )
                &&& crate::outside::path_cache_capacity(*final(cache)) == crate::outside::path_cache_capacity(
                    *old(cache),
                )
                &&& match r {
                    CommandPath::Known(p) => crate::outside::path_cache_entries(*old(cache)).dom().contains(key)
                        && crate::outside::path_cache_entries(*old(cache))[key] == crate::outside::path_view(p),
                    CommandPath::Lookup(c) => !crate::outside::path_cache_entries(*old(cache)).dom().contains(key)
                        && c@ == shell_view(*self.parent, seq!["command -v "@ + command@], None, false),
                }
            }),
    {
        let key = self.command_path_key(command);
        match crate::outside::path_cache_get(cache, &key) {
            Some(p) => CommandPath::Known(p),
            None => CommandPath::Lookup(self.get_command_path_command(command)),
        }
    }

    /// The path that the lookup of [`AdbShell::get_command_path`] found
    /// (`None` when the command could not run), kept in the cache and
    /// returned; see [`command_path_of`].
    pub fn store_command_path(&self, cache: &mut crate::outside::PathCache, command: &str, stdout: Option<&Vec<u8>>) -> (r:
        Option<String>)
        ensures
            ({
                let key = crate::device::address_text(self.parent.device.0.0) + command@;
                let found = match stdout {
                    Some(b) => command_path_of(b@),
                    None => None,
                };
                &&& crate::outside::path_view(r) == found
                &&& crate::outside::path_cache_entries(*final(cache)).dom().contains(key)
                &&& crate::outside::path_cache_entries(*final(cache))[key] == found
                &&& crate::outside::path_cache_capacity(*final(cache)) == crate::outside::path_cache_capacity(
                    *old(cache),
                )
            }),
    {
        let found = match stdout {
            Some(b) => match rustix_text(b) {
                Ok(v) => {
                    let t = crate::text::trimmed(v.as_slice(), 0, v.len());
                    proof {
                        assert(v@.subrange(0, v@.len() as int) =~= v@);
                    }
                    if t.len() > 0 {
                        Some(crate::outside::string_of(t.as_slice()))
                    } else {
                        None
                    }
                },
                Err(_) => None,
            },
            None => None,
        };
        let key = self.command_path_key(command);
        let stored = match &found {
            Some(p) => Some(p.clone()),
            None => None,
        };
        crate::outside::path_cache_set(cache, key, stored);
        found
    }

    /// The path found, or `NotFound` when there is none.
    pub fn command_path_result(&self, found: Option<String>) -> (r: Result<String>)
        ensures
            match found {
                Some(p) => r == Ok::<String, AdbError>(p),
                None => r == Err::<String, AdbError>(AdbError::NotFound),
            },
    {
        match found {
            Some(p) => Ok(p),
            None => Err(AdbError::NotFound),
        }
    }
}

} // verus!
