//! Android intents and the `am` arguments they stand for.
use vstd::prelude::*;
use crate::command::push_str;
use crate::text::{int_decimal, i64_string, str_eq};

verus! {

/// The extras of an intent, each kind a list of (key, value) entries in the
/// order they were put; a key stands at most once in a kind when the
/// entries come from the `put_*` methods. Float values are held as the
/// texts they are written as.
pub struct Extra {
    pub es: Vec<(String, String)>,
    pub ez: Vec<(String, bool)>,
    pub ei: Vec<(String, i32)>,
    pub el: Vec<(String, i64)>,
    pub ef: Vec<(String, String)>,
    pub eu: Vec<(String, String)>,
    pub ecn: Vec<(String, String)>,
    pub eia: Vec<(String, Vec<i32>)>,
    pub ela: Vec<(String, Vec<i64>)>,
    pub efa: Vec<(String, Vec<String>)>,
    pub esa: Vec<(String, Vec<String>)>,
    pub grant_read_uri_permission: bool,
    pub grant_write_uri_permission: bool,
    pub exclude_stopped_packages: bool,
    pub include_stopped_packages: bool,
}

/// An intent for `am start`, `am startservice` and `am broadcast`.
pub struct Intent {
    pub action: Option<String>,
    pub data: Option<String>,
    pub mime_type: Option<String>,
    pub category: Option<String>,
    pub component: Option<String>,
    pub package: Option<String>,
    pub user_id: Option<String>,
    pub flags: u32,
    pub receiver_foreground: bool,
    pub wait: bool,
    pub extra: Extra,
}

/// Texts joined with `sep` between them.
pub open spec fn join_with(parts: Seq<Seq<char>>, sep: Seq<char>) -> Seq<char>
    decreases parts.len(),
{
    if parts.len() == 0 {
        seq![]
    } else if parts.len() == 1 {
        parts[0]
    } else {
        join_with(parts.drop_last(), sep) + sep + parts.last()
    }
}

/// The words `<flag> <key> <value>` of entries.
pub open spec fn entry_words(flag: Seq<char>, kv: Seq<(Seq<char>, Seq<char>)>) -> Seq<Seq<char>> {
    Seq::new(kv.len(), |i: int| flag + " "@ + kv[i].0 + " "@ + kv[i].1)
}

/// Entries with text values, as texts.
pub open spec fn text_entries(v: Seq<(String, String)>) -> Seq<(Seq<char>, Seq<char>)> {
    Seq::new(v.len(), |i: int| (v[i].0@, v[i].1@))
}

/// `true` or `false`.
pub open spec fn bool_text(b: bool) -> Seq<char> {
    if b {
        "true"@
    } else {
        "false"@
    }
}

/// Entries with boolean values, as texts.
pub open spec fn bool_entries(v: Seq<(String, bool)>) -> Seq<(Seq<char>, Seq<char>)> {
    Seq::new(v.len(), |i: int| (v[i].0@, bool_text(v[i].1)))
}

/// Entries with `i32` values, as texts.
pub open spec fn i32_entries(v: Seq<(String, i32)>) -> Seq<(Seq<char>, Seq<char>)> {
    Seq::new(v.len(), |i: int| (v[i].0@, int_decimal(v[i].1 as int)))
}

/// Entries with `i64` values, as texts.
pub open spec fn i64_entries(v: Seq<(String, i64)>) -> Seq<(Seq<char>, Seq<char>)> {
    Seq::new(v.len(), |i: int| (v[i].0@, int_decimal(v[i].1 as int)))
}

/// Entries with `i32` lists, the numbers joined with commas.
pub open spec fn i32_list_entries(v: Seq<(String, Vec<i32>)>) -> Seq<(Seq<char>, Seq<char>)> {
    Seq::new(
        v.len(),
        |i: int| (v[i].0@, join_with(Seq::new(v[i].1@.len(), |j: int| int_decimal(v[i].1@[j] as int)), ","@)),
    )
}

/// Entries with `i64` lists, the numbers joined with commas.
pub open spec fn i64_list_entries(v: Seq<(String, Vec<i64>)>) -> Seq<(Seq<char>, Seq<char>)> {
    Seq::new(
        v.len(),
        |i: int| (v[i].0@, join_with(Seq::new(v[i].1@.len(), |j: int| int_decimal(v[i].1@[j] as int)), ","@)),
    )
}

/// Entries with text lists, the texts joined with commas.
pub open spec fn text_list_entries(v: Seq<(String, Vec<String>)>) -> Seq<(Seq<char>, Seq<char>)> {
    Seq::new(v.len(), |i: int| (v[i].0@, join_with(v[i].1.deep_view(), ","@)))
}

/// A flag word when set.
pub open spec fn word_if(b: bool, w: Seq<char>) -> Seq<Seq<char>> {
    if b {
        seq![w]
    } else {
        seq![]
    }
}

/// The words of the extras, in the order `am` reads them; string arrays
/// are written with `am`'s flag for them, `--esa`.
pub open spec fn extra_words(e: Extra) -> Seq<Seq<char>> {
    entry_words("--es"@, text_entries(e.es@)) + entry_words("--ez"@, bool_entries(e.ez@)) + entry_words(
        "--ei"@,
        i32_entries(e.ei@),
    ) + entry_words("--el"@, i64_entries(e.el@)) + entry_words("--ef"@, text_entries(e.ef@)) + entry_words(
        "--eu"@,
        text_entries(e.eu@),
    ) + entry_words("--ecn"@, text_entries(e.ecn@)) + entry_words("--eia"@, i32_list_entries(e.eia@))
        + entry_words("--ela"@, i64_list_entries(e.ela@)) + entry_words("--efa"@, text_list_entries(e.efa@))
        + entry_words("--esa"@, text_list_entries(e.esa@)) + word_if(
        e.grant_read_uri_permission,
        "--grant-read-uri-permission"@,
    ) + word_if(e.grant_write_uri_permission, "--grant-write-uri-permission"@) + word_if(
        e.exclude_stopped_packages,
        "--exclude-stopped-packages"@,
    ) + word_if(e.include_stopped_packages, "--include-stopped-packages"@)
}

/// A word `<flag> <value>` when the value is set.
pub open spec fn opt_word(flag: Seq<char>, v: Option<String>) -> Seq<Seq<char>> {
    match v {
        Some(s) => seq![flag + " "@ + s@],
        None => seq![],
    }
}

/// The words of an intent, its extras last as one word.
pub open spec fn intent_words(i: Intent) -> Seq<Seq<char>> {
    opt_word("-a"@, i.action) + opt_word("-d"@, i.data) + opt_word("-t"@, i.mime_type) + opt_word(
        "-c"@,
        i.category,
    ) + opt_word("-n"@, i.component) + opt_word("-p"@, i.package) + opt_word("--user"@, i.user_id)
        + word_if(i.receiver_foreground, "--receiver-foreground"@) + word_if(i.wait, "-W"@) + seq![
        join_with(extra_words(i.extra), " "@),
    ]
}

/// The words joined with single spaces.
pub fn join_words(words: &Vec<String>, sep: &str) -> (r: String)
    ensures
        r@ == join_with(words.deep_view(), sep@),
{
    let mut r = String::new();
    let mut i: usize = 0;
    let ghost ws = words.deep_view();
    while i < words.len()
        invariant
            i <= words@.len(),
            ws == words.deep_view(),
            r@ == join_with(ws.subrange(0, i as int), sep@),
        decreases words@.len() - i,
    {
        proof {
            assert(ws.subrange(0, i + 1).drop_last() =~= ws.subrange(0, i as int));
            assert(ws.subrange(0, i + 1).last() == words@[i as int]@);
        }
        if i > 0 {
            r.append(sep);
        }
        r.append(words[i].as_str());
        proof {
            if i == 0 {
                assert(ws.subrange(0, 1).len() == 1);
                assert(r@ =~= ws.subrange(0, 1)[0]);
            }
        }
        i = i + 1;
    }
    assert(ws.subrange(0, words@.len() as int) =~= ws);
    r
}

fn entry_word(flag: &str, k: &String, v: &String) -> (r: String)
    ensures
        r@ == flag@ + " "@ + k@ + " "@ + v@,
{
    let mut r = flag.to_owned();
    r.append(" ");
    r.append(k.as_str());
    r.append(" ");
    r.append(v.as_str());
    r
}

fn push_entries(out: Vec<String>, flag: &str, kv: &Vec<(String, String)>) -> (r: Vec<String>)
    ensures
        r.deep_view() == out.deep_view() + entry_words(flag@, text_entries(kv@)),
{
    let mut r = out;
    let ghost r0 = r.deep_view();
    let mut i: usize = 0;
    while i < kv.len()
        invariant
            i <= kv@.len(),
            r.deep_view() == r0 + entry_words(flag@, text_entries(kv@.subrange(0, i as int))),
        decreases kv@.len() - i,
    {
        let ghost prev = r.deep_view();
        let w = entry_word(flag, &kv[i].0, &kv[i].1);
        r = push_str(r, w);
        assert(entry_words(flag@, text_entries(kv@.subrange(0, i + 1))) =~= entry_words(
            flag@,
            text_entries(kv@.subrange(0, i as int)),
        ).push(w@));
        i = i + 1;
    }
    assert(kv@.subrange(0, kv@.len() as int) =~= kv@);
    r
}

fn bool_word(b: bool) -> (r: String)
    ensures
        r@ == bool_text(b),
{
    if b {
        "true".to_owned()
    } else {
        "false".to_owned()
    }
}

fn numbers_text_i32(v: &Vec<i32>) -> (r: String)
    ensures
        r@ == join_with(Seq::new(v@.len(), |j: int| int_decimal(v@[j] as int)), ","@),
{
    let mut words: Vec<String> = Vec::new();
    let mut i: usize = 0;
    while i < v.len()
        invariant
            i <= v@.len(),
            words.deep_view() == Seq::new(i as nat, |j: int| int_decimal(v@[j] as int)),
        decreases v@.len() - i,
    {
        let ghost prev = words.deep_view();
        words = push_str(words, i64_string(v[i] as i64));
        assert(words.deep_view() =~= Seq::new((i + 1) as nat, |j: int| int_decimal(v@[j] as int)));
        i = i + 1;
    }
    join_words(&words, ",")
}

fn numbers_text_i64(v: &Vec<i64>) -> (r: String)
    ensures
        r@ == join_with(Seq::new(v@.len(), |j: int| int_decimal(v@[j] as int)), ","@),
{
    let mut words: Vec<String> = Vec::new();
    let mut i: usize = 0;
    while i < v.len()
        invariant
            i <= v@.len(),
            words.deep_view() == Seq::new(i as nat, |j: int| int_decimal(v@[j] as int)),
        decreases v@.len() - i,
    {
        let ghost prev = words.deep_view();
        words = push_str(words, i64_string(v[i]));
        assert(words.deep_view() =~= Seq::new((i + 1) as nat, |j: int| int_decimal(v@[j] as int)));
        i = i + 1;
    }
    join_words(&words, ",")
}

/// The entries of one kind with their values written as texts.
fn texts_of_bools(kv: &Vec<(String, bool)>) -> (r: Vec<(String, String)>)
    ensures
        text_entries(r@) == bool_entries(kv@),
{
    let mut r: Vec<(String, String)> = Vec::new();
    let mut i: usize = 0;
    while i < kv.len()
        invariant
            i <= kv@.len(),
            text_entries(r@) == bool_entries(kv@.subrange(0, i as int)),
        decreases kv@.len() - i,
    {
        let k = kv[i].0.clone();
        let w = bool_word(kv[i].1);
        let ghost prev = r@;
        let ghost kw = (k@, w@);
        r.push((k, w));
        assert(text_entries(r@) =~= text_entries(prev).push(kw));
        assert(bool_entries(kv@.subrange(0, i + 1)) =~= bool_entries(kv@.subrange(0, i as int)).push(kw));
        i = i + 1;
    }
    assert(kv@.subrange(0, kv@.len() as int) =~= kv@);
    r
}

fn texts_of_i32(kv: &Vec<(String, i32)>) -> (r: Vec<(String, String)>)
    ensures
        text_entries(r@) == i32_entries(kv@),
{
    let mut r: Vec<(String, String)> = Vec::new();
    let mut i: usize = 0;
    while i < kv.len()
        invariant
            i <= kv@.len(),
            text_entries(r@) == i32_entries(kv@.subrange(0, i as int)),
        decreases kv@.len() - i,
    {
        let k = kv[i].0.clone();
        let w = i64_string(kv[i].1 as i64);
        let ghost prev = r@;
        let ghost kw = (k@, w@);
        r.push((k, w));
        assert(text_entries(r@) =~= text_entries(prev).push(kw));
        assert(i32_entries(kv@.subrange(0, i + 1)) =~= i32_entries(kv@.subrange(0, i as int)).push(kw));
        i = i + 1;
    }
    assert(kv@.subrange(0, kv@.len() as int) =~= kv@);
    r
}

fn texts_of_i64(kv: &Vec<(String, i64)>) -> (r: Vec<(String, String)>)
    ensures
        text_entries(r@) == i64_entries(kv@),
{
    let mut r: Vec<(String, String)> = Vec::new();
    let mut i: usize = 0;
    while i < kv.len()
        invariant
            i <= kv@.len(),
            text_entries(r@) == i64_entries(kv@.subrange(0, i as int)),
        decreases kv@.len() - i,
    {
        let k = kv[i].0.clone();
        let w = i64_string(kv[i].1);
        let ghost prev = r@;
        let ghost kw = (k@, w@);
        r.push((k, w));
        assert(text_entries(r@) =~= text_entries(prev).push(kw));
        assert(i64_entries(kv@.subrange(0, i + 1)) =~= i64_entries(kv@.subrange(0, i as int)).push(kw));
        i = i + 1;
    }
    assert(kv@.subrange(0, kv@.len() as int) =~= kv@);
    r
}

fn texts_of_i32_lists(kv: &Vec<(String, Vec<i32>)>) -> (r: Vec<(String, String)>)
    ensures
        text_entries(r@) == i32_list_entries(kv@),
{
    let mut r: Vec<(String, String)> = Vec::new();
    let mut i: usize = 0;
    while i < kv.len()
        invariant
            i <= kv@.len(),
            text_entries(r@) == i32_list_entries(kv@.subrange(0, i as int)),
        decreases kv@.len() - i,
    {
        let k = kv[i].0.clone();
        let w = numbers_text_i32(&kv[i].1);
        let ghost prev = r@;
        let ghost kw = (k@, w@);
        r.push((k, w));
        assert(text_entries(r@) =~= text_entries(prev).push(kw));
        assert(i32_list_entries(kv@.subrange(0, i + 1)) =~= i32_list_entries(kv@.subrange(0, i as int)).push(kw));
        i = i + 1;
    }
    assert(kv@.subrange(0, kv@.len() as int) =~= kv@);
    r
}

fn texts_of_i64_lists(kv: &Vec<(String, Vec<i64>)>) -> (r: Vec<(String, String)>)
    ensures
        text_entries(r@) == i64_list_entries(kv@),
{
    let mut r: Vec<(String, String)> = Vec::new();
    let mut i: usize = 0;
    while i < kv.len()
        invariant
            i <= kv@.len(),
            text_entries(r@) == i64_list_entries(kv@.subrange(0, i as int)),
        decreases kv@.len() - i,
    {
        let k = kv[i].0.clone();
        let w = numbers_text_i64(&kv[i].1);
        let ghost prev = r@;
        let ghost kw = (k@, w@);
        r.push((k, w));
        assert(text_entries(r@) =~= text_entries(prev).push(kw));
        assert(i64_list_entries(kv@.subrange(0, i + 1)) =~= i64_list_entries(kv@.subrange(0, i as int)).push(kw));
        i = i + 1;
    }
    assert(kv@.subrange(0, kv@.len() as int) =~= kv@);
    r
}

fn texts_of_text_lists(kv: &Vec<(String, Vec<String>)>) -> (r: Vec<(String, String)>)
    ensures
        text_entries(r@) == text_list_entries(kv@),
{
    let mut r: Vec<(String, String)> = Vec::new();
    let mut i: usize = 0;
    while i < kv.len()
        invariant
            i <= kv@.len(),
            text_entries(r@) == text_list_entries(kv@.subrange(0, i as int)),
        decreases kv@.len() - i,
    {
        let k = kv[i].0.clone();
        let w = join_words(&kv[i].1, ",");
        let ghost prev = r@;
        let ghost kw = (k@, w@);
        r.push((k, w));
        assert(text_entries(r@) =~= text_entries(prev).push(kw));
        assert(text_list_entries(kv@.subrange(0, i + 1)) =~= text_list_entries(kv@.subrange(0, i as int)).push(kw));
        i = i + 1;
    }
    assert(kv@.subrange(0, kv@.len() as int) =~= kv@);
    r
}

fn push_if(out: Vec<String>, b: bool, w: &str) -> (r: Vec<String>)
    ensures
        r.deep_view() == out.deep_view() + word_if(b, w@),
{
    let ghost o = out.deep_view();
    if b {
        let r = push_str(out, w.to_owned());
        assert(r.deep_view() =~= o + word_if(b, w@));
        r
    } else {
        assert(out.deep_view() =~= o + word_if(b, w@));
        out
    }
}

fn push_opt(out: Vec<String>, flag: &str, v: &Option<String>) -> (r: Vec<String>)
    ensures
        r.deep_view() == out.deep_view() + opt_word(flag@, *v),
{
    let ghost o = out.deep_view();
    match v {
        Some(s) => {
            let mut w = flag.to_owned();
            w.append(" ");
            w.append(s.as_str());
            let r = push_str(out, w);
            assert(r.deep_view() =~= o + opt_word(flag@, *v));
            r
        },
        None => {
            assert(out.deep_view() =~= o + opt_word(flag@, *v));
            out
        },
    }
}

/// Entries seen by the texts of their keys.
pub open spec fn keyed<V: DeepView>(kv: Seq<(String, V)>) -> Seq<(Seq<char>, V::V)> {
    Seq::new(kv.len(), |i: int| (kv[i].0@, kv[i].1.deep_view()))
}

/// `i` is the first position of key `k`.
pub open spec fn first_key<V>(e: Seq<(Seq<char>, V)>, k: Seq<char>, i: int) -> bool {
    &&& 0 <= i < e.len()
    &&& e[i].0 == k
    &&& forall|j: int| 0 <= j < i ==> e[j].0 != k
}

/// Whether key `k` stands in the entries.
pub open spec fn has_key<V>(e: Seq<(Seq<char>, V)>, k: Seq<char>) -> bool {
    exists|i: int| 0 <= i < e.len() && e[i].0 == k
}

/// The first position of key `k`, when it stands in the entries.
pub open spec fn key_pos<V>(e: Seq<(Seq<char>, V)>, k: Seq<char>) -> int {
    choose|i: int| first_key(e, k, i)
}

/// The value of key `k`: that of its first entry.
pub open spec fn entry_value<V>(e: Seq<(Seq<char>, V)>, k: Seq<char>) -> Option<V> {
    if has_key(e, k) {
        Some(e[key_pos(e, k)].1)
    } else {
        None
    }
}

/// Entries after putting `v` under `k`: the first entry of `k` takes the
/// value, or the pair is added at the end when `k` stands nowhere.
pub open spec fn put_entry<V>(e: Seq<(Seq<char>, V)>, k: Seq<char>, v: V) -> Seq<(Seq<char>, V)> {
    if has_key(e, k) {
        e.update(key_pos(e, k), (k, v))
    } else {
        e.push((k, v))
    }
}

/// A key that stands in the entries has one first position.
pub proof fn lemma_first_key<V>(e: Seq<(Seq<char>, V)>, k: Seq<char>)
    requires
        has_key(e, k),
    ensures
        first_key(e, k, key_pos(e, k)),
        forall|i: int| first_key(e, k, i) ==> i == key_pos(e, k),
    decreases e.len(),
{
    let w = choose|i: int| 0 <= i < e.len() && e[i].0 == k;
    if exists|j: int| 0 <= j < w && e[j].0 == k {
        let sub = e.subrange(0, w);
        let j0 = choose|j: int| 0 <= j < w && e[j].0 == k;
        assert(sub[j0].0 == k);
        lemma_first_key(sub, k);
        let p = key_pos(sub, k);
        assert forall|j: int| 0 <= j < p implies e[j].0 != k by {
            assert(sub[j] == e[j]);
        }
        assert(sub[p] == e[p]);
        assert(first_key(e, k, p));
    } else {
        assert(first_key(e, k, w));
    }
    let c = key_pos(e, k);
    assert forall|i: int| first_key(e, k, i) implies i == c by {
        if i < c {
            assert(e[i].0 == k);
        } else if c < i {
            assert(e[c].0 == k);
        }
    }
}

fn put_entry_into<V: DeepView>(kv: &mut Vec<(String, V)>, name: &str, value: V)
    ensures
        keyed(final(kv)@) == put_entry(keyed(old(kv)@), name@, value.deep_view()),
{
    let ghost e = keyed(old(kv)@);
    let n = kv.len();
    let mut i: usize = 0;
    while i < n
        invariant
            n == kv@.len(),
            kv@ == old(kv)@,
            e == keyed(old(kv)@),
            i <= n,
            forall|j: int| 0 <= j < i ==> e[j].0 != name@,
        decreases n - i,
    {
        if str_eq(kv[i].0.as_str(), name) {
            proof {
                assert(first_key(e, name@, i as int));
                lemma_first_key(e, name@);
            }
            let ghost dv = value.deep_view();
            kv.set(i, (name.to_owned(), value));
            assert(keyed(kv@) =~= put_entry(e, name@, dv));
            return;
        }
        i = i + 1;
    }
    assert(!has_key(e, name@));
    let ghost dv = value.deep_view();
    kv.push((name.to_owned(), value));
    assert(keyed(kv@) =~= put_entry(e, name@, dv));
}

impl Extra {
    /// No extras.
    pub fn new() -> (e: Extra)
        ensures
            e.es@.len() == 0 && e.ez@.len() == 0 && e.ei@.len() == 0 && e.el@.len() == 0 && e.ef@.len() == 0
                && e.eu@.len() == 0 && e.ecn@.len() == 0 && e.eia@.len() == 0 && e.ela@.len() == 0
                && e.efa@.len() == 0 && e.esa@.len() == 0 && !e.grant_read_uri_permission
                && !e.grant_write_uri_permission && !e.exclude_stopped_packages && !e.include_stopped_packages,
    {
        Extra {
            es: Vec::new(),
            ez: Vec::new(),
            ei: Vec::new(),
            el: Vec::new(),
            ef: Vec::new(),
            eu: Vec::new(),
            ecn: Vec::new(),
            eia: Vec::new(),
            ela: Vec::new(),
            efa: Vec::new(),
            esa: Vec::new(),
            grant_read_uri_permission: false,
            grant_write_uri_permission: false,
            exclude_stopped_packages: false,
            include_stopped_packages: false,
        }
    }

    /// Puts a text extra (`--es`) under `name`, in place of the one there.
    pub fn put_string_extra(&mut self, name: &str, value: &str) -> (r: &mut Self)
        ensures
            keyed(r.es@) == put_entry(keyed(old(self).es@), name@, value@),
            *r == (Extra { es: r.es, ..*old(self) }),
            *final(self) == *final(r),
    {
        put_entry_into(&mut self.es, name, value.to_owned());
        self
    }

    /// Puts a boolean extra (`--ez`) under `name`, in place of the one there.
    pub fn put_bool_extra(&mut self, name: &str, value: bool) -> (r: &mut Self)
        ensures
            keyed(r.ez@) == put_entry(keyed(old(self).ez@), name@, value),
            *r == (Extra { ez: r.ez, ..*old(self) }),
            *final(self) == *final(r),
    {
        put_entry_into(&mut self.ez, name, value);
        self
    }

    /// Puts an integer extra (`--ei`) under `name`, in place of the one there.
    pub fn put_int_extra(&mut self, name: &str, value: i32) -> (r: &mut Self)
        ensures
            keyed(r.ei@) == put_entry(keyed(old(self).ei@), name@, value),
            *r == (Extra { ei: r.ei, ..*old(self) }),
            *final(self) == *final(r),
    {
        put_entry_into(&mut self.ei, name, value);
        self
    }

    /// Puts a long extra (`--el`) under `name`, in place of the one there.
    pub fn put_long_extra(&mut self, name: &str, value: i64) -> (r: &mut Self)
        ensures
            keyed(r.el@) == put_entry(keyed(old(self).el@), name@, value),
            *r == (Extra { el: r.el, ..*old(self) }),
            *final(self) == *final(r),
    {
        put_entry_into(&mut self.el, name, value);
        self
    }

    /// Puts a text array extra (`--esa`) under `name`, in place of the one there.
    pub fn put_string_array_extra(&mut self, name: &str, value: Vec<String>) -> (r: &mut Self)
        ensures
            keyed(r.esa@) == put_entry(keyed(old(self).esa@), name@, value.deep_view()),
            *r == (Extra { esa: r.esa, ..*old(self) }),
            *final(self) == *final(r),
    {
        put_entry_into(&mut self.esa, name, value);
        self
    }

    /// The extras as `am` arguments: the words of [`extra_words`] joined
    /// with spaces.
    pub fn to_string(&self) -> (s: String)
        ensures
            s@ == join_with(extra_words(*self), " "@),
    {
        let mut out: Vec<String> = Vec::new();
        out = push_entries(out, "--es", &self.es);
        out = push_entries(out, "--ez", &texts_of_bools(&self.ez));
        out = push_entries(out, "--ei", &texts_of_i32(&self.ei));
        out = push_entries(out, "--el", &texts_of_i64(&self.el));
        out = push_entries(out, "--ef", &self.ef);
        out = push_entries(out, "--eu", &self.eu);
        out = push_entries(out, "--ecn", &self.ecn);
        out = push_entries(out, "--eia", &texts_of_i32_lists(&self.eia));
        out = push_entries(out, "--ela", &texts_of_i64_lists(&self.ela));
        out = push_entries(out, "--efa", &texts_of_text_lists(&self.efa));
        out = push_entries(out, "--esa", &texts_of_text_lists(&self.esa));
        out = push_if(out, self.grant_read_uri_permission, "--grant-read-uri-permission");
        out = push_if(out, self.grant_write_uri_permission, "--grant-write-uri-permission");
        out = push_if(out, self.exclude_stopped_packages, "--exclude-stopped-packages");
        out = push_if(out, self.include_stopped_packages, "--include-stopped-packages");
        assert(out.deep_view() =~= extra_words(*self));
        join_words(&out, " ")
    }
}

impl Intent {
    /// An intent with nothing set.
    pub fn new() -> (i: Intent)
        ensures
            i.action is None && i.data is None && i.mime_type is None && i.category is None && i.component is None
                && i.package is None && i.user_id is None && i.flags == 0 && !i.receiver_foreground && !i.wait
                && i.extra.es@.len() == 0 && i.extra.ez@.len() == 0 && i.extra.ei@.len() == 0
                && i.extra.el@.len() == 0 && i.extra.ef@.len() == 0 && i.extra.eu@.len() == 0
                && i.extra.ecn@.len() == 0 && i.extra.eia@.len() == 0 && i.extra.ela@.len() == 0
                && i.extra.efa@.len() == 0 && i.extra.esa@.len() == 0 && !i.extra.grant_read_uri_permission
                && !i.extra.grant_write_uri_permission && !i.extra.exclude_stopped_packages
                && !i.extra.include_stopped_packages,
    {
        Intent {
            action: None,
            data: None,
            mime_type: None,
            category: None,
            component: None,
            package: None,
            user_id: None,
            flags: 0,
            receiver_foreground: false,
            wait: false,
            extra: Extra::new(),
        }
    }

    /// An intent with nothing set but its action.
    pub fn from_action(action: &str) -> (i: Intent)
        ensures
            i.action matches Some(a) && a@ == action@,
            i.data is None && i.mime_type is None && i.category is None && i.component is None && i.package is None
                && i.user_id is None && i.flags == 0 && !i.receiver_foreground && !i.wait,
            i.extra.es@.len() == 0 && i.extra.ez@.len() == 0 && i.extra.ei@.len() == 0 && i.extra.el@.len() == 0
                && i.extra.ef@.len() == 0 && i.extra.eu@.len() == 0 && i.extra.ecn@.len() == 0
                && i.extra.eia@.len() == 0 && i.extra.ela@.len() == 0 && i.extra.efa@.len() == 0
                && i.extra.esa@.len() == 0 && !i.extra.grant_read_uri_permission
                && !i.extra.grant_write_uri_permission && !i.extra.exclude_stopped_packages
                && !i.extra.include_stopped_packages,
    {
        let mut i = Intent::new();
        i.action = Some(action.to_owned());
        i
    }

    /// The intent as `am` arguments: the words of [`intent_words`] joined
    /// with spaces.
    pub fn to_string(&self) -> (s: String)
        ensures
            s@ == join_with(intent_words(*self), " "@),
    {
        let mut out: Vec<String> = Vec::new();
        out = push_opt(out, "-a", &self.action);
        out = push_opt(out, "-d", &self.data);
        out = push_opt(out, "-t", &self.mime_type);
        out = push_opt(out, "-c", &self.category);
        out = push_opt(out, "-n", &self.component);
        out = push_opt(out, "-p", &self.package);
        out = push_opt(out, "--user", &self.user_id);
        out = push_if(out, self.receiver_foreground, "--receiver-foreground");
        out = push_if(out, self.wait, "-W");
        out = push_str(out, self.extra.to_string());
        assert(out.deep_view() =~= intent_words(*self));
        join_words(&out, " ")
    }
}

} // verus!
