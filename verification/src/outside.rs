//! Calls into std and into outside crates whose behaviour Verus takes on
//! trust. Each item names the function it calls and says what it assumes.
use vstd::prelude::*;
use vstd::utf8::*;

verus! {

/// The characters of `s`, in order.
pub fn chars_of(s: &str) -> (v: Vec<char>)
    ensures
        v@ == s@,
{
    broadcast use vstd::string::group_string_axioms;
    let mut v: Vec<char> = Vec::new();
    for c in it: s.chars()
        invariant
            v@ == it.seq().subrange(0, it.index() as int),
    {
        v.push(c);
    }
    v
}

/// `String: FromIterator<&char>`: the string made of the characters of `cs`.
#[verifier::external_body]
pub fn string_of(cs: &[char]) -> (s: String)
    ensures
        s@ == cs@,
{
    cs.iter().collect()
}

/// `core::str::from_utf8`: succeeds exactly on valid UTF-8, and the text is
/// the decoding of the bytes.
#[verifier::external_body]
pub fn str_from_utf8(b: &[u8]) -> (r: Option<&str>)
    ensures
        r.is_some() == valid_utf8(b@),
        r matches Some(s) ==> s@ == decode_utf8(b@),
{
    core::str::from_utf8(b).ok()
}

} // verus!

verus! {

/// `rustix::path::Arg::as_str` on bytes: `core::str::from_utf8`, with any
/// failure reported as the `Errno` `EINVAL` (number 22 on Linux); here the
/// `Errno` is handed on as its raw number.
#[verifier::external_body]
pub fn rustix_as_str(b: &Vec<u8>) -> (r: Result<&str, i32>)
    ensures
        r.is_ok() == valid_utf8(b@),
        r matches Ok(s) ==> s@ == decode_utf8(b@),
        r matches Err(e) ==> e == 22,
{
    rustix::path::Arg::as_str(b).map_err(|e| e.raw_os_error())
}

/// `simple_cmd::Vec8ToString::as_str`: `core::str::from_utf8`, with failure
/// as `None`.
#[verifier::external_body]
pub fn simple_cmd_as_str(b: &Vec<u8>) -> (r: Option<&str>)
    ensures
        r.is_some() == valid_utf8(b@),
        r matches Some(s) ==> s@ == decode_utf8(b@),
{
    simple_cmd::Vec8ToString::as_str(b)
}

} // verus!

verus! {

/// What `str::to_lowercase` gives for a text.
pub uninterp spec fn lowercase_of(s: Seq<char>) -> Seq<char>;

/// `str::to_lowercase`: the text with every character mapped to its Unicode
/// lower case, as the standard library's tables give it.
#[verifier::external_body]
pub fn lowercase(s: &str) -> (r: String)
    ensures
        r@ == lowercase_of(s@),
{
    s.to_lowercase()
}

/// What `format!("{:?}", s)` gives for a text.
pub uninterp spec fn debug_text_of(s: Seq<char>) -> Seq<char>;

/// `<str as Debug>::fmt`: the text in double quotes with the standard
/// library's escapes; how each character is escaped is left unsaid here.
#[verifier::external_body]
pub fn debug_text(s: &str) -> (r: String)
    ensures
        r@ == debug_text_of(s@),
{
    format!("{:?}", s)
}

/// `file_mode::Mode::from(bits).mode()`: the mode made from a number keeps
/// its file-type, special and permission bits (`Mode::new(bits, 0o7777)`
/// masks with `0o7777 | S_IFMT`, and `mode()` gives them back unchanged
/// for a mode built this way).
#[verifier::external_body]
pub fn mode_bits(bits: u32) -> (r: u32)
    ensures
        r == bits & 0o177777u32,
{
    file_mode::Mode::from(bits).mode()
}

/// The six bytes of the MAC address that `mac_address::MacAddress`
/// reads from a text; none when it refuses the text.
pub uninterp spec fn mac_address_of(s: Seq<char>) -> Option<Seq<u8>>;

/// `MacAddress::try_from(&str)`, taken as its bytes: the address the text
/// writes (six pairs of hexadecimal digits, with or without `:` or `-`
/// between them), or none. How the crate splits and reads the text is left
/// to the name [`mac_address_of`].
#[verifier::external_body]
pub fn parse_mac_address(s: &str) -> (r: Option<[u8; 6]>)
    ensures
        match r {
            Some(b) => mac_address_of(s@) == Some(b@),
            None => mac_address_of(s@) is None,
        },
{
    match mac_address::MacAddress::try_from(s) {
        Ok(m) => Some(m.bytes()),
        Err(_) => None,
    }
}

/// The 128-bit value of the UUID that `uuid::Uuid` reads from a text; none
/// when it refuses the text.
pub uninterp spec fn uuid_of(s: Seq<char>) -> Option<u128>;

/// `Uuid::try_from(&str)` (`Uuid::parse_str`), taken as its big-endian
/// 128-bit value: the UUID the text writes in one of the crate's formats,
/// or none. The formats are left to the name [`uuid_of`].
#[verifier::external_body]
pub fn parse_uuid(s: &str) -> (r: Option<u128>)
    ensures
        r == uuid_of(s@),
{
    match uuid::Uuid::try_from(s) {
        Ok(u) => Some(u.as_u128()),
        Err(_) => None,
    }
}

/// `Display` of `rustix::io::Errno`: the operating system's message for an
/// error number. It depends on the system's message tables, so nothing is
/// stated of it. `Errno::from_raw_os_error` panics outside the error numbers
/// `1..=4095`, which are therefore required.
#[verifier::external_body]
pub fn errno_text(code: i32) -> (r: String)
    requires
        1 <= code <= 4095,
{
    rustix::io::Errno::from_raw_os_error(code).to_string()
}

/// Whether the regular expression class `\w` of the `regex` crate holds a character.
pub uninterp spec fn word_char(c: char) -> bool;

/// `regex::Regex::is_match` of `\A\w\z` on the one character `c`: whether
/// `c` is a Unicode word character (letters, marks, decimal digits,
/// connector punctuation, join controls). For ASCII the crate's
/// documentation gives the class as `[0-9A-Za-z_]`; the crate's Unicode
/// tables (`perl_word`, `perl_space`) hold no character in both `\w` and `\s`.
#[verifier::external_body]
pub fn is_word_char(c: char) -> (b: bool)
    ensures
        b == word_char(c),
        crate::text::is_ws(c) ==> !b,
        (c as u32) < 128 ==> (b == (('0' <= c && c <= '9') || ('a' <= c && c <= 'z') || ('A' <= c
            && c <= 'Z') || c == '_')),
{
    regex::Regex::new(r"\A\w\z").map(|re| re.is_match(&c.to_string())).unwrap_or(false)
}

/// The map that `java_properties::read` builds from a text, or `None` where
/// it reports an error.
pub uninterp spec fn properties_of(b: Seq<u8>) -> Option<Map<Seq<char>, Seq<char>>>;

/// `java_properties::read` on bytes, its map handed out as key and value
/// pairs in the map's walking order, which is left unsaid; on failure the
/// error's text.
#[verifier::external_body]
pub fn read_properties(b: &[u8]) -> (r: Result<Vec<(String, String)>, String>)
    ensures
        r is Ok <==> properties_of(b@) is Some,
        r matches Ok(v) ==> {
            let m = properties_of(b@)->0;
            &&& v@.len() == m.dom().len()
            &&& forall|i: int| 0 <= i < v@.len() ==> #[trigger] m.dom().contains(v@[i].0@)
                && m[v@[i].0@] == v@[i].1@
            &&& forall|i: int, j: int| 0 <= i < j < v@.len() ==> v@[i].0@ != v@[j].0@
        },
{
    match java_properties::read(b) {
        Ok(map) => Ok(map.into_iter().collect()),
        Err(e) => Err(e.to_string()),
    }
}

} // verus!

verus! {

/// The width, height and pixel bytes that the `image` crate decodes from
/// PNG bytes, or `None` where it reports an error.
pub uninterp spec fn png_image_of(b: Seq<u8>) -> Option<(u32, u32, Seq<u8>)>;

/// `image::load_from_memory_with_format` with `ImageFormat::Png`, then the
/// image's `width`, `height` and `as_bytes`; on failure the error's text,
/// of which nothing is stated.
#[verifier::external_body]
pub fn decode_png(b: &[u8]) -> (r: Result<(u32, u32, Vec<u8>), String>)
    ensures
        r is Ok <==> png_image_of(b@) is Some,
        r matches Ok(x) ==> png_image_of(b@) == Some((x.0, x.1, x.2@)),
{
    match image::load_from_memory_with_format(b, image::ImageFormat::Png) {
        Ok(img) => Ok((img.width(), img.height(), img.as_bytes().to_vec())),
        Err(e) => Err(e.to_string()),
    }
}

} // verus!

verus! {

/// Whether the regular expression class `\d` of the `regex` crate holds a character.
pub uninterp spec fn decimal_char(c: char) -> bool;

/// `regex::Regex::is_match` of `\A\d\z` on the one character `c`: whether
/// `c` is a Unicode decimal digit (general category `Nd`). For ASCII the
/// crate's documentation gives the class as `[0-9]`; its tables
/// (`perl_decimal`, `perl_space`) hold no character in both `\d` and `\s`.
#[verifier::external_body]
pub fn is_decimal_char(c: char) -> (b: bool)
    ensures
        b == decimal_char(c),
        (c as u32) < 128 ==> (b == ('0' <= c && c <= '9')),
        crate::text::is_ws(c) ==> !b,
{
    regex::Regex::new(r"\A\d\z").map(|re| re.is_match(&c.to_string())).unwrap_or(false)
}

/// `which::which("adb")`: the path of the first `adb` on the `PATH` of the
/// process, or the lookup's message. It depends on the environment and the
/// disk, so nothing is stated of it; a path that is not UTF-8 comes back
/// as an error.
#[verifier::external_body]
pub fn which_adb() -> (r: Result<String, String>)
{
    match which::which("adb") {
        Ok(p) => p.into_os_string().into_string().map_err(|_| "adb path is not UTF-8".to_owned()),
        Err(e) => Err(e.to_string()),
    }
}

} // verus!

verus! {

/// `cached::LruCache`, a map of bounded size that forgets its least
/// recently used entry when it overflows.
#[verifier::external_type_specification]
#[verifier::external_body]
#[verifier::reject_recursive_types(K)]
#[verifier::reject_recursive_types(V)]
#[verifier::reject_recursive_types(S)]
pub struct ExLruCache<K, V, S>(cached::LruCache<K, V, S>);

/// A cache of the paths of commands on devices.
pub type PathCache = cached::LruCache<String, Option<String>>;

/// The entries of a cache of command paths, as texts.
pub uninterp spec fn path_cache_entries(c: PathCache) -> Map<Seq<char>, Option<Seq<char>>>;

/// The size bound a cache of command paths was made with.
pub uninterp spec fn path_cache_capacity(c: PathCache) -> nat;

/// A path as text.
pub open spec fn path_view(v: Option<String>) -> Option<Seq<char>> {
    match v {
        Some(s) => Some(s@),
        None => None,
    }
}

/// `cached::LruCache::new(size)`: an empty cache bounded by `size` entries
/// (it panics on a zero size).
#[verifier::external_body]
pub fn new_path_cache(size: usize) -> (c: PathCache)
    requires
        size > 0,
    ensures
        path_cache_entries(c).dom().len() == 0 && path_cache_entries(c).dom().finite(),
        path_cache_capacity(c) == size,
{
    cached::LruCache::new(size)
}

/// `Cached::cache_get` on a cache of command paths, the value cloned: the
/// entry of `key` when there is one. It only moves the entry to the front of
/// the order of use; the entries stay as they were.
#[verifier::external_body]
pub fn path_cache_get(c: &mut PathCache, key: &String) -> (r: Option<Option<String>>)
    ensures
        path_cache_entries(*final(c)) == path_cache_entries(*old(c)),
        path_cache_capacity(*final(c)) == path_cache_capacity(*old(c)),
        r is Some <==> path_cache_entries(*old(c)).dom().contains(key@),
        r matches Some(v) ==> path_cache_entries(*old(c))[key@] == path_view(v),
{
    cached::Cached::cache_get(c, key).cloned()
}

/// `Cached::cache_set` on a cache of command paths: `key` now holds `value`;
/// when `key` was new and the cache full, the least recently used other
/// entry is dropped; no other entry changes.
#[verifier::external_body]
pub fn path_cache_set(c: &mut PathCache, key: String, value: Option<String>)
    ensures
        path_cache_capacity(*final(c)) == path_cache_capacity(*old(c)),
        path_cache_entries(*final(c)).dom().contains(key@),
        path_cache_entries(*final(c))[key@] == path_view(value),
        forall|k: Seq<char>|
            #![trigger path_cache_entries(*final(c)).dom().contains(k)]
            path_cache_entries(*final(c)).dom().contains(k) && k != key@ ==> path_cache_entries(
                *old(c),
            ).dom().contains(k) && path_cache_entries(*final(c))[k] == path_cache_entries(*old(c))[k],
        path_cache_entries(*old(c)).dom().contains(key@) ==> path_cache_entries(*final(c)).dom()
            == path_cache_entries(*old(c)).dom(),
        path_cache_entries(*old(c)).dom().finite() ==> path_cache_entries(*final(c)).dom().finite(),
{
    cached::Cached::cache_set(c, key, value);
}

} // verus!
