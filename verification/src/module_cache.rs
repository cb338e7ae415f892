//! The decisions of the module cache: where its directories are, when a
//! cached package is still fresh, which package a name fetches, how a
//! compiled module is keyed and named on disk, and how it is compressed there.
use vstd::prelude::*;

verus! {

/// The directory of compiled modules where none is configured.
pub const DEFAULT_COMPILED_PATH: &'static str = "~/.wasmer/compiled";

/// The directory of downloaded packages where none is configured.
pub const DEFAULT_WEBC_PATH: &'static str = "~/.wasmer/webc";

/// How long a cached package stays fresh, in nanoseconds (thirty seconds).
pub const DEFAULT_CACHE_TIME: u128 = 30_000_000_000u128;

/// What holds of the tilde expansion `out` of a path `input`: a path that does
/// not start with `~`, or starts with `~` and another user's name, is kept;
/// any other path is kept or has its `~` replaced by some home directory.
pub open spec fn tilde_expansion_of(input: Seq<char>, out: Seq<char>) -> bool {
    &&& !(input.len() > 0 && input[0] == '~') ==> out == input
    &&& (input.len() > 1 && input[0] == '~' && input[1] != '/' && input[1] != '\\') ==> out
        == input
    &&& out == input || exists|home: Seq<char>| out == home + input.skip(1)
}

/// Calls `shellexpand::tilde`. Its source keeps a path that does not start with
/// `~`, keeps one whose `~` is followed by anything but the end, `/` or (on
/// Windows) `\`, and replaces the `~` of any other path by the home directory
/// that `dirs::home_dir` finds, keeping the path where it finds none. Which home
/// directory that is depends on the environment, so it is not stated.
#[verifier::external_body]
fn expand_tilde(input: &str) -> (r: String)
    ensures
        tilde_expansion_of(input@, r@),
{
    shellexpand::tilde(input).into_owned()
}

/// The directory that a cache uses: the configured one, or `default_dir` where
/// none is configured, with a leading `~` expanded to the home directory.
pub fn resolve_cache_dir(configured: Option<String>, default_dir: &str) -> (r: String)
    ensures
        match configured {
            Some(dir) => tilde_expansion_of(dir@, r@),
            None => tilde_expansion_of(default_dir@, r@),
        },
{
    match configured {
        Some(dir) => expand_tilde(dir.as_str()),
        None => expand_tilde(default_dir),
    }
}

/// Whether a package cached at `when_cached` is still fresh at `now`, both
/// read from the same monotonic clock in nanoseconds.
pub fn webc_cache_entry_is_fresh(now: u128, when_cached: u128) -> (r: bool)
    requires
        when_cached <= now,
    ensures
        r == (now - when_cached <= DEFAULT_CACHE_TIME),
{
    let delta = now - when_cached;
    delta <= DEFAULT_CACHE_TIME
}

/// The name of the package that a command name fetches: the part of `name`
/// before its first `:`, or all of `name` where it holds none.
pub fn wapm_package_name(name: &str) -> (r: &str)
    ensures
        r@.len() <= name@.len(),
        r@ == name@.take(r@.len() as int),
        !r@.contains(':'),
        r@.len() < name@.len() ==> name@[r@.len() as int] == ':',
{
    let len = name.unicode_len();
    let mut i: usize = 0;
    while i < len
        invariant
            len == name@.len(),
            i <= len,
            forall|k: int| 0 <= k < i ==> name@[k] != ':',
        ensures
            i <= len,
            forall|k: int| 0 <= k < i ==> name@[k] != ':',
            i == len || name@[i as int] == ':',
        decreases len - i,
    {
        if name.get_char(i) == ':' {
            break;
        }
        i = i + 1;
    }
    let r = name.substring_char(0, i);
    assert(r@ == name@.take(i as int));
    assert(!r@.contains(':')) by {
        assert forall|k: int| 0 <= k < r@.len() implies r@[k] != ':' by {
            assert(r@[k] == name@[k]);
        }
    }
    r
}

/// What the cache does with a package that was just fetched for a name.
#[derive(Clone, Copy, Debug, PartialEq, Eq, Structural)]
pub enum WebcCacheUpdate {
    /// The same package is cached already: keep it and only record the time.
    RefreshExisting,
    /// Store the fetched package under the name, replacing any other.
    Insert,
}

/// What the cache does with a fetched package of hash `hash` and version
/// `version`, given the hash and version of the package cached under the same
/// name, if any: the cached one is kept where both are the same.
pub fn webc_cache_update(cached: Option<(&String, &String)>, hash: &String, version: &String) -> (r:
    WebcCacheUpdate)
    ensures
        r == (match cached {
            Some((cached_hash, cached_version)) => if cached_hash@ == hash@ && cached_version@
                == version@ {
                WebcCacheUpdate::RefreshExisting
            } else {
                WebcCacheUpdate::Insert
            },
            None => WebcCacheUpdate::Insert,
        }),
{
    match cached {
        Some((cached_hash, cached_version)) => {
            if cached_hash.eq(hash) && cached_version.eq(version) {
                WebcCacheUpdate::RefreshExisting
            } else {
                WebcCacheUpdate::Insert
            }
        },
        None => WebcCacheUpdate::Insert,
    }
}

/// What a lookup of a package name does first.
#[derive(Clone, Debug, PartialEq, Eq)]
pub enum WebcLookup<'a> {
    /// The package cached under the name is fresh: hand it out.
    UseCached,
    /// Fetch the package of the given name.
    Fetch(&'a str),
}

/// Whether `package` is the part of `name` before its first `:`, or all of
/// `name` where it holds none.
pub open spec fn is_package_name_of(name: Seq<char>, package: Seq<char>) -> bool {
    &&& package.len() <= name.len()
    &&& package == name.take(package.len() as int)
    &&& !package.contains(':')
    &&& package.len() < name.len() ==> name[package.len() as int] == ':'
}

/// The first decision of a package lookup under `name` at time `now`, given
/// when the package cached under that name was cached, if one is: a fresh
/// cached package is handed out; otherwise the package named before the first
/// `:` of `name` is fetched.
pub fn webc_cache_lookup(name: &str, cached_when: Option<u128>, now: u128) -> (r: WebcLookup)
    requires
        cached_when matches Some(when) ==> when <= now,
    ensures
        match cached_when {
            Some(when) if now - when <= DEFAULT_CACHE_TIME => r == WebcLookup::UseCached,
            _ => r matches WebcLookup::Fetch(p) && is_package_name_of(name@, p@),
        },
{
    if let Some(when) = cached_when {
        if webc_cache_entry_is_fresh(now, when) {
            return WebcLookup::UseCached;
        }
    }
    WebcLookup::Fetch(wapm_package_name(name))
}

/// What a lookup does once the fetch has answered.
#[derive(Clone, Copy, Debug, PartialEq, Eq, Structural)]
pub enum WebcFetched {
    /// The fetched package is the cached one: refresh its time and hand it out.
    RefreshExisting,
    /// Cache the fetched package under the name and hand it out.
    Insert,
    /// Nothing was fetched: the lookup finds nothing.
    NotFound,
}

/// The second decision of a package lookup: given the hash and version of the
/// fetched package, if the fetch found one, and those of the package cached
/// under the name, if any.
pub fn webc_cache_after_fetch(
    fetched: Option<(&String, &String)>,
    cached: Option<(&String, &String)>,
) -> (r: WebcFetched)
    ensures
        r == (match fetched {
            None => WebcFetched::NotFound,
            Some((hash, version)) => match cached {
                Some((cached_hash, cached_version)) => if cached_hash@ == hash@
                    && cached_version@ == version@ {
                    WebcFetched::RefreshExisting
                } else {
                    WebcFetched::Insert
                },
                None => WebcFetched::Insert,
            },
        }),
{
    match fetched {
        None => WebcFetched::NotFound,
        Some((hash, version)) => match webc_cache_update(cached, hash, version) {
            WebcCacheUpdate::RefreshExisting => WebcFetched::RefreshExisting,
            WebcCacheUpdate::Insert => WebcFetched::Insert,
        },
    }
}

/// The key under which a module compiled from the data with hash `data_hash`
/// by `compiler` is cached: the hash, `-`, and the compiler's name.
pub fn compiled_module_key(data_hash: &str, compiler: &str) -> (r: String)
    ensures
        r@ == data_hash@ + seq!['-'] + compiler@,
{
    let key = String::from_str(data_hash);
    let key = key.concat("-");
    proof {
        reveal_strlit("-");
    }
    key.concat(compiler)
}

/// The name of the file in which the module cached under `key` is stored:
/// the key followed by `.bin`.
pub fn compiled_module_file_name(key: &str) -> (r: String)
    ensures
        r@ == key@ + seq!['.', 'b', 'i', 'n'],
{
    let name = String::from_str(key);
    proof {
        reveal_strlit(".bin");
    }
    name.concat(".bin")
}

/// What the LZW decoder of `weezl` (most significant bit first, 8-bit symbols)
/// yields for `data`: the decoded bytes, or `None` where it reports an error.
pub uninterp spec fn lzw_msb8_decode(data: Seq<u8>) -> Option<Seq<u8>>;

/// What the LZW encoder of `weezl` (most significant bit first, 8-bit symbols)
/// yields for `data`: the encoded bytes, or `None` where it reports an error.
pub uninterp spec fn lzw_msb8_encode(data: Seq<u8>) -> Option<Seq<u8>>;

/// Calls `weezl::decode::Decoder::decode` on a fresh decoder for most significant
/// bit first and 8-bit symbols. Its result depends on `data` alone; only its
/// name is stated.
#[verifier::external_body]
fn lzw_decode(data: &[u8]) -> (r: Option<Vec<u8>>)
    ensures
        match r {
            Some(v) => lzw_msb8_decode(data@) == Some(v@),
            None => lzw_msb8_decode(data@) is None,
        },
{
    weezl::decode::Decoder::new(weezl::BitOrder::Msb, 8).decode(data).ok()
}

/// Calls `weezl::encode::Encoder::encode` on a fresh encoder for most significant
/// bit first and 8-bit symbols. Its result depends on `data` alone and is named.
/// The encoder's only error is a byte too wide for the symbol size, which no
/// byte is for 8-bit symbols, so it always succeeds; and the crate documents
/// that a decoder with the same settings gives the data back.
#[verifier::external_body]
fn lzw_encode(data: &[u8]) -> (r: Option<Vec<u8>>)
    ensures
        match r {
            Some(v) => lzw_msb8_encode(data@) == Some(v@),
            None => lzw_msb8_encode(data@) is None,
        },
        r is Some,
        r matches Some(v) ==> lzw_msb8_decode(v@) == Some(data@),
{
    weezl::encode::Encoder::new(weezl::BitOrder::Msb, 8).encode(data).ok()
}

/// The bytes of a compiled module read back from the compressed form in which
/// the cache stores it, or `None` where they do not decode.
pub fn decode_compiled_module(data: &[u8]) -> (r: Option<Vec<u8>>)
    ensures
        match r {
            Some(v) => lzw_msb8_decode(data@) == Some(v@),
            None => lzw_msb8_decode(data@) is None,
        },
{
    lzw_decode(data)
}

/// The compressed form in which the cache stores the bytes of a compiled
/// module. Encoding always succeeds, and decoding its output gives the bytes
/// back.
pub fn encode_compiled_module(data: &[u8]) -> (r: Option<Vec<u8>>)
    ensures
        match r {
            Some(v) => lzw_msb8_encode(data@) == Some(v@),
            None => lzw_msb8_encode(data@) is None,
        },
        r is Some,
        r matches Some(v) ==> lzw_msb8_decode(v@) == Some(data@),
{
    lzw_encode(data)
}

} // verus!
