//! Device identity: a stable identifier derived from the machine's host name
//! and operating system, the platform classification, and the descriptive
//! fields sent along with an activation.

use vstd::prelude::*;
use vstd::utf8::encode_utf8;

verus! {

/// Platforms that a license can be activated on.
#[derive(Debug, Clone, Copy, PartialEq, Eq, Structural)]
pub enum Platform {
    Windows,
    Macos,
    Linux,
    Android,
    Ios,
    Unknown,
}

/// The wire name of a platform.
pub open spec fn platform_name(p: Platform) -> Seq<char> {
    match p {
        Platform::Windows => "windows"@,
        Platform::Macos => "macos"@,
        Platform::Linux => "linux"@,
        Platform::Android => "android"@,
        Platform::Ios => "ios"@,
        Platform::Unknown => "unknown"@,
    }
}

impl Platform {
    /// Convert platform to string representation.
    pub fn as_str(&self) -> (r: &'static str)
        ensures
            r@ == platform_name(*self),
    {
        match self {
            Platform::Windows => "windows",
            Platform::Macos => "macos",
            Platform::Linux => "linux",
            Platform::Android => "android",
            Platform::Ios => "ios",
            Platform::Unknown => "unknown",
        }
    }
}

impl Default for Platform {
    fn default() -> (r: Self)
        ensures
            r == Platform::Unknown,
    {
        Platform::Unknown
    }
}

/// Whether `p` occurs in `s` as a contiguous run.
pub open spec fn contains_seq(s: Seq<char>, p: Seq<char>) -> bool {
    exists|i: int| 0 <= i && i + p.len() <= s.len() && #[trigger] s.subrange(i, i + p.len()) == p
}

/// The platform named by a lower-cased OS type and OS release, in a fixed
/// precedence: Android is told apart from desktop Linux by the release.
pub open spec fn platform_of_lowered(os_type: Seq<char>, os_release: Seq<char>) -> Platform {
    if contains_seq(os_type, "windows"@) {
        Platform::Windows
    } else if contains_seq(os_type, "darwin"@) || contains_seq(os_type, "macos"@) {
        Platform::Macos
    } else if contains_seq(os_type, "linux"@) {
        if contains_seq(os_release, "android"@) {
            Platform::Android
        } else {
            Platform::Linux
        }
    } else if contains_seq(os_type, "ios"@) {
        Platform::Ios
    } else if contains_seq(os_type, "android"@) {
        Platform::Android
    } else {
        Platform::Unknown
    }
}

/// What `str::to_lowercase` makes of a string.
pub uninterp spec fn lower_of(s: Seq<char>) -> Seq<char>;

/// Relies on `str::to_lowercase`: the result depends on the characters alone.
#[verifier::external_body]
fn to_lower(s: &str) -> (r: String)
    ensures
        r@ == lower_of(s@),
{
    s.to_lowercase()
}

/// Relies on `str::contains` with a string pattern: true exactly when the
/// pattern occurs in the string.
#[verifier::external_body]
fn str_contains(s: &str, pattern: &str) -> (r: bool)
    ensures
        r == contains_seq(s@, pattern@),
{
    s.contains(pattern)
}

/// Classify already lower-cased OS type and release strings.
pub fn platform_from_lowered(os_type: &str, os_release: &str) -> (r: Platform)
    ensures
        r == platform_of_lowered(os_type@, os_release@),
{
    if str_contains(os_type, "windows") {
        Platform::Windows
    } else if str_contains(os_type, "darwin") || str_contains(os_type, "macos") {
        Platform::Macos
    } else if str_contains(os_type, "linux") {
        if str_contains(os_release, "android") {
            Platform::Android
        } else {
            Platform::Linux
        }
    } else if str_contains(os_type, "ios") {
        Platform::Ios
    } else if str_contains(os_type, "android") {
        Platform::Android
    } else {
        Platform::Unknown
    }
}

/// The platform named by an OS type and release, matched without regard to
/// case.
pub fn get_platform(os_type: &str, os_release: &str) -> (r: Platform)
    ensures
        r == platform_of_lowered(lower_of(os_type@), lower_of(os_release@)),
{
    let t = to_lower(os_type);
    let rel = to_lower(os_release);
    platform_from_lowered(t.as_str(), rel.as_str())
}


/// A lower-case hexadecimal digit for a value below sixteen.
pub open spec fn hex_digit(n: u8) -> char {
    if n == 0 { '0' }
    else if n == 1 { '1' }
    else if n == 2 { '2' }
    else if n == 3 { '3' }
    else if n == 4 { '4' }
    else if n == 5 { '5' }
    else if n == 6 { '6' }
    else if n == 7 { '7' }
    else if n == 8 { '8' }
    else if n == 9 { '9' }
    else if n == 10 { 'a' }
    else if n == 11 { 'b' }
    else if n == 12 { 'c' }
    else if n == 13 { 'd' }
    else if n == 14 { 'e' }
    else { 'f' }
}

/// Lower-case hexadecimal text of a byte string: two digits per byte, high
/// nibble first.
pub open spec fn hex_of(b: Seq<u8>) -> Seq<char> {
    Seq::new(
        2 * b.len(),
        |i: int| hex_digit(if i % 2 == 0 { b[i / 2] / 16 } else { b[i / 2] % 16 }),
    )
}

pub open spec fn is_lower_hex_char(c: char) -> bool {
    ('0' <= c && c <= '9') || ('a' <= c && c <= 'f')
}

/// A well-formed device identifier: 32 lower-case hexadecimal characters.
pub open spec fn is_device_id(s: Seq<char>) -> bool {
    s.len() == 32 && forall|i: int| 0 <= i < s.len() ==> is_lower_hex_char(#[trigger] s[i])
}

/// The SHA-256 digest of a byte string.
pub uninterp spec fn sha256_of(data: Seq<u8>) -> Seq<u8>;

/// Relies on `sha2::Sha256::digest`: the SHA-256 digest of the input, which
/// is 32 bytes long.
#[verifier::external_body]
fn sha256_digest(data: &[u8]) -> (r: Vec<u8>)
    ensures
        r@ == sha256_of(data@),
        r@.len() == 32,
{
    <sha2::Sha256 as sha2::Digest>::digest(data).to_vec()
}

/// Relies on `hex::encode`: two lower-case digits per byte, high nibble first.
#[verifier::external_body]
fn hex_encode(data: &[u8]) -> (r: String)
    ensures
        r@ == hex_of(data@),
{
    hex::encode(data)
}

/// The text fed to the digest: host name, OS type and OS release joined by
/// dashes, in that order.
pub open spec fn fingerprint_text(hostname: Seq<char>, os_type: Seq<char>, os_release: Seq<char>) -> Seq<char> {
    hostname + seq!['-'] + os_type + seq!['-'] + os_release
}

/// The digest of the UTF-8 bytes of the fingerprint text.
pub open spec fn device_digest(hostname: Seq<char>, os_type: Seq<char>, os_release: Seq<char>) -> Seq<u8> {
    sha256_of(encode_utf8(fingerprint_text(hostname, os_type, os_release)))
}

/// The device identifier: the first 32 hexadecimal characters of the digest.
pub open spec fn device_id_of(hostname: Seq<char>, os_type: Seq<char>, os_release: Seq<char>) -> Seq<char> {
    hex_of(device_digest(hostname, os_type, os_release)).take(32)
}

/// The device name: the host name when it is not empty, else `device-`
/// followed by the first eight characters of the device identifier.
pub open spec fn device_name_of(hostname: Seq<char>, os_type: Seq<char>, os_release: Seq<char>) -> Seq<char> {
    if hostname.len() > 0 {
        hostname
    } else {
        "device-"@ + device_id_of(hostname, os_type, os_release).take(8)
    }
}

/// The hexadecimal text of a prefix of a byte string is the matching prefix
/// of its hexadecimal text.
pub proof fn lemma_hex_of_prefix(b: Seq<u8>, k: int)
    requires
        0 <= k <= b.len(),
    ensures
        hex_of(b.take(k)) == hex_of(b).take(2 * k),
{
    assert(hex_of(b.take(k)) =~= hex_of(b).take(2 * k));
}

/// Hexadecimal text holds lower-case hexadecimal digits only.
pub proof fn lemma_hex_of_digits(b: Seq<u8>)
    ensures
        forall|i: int| 0 <= i < hex_of(b).len() ==> is_lower_hex_char(#[trigger] hex_of(b)[i]),
{
}

fn take_bytes(v: &Vec<u8>, n: usize) -> (r: Vec<u8>)
    requires
        n <= v@.len(),
    ensures
        r@ == v@.take(n as int),
{
    let mut r: Vec<u8> = Vec::new();
    let mut i: usize = 0;
    while i < n
        invariant
            i <= n,
            n <= v@.len(),
            r@ == v@.take(i as int),
        decreases n - i,
    {
        r.push(v[i]);
        i = i + 1;
        assert(r@ =~= v@.take(i as int));
    }
    r
}

fn fingerprint_digest(hostname: &str, os_type: &str, os_release: &str) -> (r: Vec<u8>)
    ensures
        r@ == device_digest(hostname@, os_type@, os_release@),
        r@.len() == 32,
{
    let mut text = String::from_str(hostname);
    text.append("-");
    text.append(os_type);
    text.append("-");
    text.append(os_release);
    proof {
        reveal_strlit("-");
        assert(text@ =~= fingerprint_text(hostname@, os_type@, os_release@));
    }
    sha256_digest(text.as_str().as_bytes())
}

/// The device identifier of a machine with the given host name, OS type and
/// OS release (each empty where the OS reports none).
pub fn get_device_id(hostname: &str, os_type: &str, os_release: &str) -> (r: String)
    ensures
        r@ == device_id_of(hostname@, os_type@, os_release@),
        is_device_id(r@),
{
    let digest = fingerprint_digest(hostname, os_type, os_release);
    let head = take_bytes(&digest, 16);
    proof {
        lemma_hex_of_prefix(digest@, 16);
        lemma_hex_of_digits(head@);
    }
    hex_encode(head.as_slice())
}

/// A human-readable device name: the host name, or a name made from the
/// device identifier where the host name is empty.
pub fn get_device_name(hostname: &str, os_type: &str, os_release: &str) -> (r: String)
    ensures
        r@ == device_name_of(hostname@, os_type@, os_release@),
{
    if hostname.is_empty() {
        let digest = fingerprint_digest(hostname, os_type, os_release);
        let head = take_bytes(&digest, 4);
        proof {
            lemma_hex_of_prefix(digest@, 16);
            lemma_hex_of_prefix(digest@, 4);
            assert(hex_of(digest@).take(32).take(8) =~= hex_of(digest@).take(8));
        }
        let mut name = String::from_str("device-");
        let id_head = hex_encode(head.as_slice());
        name.append(id_head.as_str());
        name
    } else {
        String::from_str(hostname)
    }
}

/// Identifiers derived from the same host name, OS type and OS release are
/// the same: the derivation reads nothing else, so repeated calls and later
/// runs on an unchanged machine agree.
pub proof fn lemma_device_id_deterministic(
    hostname1: Seq<char>,
    os_type1: Seq<char>,
    os_release1: Seq<char>,
    hostname2: Seq<char>,
    os_type2: Seq<char>,
    os_release2: Seq<char>,
)
    requires
        hostname1 == hostname2,
        os_type1 == os_type2,
        os_release1 == os_release2,
    ensures
        device_id_of(hostname1, os_type1, os_release1) == device_id_of(hostname2, os_type2, os_release2),
{
}

/// The release as the device fields read it: empty where the OS reported
/// none.
pub open spec fn release_or_empty(os_release: Option<String>) -> Seq<char> {
    match os_release {
        Some(rel) => rel@,
        None => Seq::empty(),
    }
}

/// The platform version: the release, or `unknown` where the OS reported
/// none.
pub open spec fn platform_version_of(os_release: Option<String>) -> Seq<char> {
    match os_release {
        Some(rel) => rel@,
        None => "unknown"@,
    }
}

/// The platform version for the OS release that the OS reported, if any.
pub fn get_platform_version(os_release: &Option<String>) -> (r: String)
    ensures
        r@ == platform_version_of(*os_release),
{
    match os_release {
        Some(rel) => rel.clone(),
        None => String::from_str("unknown"),
    }
}

/// The architecture label for a target architecture name: the name itself
/// where it is one of the supported architectures, else `unknown`.
pub open spec fn architecture_of(target_arch: Seq<char>) -> Seq<char> {
    if target_arch == "x86_64"@ || target_arch == "aarch64"@ || target_arch == "x86"@
        || target_arch == "arm"@ {
        target_arch
    } else {
        "unknown"@
    }
}

/// The architecture label of the build target whose architecture name is
/// `target_arch` (as `std::env::consts::ARCH` gives it).
pub fn get_architecture(target_arch: &str) -> (r: String)
    ensures
        r@ == architecture_of(target_arch@),
{
    let a = String::from_str(target_arch);
    if a == String::from_str("x86_64") || a == String::from_str("aarch64") || a
        == String::from_str("x86") || a == String::from_str("arm") {
        a
    } else {
        String::from_str("unknown")
    }
}

/// Hash a string with SHA-256, as 64 lower-case hexadecimal characters.
pub fn hash_string(input: &str) -> (r: String)
    ensures
        r@ == hex_of(sha256_of(encode_utf8(input@))),
        r@.len() == 64,
{
    let digest = sha256_digest(input.as_bytes());
    hex_encode(digest.as_slice())
}

/// What a `DefaultHasher` made by `new` gives for a string.
pub uninterp spec fn default_hash_of(s: Seq<char>) -> u64;

/// A non-cryptographic 64-bit hash of a string.
///
/// Relies on `std::collections::hash_map::DefaultHasher`: every hasher made
/// by `new` starts alike, so the hash depends on the string alone; nothing
/// more is stated of the value.
#[verifier::external_body]
pub fn simple_hash(input: &str) -> (r: u64)
    ensures
        r == default_hash_of(input@),
{
    let mut hasher = std::collections::hash_map::DefaultHasher::new();
    std::hash::Hash::hash(input, &mut hasher);
    std::hash::Hasher::finish(&hasher)
}

/// Device information sent with an activation.
#[derive(Debug, Clone)]
pub struct DeviceInfo {
    /// Unique device identifier.
    pub device_id: String,
    /// Human-readable device name.
    pub device_name: String,
    /// Current platform.
    pub platform: Platform,
    /// Platform version/release.
    pub platform_version: String,
    /// System architecture.
    pub architecture: String,
}

/// `info` describes a machine with the given host name, OS type and OS
/// release (none where the OS reported none), built for the given target
/// architecture.
pub open spec fn describes(
    info: DeviceInfo,
    hostname: Seq<char>,
    os_type: Seq<char>,
    os_release: Option<String>,
    target_arch: Seq<char>,
) -> bool {
    let rel = release_or_empty(os_release);
    &&& info.device_id@ == device_id_of(hostname, os_type, rel)
    &&& info.device_name@ == device_name_of(hostname, os_type, rel)
    &&& info.platform == platform_of_lowered(lower_of(os_type), lower_of(rel))
    &&& info.platform_version@ == platform_version_of(os_release)
    &&& info.architecture@ == architecture_of(target_arch)
}

/// The device information of a machine with the given host name, OS type and
/// OS release (none where the OS reported none), built for the target
/// architecture named `target_arch`.
pub fn get_device_info(
    hostname: &str,
    os_type: &str,
    os_release: &Option<String>,
    target_arch: &str,
) -> (r: DeviceInfo)
    ensures
        describes(r, hostname@, os_type@, *os_release, target_arch@),
        is_device_id(r.device_id@),
        r.device_name@.len() > 0,
{
    let rel = match os_release {
        Some(rel) => rel.clone(),
        None => String::new(),
    };
    let r = DeviceInfo {
        device_id: get_device_id(hostname, os_type, rel.as_str()),
        device_name: get_device_name(hostname, os_type, rel.as_str()),
        platform: get_platform(os_type, rel.as_str()),
        platform_version: get_platform_version(os_release),
        architecture: get_architecture(target_arch),
    };
    proof {
        reveal_strlit("device-");
    }
    r
}

} // verus!
