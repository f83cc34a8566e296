//! Where a ROM comes from (a local path or an HTTP(S) URL) and the checks a
//! loaded ROM must pass. Fetching the bytes is done by the application.
use vstd::prelude::*;
use std::time::Duration;
use crate::memory::MAX_ROM_SIZE;

verus! {

/// Settings of ROM loading.
#[derive(Debug)]
pub struct RomLoaderConfig {
    /// Timeout of HTTP requests.
    pub http_timeout: Duration,
    /// Largest accepted ROM in bytes.
    pub max_rom_size: usize,
}

/// Seconds an HTTP request may take by default.
pub const DEFAULT_HTTP_TIMEOUT_SECS: u64 = 30;

/// Relies on `Duration::from_secs`, to build the default request timeout.
#[verifier::external_body]
fn seconds(secs: u64) -> Duration {
    Duration::from_secs(secs)
}

impl Default for RomLoaderConfig {
    /// A 30 s timeout and the largest ROM memory can hold.
    fn default() -> (r: Self)
        ensures
            r.max_rom_size == MAX_ROM_SIZE,
    {
        RomLoaderConfig {
            http_timeout: seconds(DEFAULT_HTTP_TIMEOUT_SECS),
            max_rom_size: MAX_ROM_SIZE,
        }
    }
}

/// Where a ROM comes from.
#[derive(Debug, Clone, PartialEq)]
pub enum RomSource {
    /// Local filesystem path.
    File(String),
    /// HTTP or HTTPS URL.
    Url(String),
}

/// Whether `s` starts with `prefix`.
pub open spec fn has_prefix(s: Seq<char>, prefix: Seq<char>) -> bool {
    prefix.len() <= s.len() && s.subrange(0, prefix.len() as int) == prefix
}

/// Whether a source text names a URL.
pub open spec fn is_url_text(s: Seq<char>) -> bool {
    has_prefix(s, "http://"@) || has_prefix(s, "https://"@)
}

/// Whether `s` starts with `prefix`.
fn starts_with(s: &str, prefix: &str) -> (r: bool)
    ensures
        r == has_prefix(s@, prefix@),
{
    let n = prefix.unicode_len();
    let len = s.unicode_len();
    if n > len {
        return false;
    }
    let mut i: usize = 0;
    while i < n
        invariant
            n == prefix@.len(),
            len == s@.len(),
            n <= len,
            i <= n,
            s@.subrange(0, i as int) == prefix@.subrange(0, i as int),
        decreases n - i,
    {
        if s.get_char(i) != prefix.get_char(i) {
            assert(s@.subrange(0, n as int)[i as int] != prefix@[i as int]);
            return false;
        }
        i += 1;
        assert(s@.subrange(0, i as int) =~= prefix@.subrange(0, i as int));
    }
    assert(prefix@.subrange(0, n as int) =~= prefix@);
    true
}

impl RomSource {
    /// The text of the source.
    pub open spec fn text(&self) -> Seq<char> {
        match self {
            RomSource::File(p) => p@,
            RomSource::Url(u) => u@,
        }
    }

    /// A source is a URL when it starts with `http://` or `https://`, and
    /// a file path otherwise.
    pub fn from_string(input: &str) -> (r: Self)
        ensures
            r.text() == input@,
            (r is Url) == is_url_text(input@),
    {
        if starts_with(input, "http://") || starts_with(input, "https://") {
            RomSource::Url(input.to_owned())
        } else {
            RomSource::File(input.to_owned())
        }
    }

    /// The path or URL.
    pub fn description(&self) -> (r: &str)
        ensures
            r@ == self.text(),
    {
        match self {
            RomSource::File(path) => path.as_str(),
            RomSource::Url(url) => url.as_str(),
        }
    }

    /// Whether this is a URL source.
    pub fn is_url(&self) -> (r: bool)
        ensures
            r == (self is Url),
    {
        matches!(self, RomSource::Url(_))
    }

    /// Whether this is a file source.
    pub fn is_file(&self) -> (r: bool)
        ensures
            r == (self is File),
    {
        matches!(self, RomSource::File(_))
    }
}

/// Why loaded ROM data is refused.
#[derive(Debug, Clone, Copy, PartialEq, Eq, Structural)]
pub enum RomDataError {
    /// More bytes than the configured maximum.
    TooLarge { size: usize, max_size: usize },
    /// No bytes at all.
    Empty,
}

/// Check loaded ROM data: it must hold at least one byte and at most the
/// configured maximum. The size is checked first.
pub fn validate_rom_data(data: &[u8], config: &RomLoaderConfig) -> (r: Result<(), RomDataError>)
    ensures
        data@.len() > config.max_rom_size ==> r == Err::<(), RomDataError>(
            RomDataError::TooLarge { size: data@.len() as usize, max_size: config.max_rom_size },
        ),
        data@.len() <= config.max_rom_size && data@.len() == 0 ==> r == Err::<(), RomDataError>(
            RomDataError::Empty,
        ),
        0 < data@.len() <= config.max_rom_size ==> r is Ok,
{
    if data.len() > config.max_rom_size {
        return Err(RomDataError::TooLarge { size: data.len(), max_size: config.max_rom_size });
    }
    if data.len() == 0 {
        return Err(RomDataError::Empty);
    }
    Ok(())
}

} // verus!
