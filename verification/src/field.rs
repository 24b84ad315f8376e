//! The validated value types that compose a clip.
//!
//! Each type wraps a raw value and enforces one rule at construction, so that
//! a well-formed clip can only be assembled from well-formed parts.

use vstd::prelude::*;
use vstd::string::StrSliceExecFns;

use crate::clip::ClipError;

verus! {

// ---------------------------------------------------------------------------
// Views of optional strings
// ---------------------------------------------------------------------------

/// The view of an optional string: the character sequence, when present.
pub open spec fn opt_str_view(o: Option<String>) -> Option<Seq<char>> {
    match o {
        Some(s) => Some(s@),
        None => None,
    }
}

// ---------------------------------------------------------------------------
// Content
// ---------------------------------------------------------------------------

/// Whether `c` is a whitespace character (the Unicode `White_Space` set).
pub open spec fn is_space_char(c: char) -> bool {
    ||| c == ' '
    ||| (0x09 <= c as u32 && c as u32 <= 0x0d)
    ||| c as u32 == 0x85
    ||| c as u32 == 0xa0
    ||| c as u32 == 0x1680
    ||| (0x2000 <= c as u32 && c as u32 <= 0x200a)
    ||| c as u32 == 0x2028
    ||| c as u32 == 0x2029
    ||| c as u32 == 0x202f
    ||| c as u32 == 0x205f
    ||| c as u32 == 0x3000
}

/// Content is acceptable when trimming would leave something: at least one
/// character is not whitespace.
pub open spec fn content_ok(s: Seq<char>) -> bool {
    exists|i: int| 0 <= i < s.len() && !is_space_char(s[i])
}

fn is_space(c: char) -> (r: bool)
    ensures
        r == is_space_char(c),
{
    let u = c as u32;
    c == ' ' || (0x09 <= u && u <= 0x0d) || u == 0x85 || u == 0xa0 || u == 0x1680
        || (0x2000 <= u && u <= 0x200a) || u == 0x2028 || u == 0x2029 || u == 0x202f
        || u == 0x205f || u == 0x3000
}

/// Whether `s` holds at least one non-whitespace character.
fn has_visible_char(s: &str) -> (r: bool)
    ensures
        r == content_ok(s@),
{
    let len = s.unicode_len();
    let mut i: usize = 0;
    while i < len
        invariant
            len == s@.len(),
            0 <= i <= len,
            forall|j: int| 0 <= j < i ==> is_space_char(s@[j]),
        decreases len - i,
    {
        if !is_space(s.get_char(i)) {
            return true;
        }
        i += 1;
    }
    false
}

/// The text of a clip; never empty once trimmed.
pub struct Content(pub String);

impl View for Content {
    type V = Seq<char>;

    open spec fn view(&self) -> Seq<char> {
        self.0@
    }
}

impl Content {
    /// Accepts `raw` exactly when it holds a non-whitespace character;
    /// otherwise the content counts as empty and is rejected.
    pub fn new(raw: String) -> (r: Result<Content, ClipError>)
        ensures
            content_ok(raw@) ==> (r matches Ok(c) && c@ == raw@),
            !content_ok(raw@) ==> (r matches Err(e) && e is EmptyContent),
    {
        if has_visible_char(raw.as_str()) {
            Ok(Content(raw))
        } else {
            Err(ClipError::EmptyContent)
        }
    }

    pub fn as_str(&self) -> (r: &str)
        ensures
            r@ == self@,
    {
        self.0.as_str()
    }

    pub fn into_inner(self) -> (r: String)
        ensures
            r@ == self@,
    {
        self.0
    }
}

impl Clone for Content {
    fn clone(&self) -> (r: Self)
        ensures
            r@ == self@,
    {
        Content(self.0.clone())
    }
}

// ---------------------------------------------------------------------------
// Title
// ---------------------------------------------------------------------------

/// An optional title; absence is an explicit state, never an error.
pub struct Title(pub Option<String>);

impl View for Title {
    type V = Option<Seq<char>>;

    open spec fn view(&self) -> Option<Seq<char>> {
        match self.0 {
            Some(s) => Some(s@),
            None => None,
        }
    }
}

impl Title {
    /// Wraps the given optional text; no constraint is placed on its length.
    pub fn new(raw: Option<String>) -> (r: Title)
        ensures
            r@ == opt_str_view(raw),
    {
        Title(raw)
    }

    pub fn into_inner(self) -> (r: Option<String>)
        ensures
            opt_str_view(r) == self@,
    {
        self.0
    }
}

impl Clone for Title {
    fn clone(&self) -> (r: Self)
        ensures
            r@ == self@,
    {
        match &self.0 {
            Some(s) => Title(Some(s.clone())),
            None => Title(None),
        }
    }
}

// ---------------------------------------------------------------------------
// Password
// ---------------------------------------------------------------------------

/// The normal form of a raw optional password: an empty string means that no
/// password is required, so it normalizes to absence.
pub open spec fn norm_pw(raw: Option<Seq<char>>) -> Option<Seq<char>> {
    match raw {
        Some(p) => if p.len() == 0 {
            None
        } else {
            Some(p)
        },
        None => None,
    }
}

/// An optional secret gating retrieval; present values are never empty.
pub struct Password(pub Option<String>);

impl View for Password {
    type V = Option<Seq<char>>;

    open spec fn view(&self) -> Option<Seq<char>> {
        match self.0 {
            Some(s) => Some(s@),
            None => None,
        }
    }
}

impl Password {
    /// Normalizes the raw value: an absent or empty password means that no
    /// password is required. Construction never fails.
    pub fn new(raw: Option<String>) -> (r: Password)
        ensures
            r@ == norm_pw(opt_str_view(raw)),
    {
        match raw {
            Some(p) => {
                if p.as_str().is_empty() {
                    Password(None)
                } else {
                    Password(Some(p))
                }
            },
            None => Password(None),
        }
    }

    /// Whether this (stored) password is satisfied by the `given` one:
    /// a clip without a password admits everyone; one with a password admits
    /// exactly the equal value.
    pub fn accepts(&self, given: &Password) -> (r: bool)
        ensures
            r == password_ok(self@, given@),
    {
        match (&self.0, &given.0) {
            (None, _) => true,
            (Some(_), None) => false,
            (Some(p), Some(g)) => p.eq(g),
        }
    }

    /// Whether retrieval must present a matching password.
    pub fn is_required(&self) -> (r: bool)
        ensures
            r == (self@ is Some),
    {
        self.0.is_some()
    }

    pub fn into_inner(self) -> (r: Option<String>)
        ensures
            opt_str_view(r) == self@,
    {
        self.0
    }
}

impl Clone for Password {
    fn clone(&self) -> (r: Self)
        ensures
            r@ == self@,
    {
        match &self.0 {
            Some(s) => Password(Some(s.clone())),
            None => Password(None),
        }
    }
}

/// Whether a stored password (if any) is satisfied by a normalized supplied
/// password: no stored password admits everyone; a stored password admits
/// exactly the equal value.
pub open spec fn password_ok(stored: Option<Seq<char>>, given: Option<Seq<char>>) -> bool {
    match stored {
        None => true,
        Some(p) => given == Some(p),
    }
}

// ---------------------------------------------------------------------------
// Expires
// ---------------------------------------------------------------------------

/// The timestamp denoted by a string, as seconds since the Unix epoch, or
/// `None` where the string is not a well-formed timestamp. The exact grammar
/// is RFC 3339's, as read by the date-time library underneath
/// [`parse_timestamp`]; this crate treats it as opaque.
pub uninterp spec fn parsed_timestamp(s: Seq<char>) -> Option<i64>;

/// Relies on chrono's `DateTime::parse_from_rfc3339` and
/// `DateTime::timestamp`: both are pure functions of the string, so together
/// they denote one timestamp per well-formed string, and reject the rest.
#[verifier::external_body]
fn parse_timestamp(s: &str) -> (r: Option<i64>)
    ensures
        r == parsed_timestamp(s@),
{
    match chrono::DateTime::parse_from_rfc3339(s) {
        Ok(dt) => Some(dt.timestamp()),
        Err(_) => None,
    }
}

/// The expiration denoted by an optional raw string: `Some(e)` where the
/// request is acceptable and denotes expiration `e`, `None` where the string
/// cannot be parsed.
pub open spec fn parsed_expiry(raw: Option<Seq<char>>) -> Option<Option<i64>> {
    match raw {
        None => Some(None),
        Some(s) => match parsed_timestamp(s) {
            Some(t) => Some(Some(t)),
            None => None,
        },
    }
}

/// An optional expiration instant, in seconds since the Unix epoch.
pub struct Expires(pub Option<i64>);

impl View for Expires {
    type V = Option<i64>;

    open spec fn view(&self) -> Option<i64> {
        self.0
    }
}

impl Expires {
    /// Parses an optional timestamp string: absence means "never expires";
    /// a string that is not a timestamp is rejected with `InvalidDate`.
    pub fn new(raw: Option<String>) -> (r: Result<Expires, ClipError>)
        ensures
            match parsed_expiry(opt_str_view(raw)) {
                Some(e) => r matches Ok(x) && x@ == e,
                None => r matches Err(err) && (err matches ClipError::InvalidDate(m)
                    && opt_str_view(raw) == Some(m@)),
            },
    {
        match raw {
            None => Ok(Expires(None)),
            Some(s) => match parse_timestamp(s.as_str()) {
                Some(t) => Ok(Expires(Some(t))),
                None => Err(ClipError::InvalidDate(s)),
            },
        }
    }

    /// Builds an expiration directly from an instant.
    pub fn at(t: Option<i64>) -> (r: Expires)
        ensures
            r@ == t,
    {
        Expires(t)
    }

    pub fn timestamp(&self) -> (r: Option<i64>)
        ensures
            r == self@,
    {
        self.0
    }

    /// Whether this expiration has passed at instant `now`.
    pub fn is_expired_at(&self, now: i64) -> (r: bool)
        ensures
            r == expired_at(self@, now),
    {
        match self.0 {
            Some(t) => t <= now,
            None => false,
        }
    }
}

impl Clone for Expires {
    fn clone(&self) -> (r: Self)
        ensures
            r@ == self@,
    {
        Expires(self.0)
    }
}

/// Whether a clip with expiration `expires` is past its deadline at `now`:
/// an expiration at or before `now` has passed; no expiration never passes.
pub open spec fn expired_at(expires: Option<i64>, now: i64) -> bool {
    match expires {
        Some(t) => t <= now,
        None => false,
    }
}

// ---------------------------------------------------------------------------
// Posted
// ---------------------------------------------------------------------------

/// The creation instant of a clip, in seconds since the Unix epoch.
pub struct Posted(pub i64);

impl View for Posted {
    type V = i64;

    open spec fn view(&self) -> i64 {
        self.0
    }
}

impl Posted {
    pub fn new(t: i64) -> (r: Posted)
        ensures
            r@ == t,
    {
        Posted(t)
    }

    pub fn into_inner(self) -> (r: i64)
        ensures
            r == self@,
    {
        self.0
    }
}

impl Clone for Posted {
    fn clone(&self) -> (r: Self)
        ensures
            r@ == self@,
    {
        Posted(self.0)
    }
}

// ---------------------------------------------------------------------------
// Hits
// ---------------------------------------------------------------------------

/// The number of successful retrievals of a clip.
pub struct Hits(pub u64);

impl View for Hits {
    type V = u64;

    open spec fn view(&self) -> u64 {
        self.0
    }
}

impl Hits {
    /// Reads a count handed back by storage; a negative value is not a count
    /// and is rejected.
    pub fn new(raw: i64) -> (r: Result<Hits, ClipError>)
        ensures
            raw >= 0 ==> (r matches Ok(h) && h@ == raw),
            raw < 0 ==> (r matches Err(e) && e matches ClipError::Hits(v) && v == raw),
    {
        if raw >= 0 {
            Ok(Hits(raw as u64))
        } else {
            Err(ClipError::Hits(raw))
        }
    }

    /// The count of a clip that has never been retrieved.
    pub fn zero() -> (r: Hits)
        ensures
            r@ == 0,
    {
        Hits(0)
    }

    /// One more hit; the count pins at the largest representable value.
    pub fn incremented(&self) -> (r: Hits)
        ensures
            r@ == bumped(self@),
    {
        if self.0 == u64::MAX {
            Hits(self.0)
        } else {
            Hits(self.0 + 1)
        }
    }

    pub fn count(&self) -> (r: u64)
        ensures
            r == self@,
    {
        self.0
    }
}

impl Clone for Hits {
    fn clone(&self) -> (r: Self)
        ensures
            r@ == self@,
    {
        Hits(self.0)
    }
}

/// A hit count with one more retrieval recorded, pinned at the largest
/// representable value.
pub open spec fn bumped(h: u64) -> u64 {
    if h == u64::MAX {
        h
    } else {
        (h + 1) as u64
    }
}

// ---------------------------------------------------------------------------
// ClipId
// ---------------------------------------------------------------------------

/// Relies on uuid's `Uuid::new_v4` (and `Uuid::as_u128`, which returns the
/// identifier's 128 bits): a freshly drawn random identifier. Nothing is
/// promised of the value.
#[verifier::external_body]
fn random_id() -> u128 {
    uuid::Uuid::new_v4().as_u128()
}

/// The opaque identity of a clip, assigned once at creation.
pub struct ClipId(pub u128);

impl View for ClipId {
    type V = u128;

    open spec fn view(&self) -> u128 {
        self.0
    }
}

impl ClipId {
    /// Draws a fresh random identifier.
    pub fn new() -> (r: ClipId) {
        ClipId(random_id())
    }

    /// Wraps an identifier already assigned, as when reading from storage.
    pub fn from_raw(raw: u128) -> (r: ClipId)
        ensures
            r@ == raw,
    {
        ClipId(raw)
    }

    pub fn into_inner(self) -> (r: u128)
        ensures
            r == self@,
    {
        self.0
    }
}

impl Clone for ClipId {
    fn clone(&self) -> (r: Self)
        ensures
            r@ == self@,
    {
        ClipId(self.0)
    }
}

// ---------------------------------------------------------------------------
// ShortCode
// ---------------------------------------------------------------------------

/// The characters a generated shortcode is drawn from.
pub open spec fn alphabet() -> Seq<char> {
    seq![
        'a', 'b', 'c', 'd', 'e', 'f', 'g', 'h', 'i', 'j', 'k',
        'A', 'B', 'C', 'D', 'E', 'F', 'G', 'H', 'I', 'J', 'K',
        '1', '2', '3', '4', '5', '6', '7', '8', '9', '0',
    ]
}

/// The length of every generated shortcode.
pub const CODE_LEN: usize = 15;

/// The shape of a generated shortcode: exactly [`CODE_LEN`] characters, each
/// drawn from [`alphabet`].
pub open spec fn generated_code(s: Seq<char>) -> bool {
    s.len() == CODE_LEN && forall|j: int| 0 <= j < s.len() ==> alphabet().contains(#[trigger] s[j])
}

/// Relies on rand's `Rng::gen_range` over `0..n` on the thread-local
/// generator: a value below `n`, drawn uniformly. `gen_range` panics on an
/// empty range, so `n` must be positive.
#[verifier::external_body]
fn random_below(n: usize) -> (r: usize)
    requires
        n > 0,
    ensures
        r < n,
{
    rand::Rng::gen_range(&mut rand::thread_rng(), 0..n)
}

/// Relies on std's `String::push`: appends exactly the given character.
#[verifier::external_body]
fn push_char(s: &mut String, c: char)
    ensures
        final(s)@ == old(s)@.push(c),
{
    s.push(c);
}

/// The alphabet character at index `i`.
fn alphabet_char(i: usize) -> (c: char)
    requires
        i < 32,
    ensures
        c == alphabet()[i as int],
        alphabet().contains(c),
{
    let chars: [char; 32] = [
        'a', 'b', 'c', 'd', 'e', 'f', 'g', 'h', 'i', 'j', 'k',
        'A', 'B', 'C', 'D', 'E', 'F', 'G', 'H', 'I', 'J', 'K',
        '1', '2', '3', '4', '5', '6', '7', '8', '9', '0',
    ];
    let c = chars[i];
    proof {
        assert(chars@ =~= alphabet());
        assert(alphabet().contains(c)) by {
            assert(alphabet()[i as int] == c);
        }
    }
    c
}

/// The short public identifier of a clip.
pub struct ShortCode(pub String);

impl View for ShortCode {
    type V = Seq<char>;

    open spec fn view(&self) -> Seq<char> {
        self.0@
    }
}

impl ShortCode {
    /// Generates a fresh random shortcode: [`CODE_LEN`] characters drawn
    /// from [`alphabet`].
    pub fn new() -> (r: ShortCode)
        ensures
            generated_code(r@),
    {
        let mut code = String::new();
        let mut k: usize = 0;
        while k < CODE_LEN
            invariant
                0 <= k <= CODE_LEN,
                code@.len() == k,
                forall|j: int| 0 <= j < code@.len() ==> alphabet().contains(#[trigger] code@[j]),
            decreases CODE_LEN - k,
        {
            let i = random_below(32);
            let c = alphabet_char(i);
            push_char(&mut code, c);
            k += 1;
        }
        ShortCode(code)
    }

    pub fn as_str(&self) -> (r: &str)
        ensures
            r@ == self@,
    {
        self.0.as_str()
    }

    pub fn into_inner(self) -> (r: String)
        ensures
            r@ == self@,
    {
        self.0
    }

    /// Spells a code of the generated shape from alphabet indices: character
    /// `k` is the alphabet entry at `indices[k]` (reduced to the alphabet's
    /// size), or the first entry once the indices run out.
    pub fn from_indices(indices: &Vec<u8>) -> (r: ShortCode)
        ensures
            generated_code(r@),
    {
        let mut code = String::new();
        let mut k: usize = 0;
        while k < CODE_LEN
            invariant
                0 <= k <= CODE_LEN,
                code@.len() == k,
                forall|j: int| 0 <= j < code@.len() ==> alphabet().contains(#[trigger] code@[j]),
            decreases CODE_LEN - k,
        {
            let i: usize = if k < indices.len() {
                (indices[k] as usize) % 32
            } else {
                0
            };
            let c = alphabet_char(i);
            push_char(&mut code, c);
            k += 1;
        }
        ShortCode(code)
    }

    /// Whether two shortcodes spell the same characters.
    pub fn matches(&self, other: &ShortCode) -> (r: bool)
        ensures
            r == (self@ == other@),
    {
        self.0 == other.0
    }
}

impl Clone for ShortCode {
    fn clone(&self) -> (r: Self)
        ensures
            r@ == self@,
    {
        ShortCode(self.0.clone())
    }
}

impl Default for ShortCode {
    /// The default shortcode is a freshly generated one.
    fn default() -> (r: Self)
        ensures
            generated_code(r@),
    {
        ShortCode::new()
    }
}

impl core::str::FromStr for ShortCode {
    type Err = ClipError;

    /// Reads a caller-supplied code from a lookup path; any string is an
    /// acceptable shortcode shape, so this never fails.
    fn from_str(s: &str) -> Result<Self, Self::Err> {
        Ok(ShortCode(s.to_owned()))
    }
}

impl From<String> for ShortCode {
    /// Wraps a caller-supplied code, as on a lookup path; any string is an
    /// acceptable shortcode shape.
    fn from(code: String) -> (r: ShortCode) {
        ShortCode(code)
    }
}

impl vstd::std_specs::convert::FromSpecImpl<String> for ShortCode {
    open spec fn obeys_from_spec() -> bool {
        true
    }

    open spec fn from_spec(code: String) -> ShortCode {
        ShortCode(code)
    }
}

impl From<ShortCode> for String {
    /// Unwraps a shortcode into its text.
    fn from(code: ShortCode) -> (r: String) {
        code.0
    }
}

impl vstd::std_specs::convert::FromSpecImpl<ShortCode> for String {
    open spec fn obeys_from_spec() -> bool {
        true
    }

    open spec fn from_spec(code: ShortCode) -> String {
        code.0
    }
}

} // verus!
