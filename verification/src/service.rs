//! The clip service: creation and retrieval of clips against the store,
//! enforcing shortcode uniqueness, expiration, password policy and hit
//! counting, and classifying every failure.

use vstd::prelude::*;

use crate::clip::{valid_clip, Clip, ClipError, ClipModel};
use crate::field::{
    content_ok, expired_at, generated_code, norm_pw, opt_str_view, parsed_expiry, password_ok,
    ClipId, Content, Expires, Hits, Password, Posted, ShortCode, Title,
};
use crate::store::{
    bump, code_index, distinct_codes, has_code, lemma_bump_lookup, lookup, with_hit, Store,
    StoreError,
};

verus! {

/// A failure surfaced by the clip service.
#[derive(Debug)]
pub enum ServiceError {
    /// A field of the request failed validation.
    Clip(ClipError),
    /// A storage failure with no domain meaning.
    Data(StoreError),
    /// No such shortcode — or an expired clip, indistinguishable on purpose.
    NotFound,
    /// A password was missing or wrong; carries a displayable message.
    PermissionError(String),
}

impl From<StoreError> for ServiceError {
    /// Classifies a storage failure: only "not found" has a domain meaning;
    /// everything else stays an opaque data error.
    fn from(err: StoreError) -> (r: Self) {
        match err {
            StoreError::NotFound => ServiceError::NotFound,
            other => ServiceError::Data(other),
        }
    }
}

impl vstd::std_specs::convert::FromSpecImpl<StoreError> for ServiceError {
    open spec fn obeys_from_spec() -> bool {
        true
    }

    open spec fn from_spec(err: StoreError) -> ServiceError {
        match err {
            StoreError::NotFound => ServiceError::NotFound,
            other => ServiceError::Data(other),
        }
    }
}

/// A request to create a clip, as raw values from a caller.
pub struct NewClip {
    pub content: String,
    pub title: Option<String>,
    pub expires: Option<String>,
    pub password: Option<String>,
}

/// A request to retrieve a clip by its shortcode.
pub struct GetClip {
    pub shortcode: ShortCode,
    pub password: Option<String>,
}

/// A source of candidate shortcodes for creation. Randomness is an injected
/// capability so that a caller can substitute a deterministic — even
/// collision-prone — source and exercise the retry path.
pub trait CodeSource {
    /// Hands out the next candidate code; always of the generated shape.
    fn next_code(&mut self) -> (c: ShortCode)
        ensures
            generated_code(c@),
    ;
}

/// The default source: every code is drawn fresh at random.
pub struct RandomCodes;

impl CodeSource for RandomCodes {
    fn next_code(&mut self) -> (c: ShortCode) {
        ShortCode::new()
    }
}

/// A deterministic source: each scripted entry spells one code as indices
/// into the generation alphabet; once the script runs out, codes are drawn
/// at random.
pub struct ScriptedCodes {
    scripts: Vec<Vec<u8>>,
}

impl ScriptedCodes {
    pub fn new(scripts: Vec<Vec<u8>>) -> (r: ScriptedCodes) {
        ScriptedCodes { scripts }
    }
}

impl CodeSource for ScriptedCodes {
    fn next_code(&mut self) -> (c: ShortCode) {
        if self.scripts.len() == 0 {
            ShortCode::new()
        } else {
            let script = self.scripts.remove(0);
            ShortCode::from_indices(&script)
        }
    }
}

/// How many shortcodes creation tries before giving up on collisions.
pub const MAX_INSERT_ATTEMPTS: usize = 3;

/// Whether a creation request passes field validation: the content survives
/// trimming and the expiration string, if any, parses.
pub open spec fn request_ok(content: Seq<char>, expires: Option<Seq<char>>) -> bool {
    content_ok(content) && parsed_expiry(expires) is Some
}

/// **CreateClip.** Validates the request, assembles a clip posted `now` with
/// zero hits and a freshly generated shortcode, and persists it; a shortcode
/// collision is retried with a new code, a bounded number of times.
///
/// The contract pins every outcome: each validation failure and the exact
/// error it surfaces as, and, on success, every field of the returned clip,
/// that its shortcode was never issued before, and that the store grew by
/// exactly this clip. Only code collisions — decided by the code source —
/// can turn a valid request into a (data) error.
pub fn new_clip<G: CodeSource>(req: NewClip, codes: &mut G, store: &mut Store, now: i64) -> (r:
    Result<Clip, ServiceError>)
    requires
        old(store).wf(),
    ensures
        final(store).wf(),
        !content_ok(req.content@) ==> (r matches Err(e) && e matches ServiceError::Clip(ce)
            && ce is EmptyContent),
        content_ok(req.content@) && parsed_expiry(opt_str_view(req.expires)) is None ==> (
        r matches Err(e) && e matches ServiceError::Clip(ce) && ce matches ClipError::InvalidDate(m)
            && opt_str_view(req.expires) == Some(m@)),
        request_ok(req.content@, opt_str_view(req.expires)) ==> (r matches Ok(_) || (
        r matches Err(e) && e is Data)),
        (r matches Err(e) && e is Data) ==> old(store)@.len() > 0,
        r matches Ok(clip) ==> ({
            &&& clip@.content == req.content@
            &&& clip@.title == opt_str_view(req.title)
            &&& clip@.password == norm_pw(opt_str_view(req.password))
            &&& Some(clip@.expires) == parsed_expiry(opt_str_view(req.expires))
            &&& clip@.posted == now
            &&& clip@.hits == 0
            &&& generated_code(clip@.shortcode)
            &&& !has_code(old(store)@, clip@.shortcode)
            &&& final(store)@ == old(store)@.push(clip@)
            &&& valid_clip(clip@)
        }),
        r matches Err(_) ==> final(store)@ == old(store)@,
{
    let content = match Content::new(req.content) {
        Ok(c) => c,
        Err(e) => {
            return Err(ServiceError::Clip(e));
        },
    };
    let expires = match Expires::new(req.expires) {
        Ok(x) => x,
        Err(e) => {
            return Err(ServiceError::Clip(e));
        },
    };
    let title = Title::new(req.title);
    let password = Password::new(req.password);
    let mut clip = Clip {
        clip_id: ClipId::new(),
        shortcode: codes.next_code(),
        content,
        title,
        posted: Posted::new(now),
        expires,
        password,
        hits: Hits::zero(),
    };
    let mut attempts: usize = 0;
    while attempts < MAX_INSERT_ATTEMPTS
        invariant
            store.wf(),
            store@ == old(store)@,
            attempts <= MAX_INSERT_ATTEMPTS,
            attempts > 0 ==> old(store)@.len() > 0,
            clip@.content == req.content@,
            clip@.title == opt_str_view(req.title),
            clip@.password == norm_pw(opt_str_view(req.password)),
            Some(clip@.expires) == parsed_expiry(opt_str_view(req.expires)),
            clip@.posted == now,
            clip@.hits == 0,
            generated_code(clip@.shortcode),
            valid_clip(clip@),
        decreases MAX_INSERT_ATTEMPTS - attempts,
    {
        if !store.contains(&clip.shortcode) {
            match store.insert(clip) {
                Ok(stored) => {
                    return Ok(stored);
                },
                Err(_) => {
                    proof {
                        assert(false);
                    }
                    return Err(ServiceError::Data(StoreError::Other));
                },
            }
        }
        clip.shortcode = codes.next_code();
        attempts += 1;
    }
    Err(ServiceError::Data(StoreError::UniquenessViolation))
}

/// What retrieval decides, per request, before any side effect: a missing or
/// expired clip is not found (an expired clip must be indistinguishable from
/// an absent one); a clip whose password is not satisfied is denied; the
/// rest is granted.
pub enum Outcome {
    NotFound,
    Denied,
    Granted(ClipModel),
}

/// The retrieval decision for store contents `s`, shortcode `code`, raw
/// supplied password `pass` and current instant `now`.
pub open spec fn retrieval(
    s: Seq<ClipModel>,
    code: Seq<char>,
    pass: Option<Seq<char>>,
    now: i64,
) -> Outcome {
    match lookup(s, code) {
        None => Outcome::NotFound,
        Some(c) => if expired_at(c.expires, now) {
            Outcome::NotFound
        } else if !password_ok(c.password, norm_pw(pass)) {
            Outcome::Denied
        } else {
            Outcome::Granted(c)
        },
    }
}

/// **GetClip.** Looks the shortcode up, hides expired clips, enforces the
/// password policy, and — only on success — records exactly one hit.
///
/// The returned clip carries the hit count as stored at lookup time, not the
/// just-incremented one; the increment itself is exact in the store.
pub fn get_clip(req: GetClip, store: &mut Store, now: i64) -> (r: Result<Clip, ServiceError>)
    requires
        old(store).wf(),
    ensures
        final(store).wf(),
        match retrieval(old(store)@, req.shortcode@, opt_str_view(req.password), now) {
            Outcome::Granted(c) => r matches Ok(clip) && clip@ == c
                && final(store)@ == bump(old(store)@, req.shortcode@),
            Outcome::NotFound => (r matches Err(e) && e is NotFound)
                && final(store)@ == old(store)@,
            Outcome::Denied => (r matches Err(e) && e is PermissionError)
                && final(store)@ == old(store)@,
        },
{
    let found = store.get(&req.shortcode);
    match found {
        Err(e) => Err(ServiceError::from(e)),
        Ok(clip) => {
            if clip.expires.is_expired_at(now) {
                return Err(ServiceError::NotFound);
            }
            let given = Password::new(req.password);
            if !clip.password.accepts(&given) {
                return Err(
                    ServiceError::PermissionError(
                        "a matching password is required to read this clip".to_owned(),
                    ),
                );
            }
            let _ = store.increment_hits(&req.shortcode);
            Ok(clip)
        },
    }
}

/// How a presentation layer disposes of a retrieval failure: a password
/// failure asks the caller for a password, a missing (or expired) clip is
/// reported as absent, and everything else is an internal failure that must
/// not leak storage detail.
pub enum Disposition {
    AskPassword,
    ReportAbsent,
    ReportInternal,
}

/// Classifies a service failure for display, keeping "no such clip" and
/// "password needed" apart from internal failures.
pub fn classify_failure(err: &ServiceError) -> (r: Disposition)
    ensures
        err is PermissionError ==> r is AskPassword,
        err is NotFound ==> r is ReportAbsent,
        !(err is PermissionError) && !(err is NotFound) ==> r is ReportInternal,
{
    match err {
        ServiceError::PermissionError(_) => Disposition::AskPassword,
        ServiceError::NotFound => Disposition::ReportAbsent,
        _ => Disposition::ReportInternal,
    }
}

/// **Round trip.** A clip just created — its shortcode freshly issued, no
/// password, not yet expired — is retrieved by that shortcode without a
/// password, and retrieval grants exactly the stored clip: content, title
/// and expiration unchanged.
pub proof fn lemma_round_trip(s: Seq<ClipModel>, clip: ClipModel, now: i64)
    requires
        !has_code(s, clip.shortcode),
        clip.password is None,
        !expired_at(clip.expires, now),
    ensures
        retrieval(s.push(clip), clip.shortcode, None, now) == Outcome::Granted(clip),
{
    let t = s.push(clip);
    assert(t[s.len() as int] == clip);
    assert(has_code(t, clip.shortcode));
    let i = code_index(t, clip.shortcode);
    if i < s.len() {
        assert(s[i] == t[i]);
        assert(has_code(s, clip.shortcode));
        assert(false);
    }
    assert(lookup(t, clip.shortcode) == Some(clip));
}

/// **Expired clips are hidden.** Where the stored clip's expiration lies
/// strictly before `now`, retrieval is not-found — whatever password is
/// supplied — even though the record exists in the store.
pub proof fn lemma_expired_is_absent(
    s: Seq<ClipModel>,
    c: ClipModel,
    code: Seq<char>,
    t: i64,
    pass: Option<Seq<char>>,
    now: i64,
)
    requires
        lookup(s, code) == Some(c),
        c.expires == Some(t),
        t < now,
    ensures
        retrieval(s, code, pass, now) == Outcome::NotFound,
{
}

/// **Password gate.** Where the stored clip carries a password and has not
/// expired: retrieval with no password, or with any non-matching one, is
/// denied; retrieval with exactly the stored password is granted the clip.
pub proof fn lemma_password_gate(
    s: Seq<ClipModel>,
    c: ClipModel,
    code: Seq<char>,
    pw: Seq<char>,
    pass: Option<Seq<char>>,
    now: i64,
)
    requires
        lookup(s, code) == Some(c),
        c.password == Some(pw),
        !expired_at(c.expires, now),
    ensures
        norm_pw(pass) != Some(pw) ==> retrieval(s, code, pass, now) == Outcome::Denied,
        norm_pw(pass) == Some(pw) ==> retrieval(s, code, pass, now) == Outcome::Granted(c),
{
}

/// The store contents after `n` hits recorded on `code`, one at a time.
pub open spec fn bump_n(s: Seq<ClipModel>, code: Seq<char>, n: nat) -> Seq<ClipModel>
    decreases n,
{
    if n == 0 {
        s
    } else {
        bump(bump_n(s, code, (n - 1) as nat), code)
    }
}

/// **No lost hits.** Retrievals of one shortcode serialize through the
/// store's exact increment: starting from a store where retrieval of `code`
/// is granted the clip `c`, each of `n` successive retrievals is granted in
/// turn, and the clip's hit count afterwards is exactly its initial count
/// plus `n` (as long as that stays representable) — no increment is lost,
/// and every other clip is untouched.
pub proof fn lemma_hits_accumulate(
    s: Seq<ClipModel>,
    c: ClipModel,
    code: Seq<char>,
    pass: Option<Seq<char>>,
    now: i64,
    n: nat,
)
    requires
        distinct_codes(s),
        lookup(s, code) == Some(c),
        retrieval(s, code, pass, now) == Outcome::Granted(c),
        c.hits + n <= u64::MAX,
    ensures
        distinct_codes(bump_n(s, code, n)),
        forall|k: nat| k < n ==> retrieval(bump_n(s, code, k), code, pass, now) is Granted,
        lookup(bump_n(s, code, n), code) == Some(ClipModel { hits: (c.hits + n) as u64, ..c }),
        bump_n(s, code, n).len() == s.len(),
        forall|i: int|
            0 <= i < s.len() && s[i].shortcode != code ==> bump_n(s, code, n)[i] == s[i],
    decreases n,
{
    if n == 0 {
        assert(ClipModel { hits: (c.hits + 0) as u64, ..c } == c);
    } else {
        let m = (n - 1) as nat;
        lemma_hits_accumulate(s, c, code, pass, now, m);
        let sm = bump_n(s, code, m);
        let cm = ClipModel { hits: (c.hits + m) as u64, ..c };
        assert(lookup(sm, code) == Some(cm));
        lemma_bump_lookup(sm, code, cm);
        assert(retrieval(sm, code, pass, now) == Outcome::Granted(cm));
        assert forall|k: nat| k < n implies retrieval(bump_n(s, code, k), code, pass, now)
            is Granted by {
            if k == m {
                assert(retrieval(bump_n(s, code, k), code, pass, now) == Outcome::Granted(cm));
            }
        }
        assert(with_hit(cm) == ClipModel { hits: (c.hits + n) as u64, ..c });
        assert(bump_n(s, code, n) == bump(sm, code));
        assert forall|i: int|
            0 <= i < s.len() && s[i].shortcode != code implies bump_n(s, code, n)[i] == s[i] by {
            assert(sm[i] == s[i]);
            assert(sm[i].shortcode != code);
            assert(bump(sm, code)[i] == sm[i]);
        }
    }
}

} // verus!
