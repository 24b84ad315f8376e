//! The clip record, its mathematical model, and the field-level error
//! taxonomy.

use vstd::prelude::*;

use crate::field::{content_ok, ClipId, Content, Expires, Hits, Password, Posted, ShortCode, Title};

verus! {

/// A failure detected while validating one field of a clip.
///
/// Only `EmptyContent`, `InvalidDate` and `Hits` can arise from the
/// validators in this crate; the remaining variants complete the taxonomy of
/// field-level failures a caller may have to classify.
#[derive(Debug)]
pub enum ClipError {
    /// A password value was rejected; carries a description of the problem.
    InvalidPassword(String),
    /// A title value was rejected; carries a description of the problem.
    InvalidTitle(String),
    /// The content, once trimmed of whitespace, was empty.
    EmptyContent,
    /// An expiration string could not be parsed as a timestamp; carries the
    /// offending string.
    InvalidDate(String),
    /// An identifier from storage could not be read; carries the raw text.
    Id(String),
    /// A hit count from storage was not representable; carries the raw value.
    Hits(i64),
}

/// The mathematical model of a clip: every field as a plain value.
pub struct ClipModel {
    pub id: u128,
    pub shortcode: Seq<char>,
    pub content: Seq<char>,
    pub title: Option<Seq<char>>,
    pub posted: i64,
    pub expires: Option<i64>,
    pub password: Option<Seq<char>>,
    pub hits: u64,
}

/// What every persisted clip satisfies: content that survives trimming, a
/// non-empty shortcode, and a password that was normalized (never empty).
pub open spec fn valid_clip(c: ClipModel) -> bool {
    &&& content_ok(c.content)
    &&& c.shortcode.len() > 0
    &&& match c.password {
        Some(p) => p.len() > 0,
        None => true,
    }
}

/// The aggregate record: a stored piece of text plus its metadata.
pub struct Clip {
    pub clip_id: ClipId,
    pub shortcode: ShortCode,
    pub content: Content,
    pub title: Title,
    pub posted: Posted,
    pub expires: Expires,
    pub password: Password,
    pub hits: Hits,
}

impl View for Clip {
    type V = ClipModel;

    open spec fn view(&self) -> ClipModel {
        ClipModel {
            id: self.clip_id@,
            shortcode: self.shortcode@,
            content: self.content@,
            title: self.title@,
            posted: self.posted@,
            expires: self.expires@,
            password: self.password@,
            hits: self.hits@,
        }
    }
}

impl Clone for Clip {
    fn clone(&self) -> (r: Self)
        ensures
            r@ == self@,
    {
        Clip {
            clip_id: self.clip_id.clone(),
            shortcode: self.shortcode.clone(),
            content: self.content.clone(),
            title: self.title.clone(),
            posted: self.posted.clone(),
            expires: self.expires.clone(),
            password: self.password.clone(),
            hits: self.hits.clone(),
        }
    }
}

} // verus!
