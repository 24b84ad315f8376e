//! Tests for the validated field types, the shortcode generator and the
//! store's own contract.

use clipstash::clip::{Clip, ClipError};
use clipstash::field::{
    ClipId, Content, Expires, Hits, Password, Posted, ShortCode, Title, CODE_LEN,
};
use clipstash::store::{Store, StoreError};

const ALPHABET: &str = "abcdefghijkABCDEFGHIJK1234567890";

#[test]
fn generated_codes_have_the_fixed_shape() {
    for _ in 0..20 {
        let code = ShortCode::new().into_inner();
        assert_eq!(code.chars().count(), 15);
        assert_eq!(CODE_LEN, 15);
        for c in code.chars() {
            assert!(ALPHABET.contains(c), "unexpected character in shortcode");
        }
    }
}

#[test]
fn generated_codes_are_practically_unique() {
    let a = ShortCode::new();
    let b = ShortCode::new();
    assert_ne!(a.as_str(), b.as_str());
}

#[test]
fn scripted_indices_spell_the_expected_code() {
    let indices: Vec<u8> = (0..15).collect();
    let code = ShortCode::from_indices(&indices);
    assert_eq!(code.as_str(), "abcdefghijkABCD");
    // Indices wrap around the alphabet, and a short script is padded.
    let code = ShortCode::from_indices(&vec![32, 33]);
    assert_eq!(code.as_str(), "abaaaaaaaaaaaaa");
}

#[test]
fn content_rejects_whitespace_only_text() {
    assert!(matches!(
        Content::new("".to_owned()),
        Err(ClipError::EmptyContent)
    ));
    assert!(matches!(
        Content::new(" \t\r\n\u{a0}\u{2003}".to_owned()),
        Err(ClipError::EmptyContent)
    ));
    let c = Content::new("  x  ".to_owned()).unwrap();
    assert_eq!(c.as_str(), "  x  ");
}

#[test]
fn title_keeps_what_it_is_given() {
    assert_eq!(Title::new(None).into_inner(), None);
    assert_eq!(
        Title::new(Some("".to_owned())).into_inner(),
        Some("".to_owned())
    );
    assert_eq!(
        Title::new(Some("a title".to_owned())).into_inner(),
        Some("a title".to_owned())
    );
}

#[test]
fn password_normalizes_empty_to_absent() {
    assert!(!Password::new(None).is_required());
    assert!(!Password::new(Some("".to_owned())).is_required());
    let p = Password::new(Some("secret".to_owned()));
    assert!(p.is_required());
    assert_eq!(p.into_inner(), Some("secret".to_owned()));
}

#[test]
fn expiration_parses_exact_timestamps() {
    let e = Expires::new(Some("2000-01-01T00:00:00Z".to_owned())).unwrap();
    assert_eq!(e.timestamp(), Some(946_684_800));
    let e = Expires::new(Some("2100-01-01T00:00:00+00:00".to_owned())).unwrap();
    assert_eq!(e.timestamp(), Some(4_102_444_800));
    let e = Expires::new(None).unwrap();
    assert_eq!(e.timestamp(), None);
    match Expires::new(Some("not a date".to_owned())) {
        Err(ClipError::InvalidDate(m)) => assert_eq!(m, "not a date"),
        _ => panic!("expected an invalid-date error"),
    }
}

#[test]
fn expiration_boundary_is_at_or_before_now() {
    let e = Expires::at(Some(100));
    assert!(e.is_expired_at(101));
    assert!(e.is_expired_at(100), "an expiration exactly now has passed");
    assert!(!e.is_expired_at(99));
    assert!(!Expires::at(None).is_expired_at(i64::MAX));
}

#[test]
fn hits_reject_negative_counts() {
    assert!(matches!(Hits::new(-1), Err(ClipError::Hits(-1))));
    let h = Hits::new(7).unwrap();
    assert_eq!(h.count(), 7);
    assert_eq!(Hits::zero().count(), 0);
    assert_eq!(Hits::zero().incremented().count(), 1);
    assert_eq!(Hits::new(i64::MAX).unwrap().count(), i64::MAX as u64);
}

#[test]
fn simple_fields_round_trip() {
    assert_eq!(Posted::new(42).into_inner(), 42);
    assert_eq!(ClipId::from_raw(99).into_inner(), 99);
    let code: ShortCode = ShortCode::from("abc".to_owned());
    assert_eq!(code.as_str(), "abc");
    let text: String = ShortCode::from("xyz".to_owned()).into();
    assert_eq!(text, "xyz");
}

fn sample_clip(code: &str, content: &str) -> Clip {
    Clip {
        clip_id: ClipId::from_raw(1),
        shortcode: ShortCode::from(code.to_owned()),
        content: Content::new(content.to_owned()).unwrap(),
        title: Title::new(None),
        posted: Posted::new(0),
        expires: Expires::at(None),
        password: Password::new(None),
        hits: Hits::zero(),
    }
}

#[test]
fn store_refuses_duplicate_shortcodes() {
    let mut store = Store::new();
    store.insert(sample_clip("abc", "one")).unwrap();
    let r = store.insert(sample_clip("abc", "two"));
    assert!(matches!(r, Err(StoreError::UniquenessViolation)));
    assert_eq!(store.len(), 1);
}

#[test]
fn store_signals_missing_codes() {
    let mut store = Store::new();
    let code = ShortCode::from("missing".to_owned());
    assert!(matches!(store.get(&code), Err(StoreError::NotFound)));
    assert!(matches!(
        store.increment_hits(&code),
        Err(StoreError::NotFound)
    ));
}

#[test]
fn store_increments_exactly_one_clip() {
    let mut store = Store::new();
    store.insert(sample_clip("abc", "one")).unwrap();
    store.insert(sample_clip("xyz", "two")).unwrap();
    let code = ShortCode::from("abc".to_owned());
    store.increment_hits(&code).unwrap();
    store.increment_hits(&code).unwrap();
    assert_eq!(store.get(&code).unwrap().hits.count(), 2);
    let other = ShortCode::from("xyz".to_owned());
    assert_eq!(store.get(&other).unwrap().hits.count(), 0);
}
