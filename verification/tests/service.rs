//! Scenario tests for the clip service: creation, retrieval, expiration,
//! password policy, hit counting and the collision retry path.

use clipstash::clip::ClipError;
use clipstash::service::{
    classify_failure, get_clip, new_clip, Disposition, GetClip, NewClip, RandomCodes,
    ScriptedCodes, ServiceError,
};
use clipstash::store::{Store, StoreError};

const NOW: i64 = 1_700_000_000;

fn create(
    store: &mut Store,
    content: &str,
    title: Option<&str>,
    expires: Option<&str>,
    password: Option<&str>,
) -> Result<clipstash::clip::Clip, ServiceError> {
    let req = NewClip {
        content: content.to_owned(),
        title: title.map(|s| s.to_owned()),
        expires: expires.map(|s| s.to_owned()),
        password: password.map(|s| s.to_owned()),
    };
    let mut codes = RandomCodes;
    new_clip(req, &mut codes, store, NOW)
}

fn get(
    store: &mut Store,
    code: &clipstash::field::ShortCode,
    password: Option<&str>,
) -> Result<clipstash::clip::Clip, ServiceError> {
    let req = GetClip {
        shortcode: code.clone(),
        password: password.map(|s| s.to_owned()),
    };
    get_clip(req, store, NOW)
}

#[test]
fn created_clip_is_fresh() {
    let mut store = Store::new();
    let clip = create(&mut store, "hello world", None, None, None).unwrap();
    assert_eq!(clip.hits.count(), 0);
    assert!(!clip.content.as_str().is_empty());
    assert_eq!(clip.posted.clone().into_inner(), NOW);
    assert_eq!(store.len(), 1);
}

#[test]
fn round_trip_returns_identical_fields() {
    let mut store = Store::new();
    let clip = create(
        &mut store,
        "some text",
        Some("a title"),
        Some("2100-01-01T00:00:00Z"),
        None,
    )
    .unwrap();
    let got = get(&mut store, &clip.shortcode, None).unwrap();
    assert_eq!(got.content.as_str(), "some text");
    assert_eq!(got.title.into_inner().as_deref(), Some("a title"));
    assert_eq!(got.expires.timestamp(), clip.expires.timestamp());
}

#[test]
fn expired_clip_is_not_found() {
    let mut store = Store::new();
    let clip = create(&mut store, "x", None, Some("2000-01-01T00:00:00Z"), None).unwrap();
    assert_eq!(store.len(), 1, "the record itself stays in storage");
    let got = get(&mut store, &clip.shortcode, None);
    assert!(matches!(got, Err(ServiceError::NotFound)));
}

#[test]
fn expired_exactly_now_is_not_found() {
    let mut store = Store::new();
    let clip = create(&mut store, "on the dot", None, None, None).unwrap();
    let mut exact = clip.clone();
    // Rebuild the clip with an expiration exactly at "now" through the field
    // type, and check the boundary through the store directly.
    exact.expires = clipstash::field::Expires::at(Some(NOW));
    let mut store2 = Store::new();
    store2.insert(exact).unwrap();
    let got = get(&mut store2, &clip.shortcode, None);
    assert!(matches!(got, Err(ServiceError::NotFound)));
}

#[test]
fn password_wrong_or_missing_is_denied() {
    let mut store = Store::new();
    let clip = create(&mut store, "hello", None, None, Some("secret")).unwrap();
    let missing = get(&mut store, &clip.shortcode, None);
    assert!(matches!(missing, Err(ServiceError::PermissionError(_))));
    let wrong = get(&mut store, &clip.shortcode, Some("guess"));
    assert!(matches!(wrong, Err(ServiceError::PermissionError(_))));
    let right = get(&mut store, &clip.shortcode, Some("secret")).unwrap();
    assert_eq!(right.content.as_str(), "hello");
}

#[test]
fn empty_password_means_none_required() {
    let mut store = Store::new();
    let clip = create(&mut store, "open to all", None, None, Some("")).unwrap();
    let got = get(&mut store, &clip.shortcode, None);
    assert!(got.is_ok());
}

#[test]
fn hits_count_successful_retrievals() {
    let mut store = Store::new();
    let clip = create(&mut store, "counted", None, None, Some("pw")).unwrap();
    assert_eq!(clip.hits.count(), 0);
    // A denied retrieval records no hit.
    let _ = get(&mut store, &clip.shortcode, None);
    let first = get(&mut store, &clip.shortcode, Some("pw")).unwrap();
    assert_eq!(first.hits.count(), 0, "hit count as stored at lookup time");
    let second = get(&mut store, &clip.shortcode, Some("pw")).unwrap();
    assert_eq!(second.hits.count(), 1);
    let third = get(&mut store, &clip.shortcode, Some("pw")).unwrap();
    assert_eq!(third.hits.count(), 2, "two successful retrievals so far");
    let stored = store.get(&clip.shortcode).unwrap();
    assert_eq!(
        stored.hits.count(),
        3,
        "the stored count equals the number of successful retrievals"
    );
}

#[test]
fn failures_are_classified_for_display() {
    let denied = ServiceError::PermissionError("try again".to_owned());
    assert!(matches!(classify_failure(&denied), Disposition::AskPassword));
    assert!(matches!(
        classify_failure(&ServiceError::NotFound),
        Disposition::ReportAbsent
    ));
    assert!(matches!(
        classify_failure(&ServiceError::Data(StoreError::Other)),
        Disposition::ReportInternal
    ));
    assert!(matches!(
        classify_failure(&ServiceError::Clip(ClipError::EmptyContent)),
        Disposition::ReportInternal
    ));
}

#[test]
fn empty_content_is_rejected() {
    let mut store = Store::new();
    let r = create(&mut store, "   \t\n", None, None, None);
    assert!(matches!(r, Err(ServiceError::Clip(ClipError::EmptyContent))));
    assert_eq!(store.len(), 0, "nothing is persisted on validation failure");
}

#[test]
fn unparseable_expiration_is_rejected() {
    let mut store = Store::new();
    let r = create(&mut store, "fine content", None, Some("tomorrow-ish"), None);
    match r {
        Err(ServiceError::Clip(ClipError::InvalidDate(m))) => assert_eq!(m, "tomorrow-ish"),
        other => panic!("expected an invalid-date error, got {:?}", other.is_ok()),
    }
    assert_eq!(store.len(), 0);
}

#[test]
fn colliding_code_is_retried_with_a_fresh_one() {
    let mut store = Store::new();
    let taken: Vec<u8> = (0..15).collect();
    let fresh: Vec<u8> = (10..25).collect();

    let mut first_codes = ScriptedCodes::new(vec![taken.clone()]);
    let req = NewClip {
        content: "first".to_owned(),
        title: None,
        expires: None,
        password: None,
    };
    let first = new_clip(req, &mut first_codes, &mut store, NOW).unwrap();

    // The second creation draws the same code first, collides, and retries.
    let mut second_codes = ScriptedCodes::new(vec![taken, fresh]);
    let req = NewClip {
        content: "second".to_owned(),
        title: None,
        expires: None,
        password: None,
    };
    let second = new_clip(req, &mut second_codes, &mut store, NOW).unwrap();

    assert_ne!(
        first.shortcode.as_str(),
        second.shortcode.as_str(),
        "the colliding code is never issued twice"
    );
    assert_eq!(store.len(), 2);
}

#[test]
fn exhausted_retries_become_a_data_error() {
    let mut store = Store::new();
    let taken: Vec<u8> = (0..15).collect();

    let mut codes = ScriptedCodes::new(vec![taken.clone()]);
    let req = NewClip {
        content: "first".to_owned(),
        title: None,
        expires: None,
        password: None,
    };
    new_clip(req, &mut codes, &mut store, NOW).unwrap();

    // Every draw collides: creation gives up with a data error.
    let mut stubborn = ScriptedCodes::new(vec![taken.clone(), taken.clone(), taken]);
    let req = NewClip {
        content: "second".to_owned(),
        title: None,
        expires: None,
        password: None,
    };
    let r = new_clip(req, &mut stubborn, &mut store, NOW);
    assert!(matches!(r, Err(ServiceError::Data(_))));
    assert_eq!(store.len(), 1, "the failed creation persists nothing");
}

#[test]
fn missing_shortcode_is_not_found() {
    let mut store = Store::new();
    let code = clipstash::field::ShortCode::from("nosuchcode".to_owned());
    let r = get(&mut store, &code, None);
    assert!(matches!(r, Err(ServiceError::NotFound)));
}

#[test]
fn storage_errors_are_classified() {
    assert!(matches!(
        ServiceError::from(StoreError::NotFound),
        ServiceError::NotFound
    ));
    assert!(matches!(
        ServiceError::from(StoreError::UniquenessViolation),
        ServiceError::Data(StoreError::UniquenessViolation)
    ));
    assert!(matches!(
        ServiceError::from(StoreError::Other),
        ServiceError::Data(StoreError::Other)
    ));
}
