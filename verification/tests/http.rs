use ascom_alpaca::devices::DeviceType;
use ascom_alpaca::http::{
    accepts_image_bytes, image_content_type, json_content_type, route_device_action, split_fields,
    transaction_id_mismatch, ContentTypeError, ImageResponseFormat, RequestTransaction,
    TransactionCounter,
};

fn values(v: &[&str]) -> Vec<Vec<u8>> {
    v.iter().map(|s| s.as_bytes().to_vec()).collect()
}

#[test]
fn accept_headers_asking_for_image_bytes() {
    assert!(accepts_image_bytes(&values(&["application/imagebytes"])));
    assert!(accepts_image_bytes(&values(&["text/html, Application/ImageBytes;q=0.9"])));
    assert!(accepts_image_bytes(&values(&["*/*", "application/json, application/imagebytes"])));
    assert!(!accepts_image_bytes(&values(&["application/json"])));
    assert!(!accepts_image_bytes(&values(&["application/imagebytes+json"])));
    assert!(!accepts_image_bytes(&vec![b"application/imagebytes\x01".to_vec()]));
    assert!(!accepts_image_bytes(&vec![]));
}

#[test]
fn invalid_accept_headers_accept_nothing() {
    assert!(!accepts_image_bytes(&values(&["bad//x, application/imagebytes"])));
    assert!(accepts_image_bytes(&values(&["application/imagebytes, bad//x"])));
    assert!(!accepts_image_bytes(&values(&["application/imagebytes", "bad//x"])));
    assert!(!accepts_image_bytes(&vec![b"application/imagebytes".to_vec(), b"text/html\x7f".to_vec()]));
}

#[test]
fn json_responses_must_be_utf8_json() {
    assert!(json_content_type("application/json").is_ok());
    assert!(json_content_type("application/json; charset=utf-8").is_ok());
    assert!(matches!(json_content_type("text/plain"), Err(ContentTypeError::NotJson(e)) if e == "text/plain"));
    assert!(matches!(json_content_type("application/json; charset=latin1"), Err(ContentTypeError::UnsupportedCharset(c)) if c == "latin1"));
    assert!(matches!(json_content_type("not a mime"), Err(ContentTypeError::InvalidMime)));
}

#[test]
fn image_responses_come_in_two_formats() {
    assert!(matches!(image_content_type("application/imagebytes"), Ok(ImageResponseFormat::ImageBytes)));
    assert!(matches!(image_content_type("application/json"), Ok(ImageResponseFormat::Json)));
    assert!(matches!(image_content_type("image/png"), Err(ContentTypeError::NotJson(_))));
}

#[test]
fn camera_image_requests_are_routed() {
    let r = route_device_action(DeviceType::Camera, true, "imagearrayvariant".to_owned(), true);
    assert_eq!(r.action, "imagearray");
    assert!(r.image_bytes);
    let r = route_device_action(DeviceType::Camera, false, "imagearray".to_owned(), true);
    assert!(!r.image_bytes);
    let r = route_device_action(DeviceType::Camera, true, "imagearray".to_owned(), false);
    assert!(!r.image_bytes);
    let r = route_device_action(DeviceType::Telescope, true, "imagearrayvariant".to_owned(), true);
    assert_eq!(r.action, "imagearrayvariant");
    assert!(!r.image_bytes);
}

#[test]
fn transaction_ids() {
    assert!(transaction_id_mismatch(3, Some(4)));
    assert!(!transaction_id_mismatch(3, Some(3)));
    assert!(!transaction_id_mismatch(3, None));
    let mut counter = TransactionCounter::new();
    let t = RequestTransaction::new(9, &mut counter);
    assert_eq!(t.client_id, 9);
    assert_eq!(t.client_transaction_id, 1);
    let u = RequestTransaction::new(9, &mut counter);
    assert_eq!(u.client_id, 9);
    assert_eq!(u.client_transaction_id, 2);
    assert_eq!(counter.issued(), 2);
}

#[test]
fn transaction_counter_starts_at_one_and_increases() {
    let mut counter = TransactionCounter::new();
    assert_eq!(counter.issued(), 0);
    assert_eq!(counter.next_id(), 1);
    assert_eq!(counter.next_id(), 2);
    assert_eq!(counter.next_id(), 3);
    assert_eq!(counter.issued(), 3);
}

#[test]
fn transaction_numbers_are_never_repeated() {
    let mut counter = TransactionCounter::new();
    let mut seen: Vec<u32> = Vec::new();
    for _ in 0..100 {
        let id = counter.next_id();
        assert!(id != 0);
        assert!(seen.last().map_or(true, |&last| id > last));
        assert!(!seen.contains(&id));
        seen.push(id);
    }
    assert_eq!(seen.len(), 100);
    assert_eq!(seen[99], 100);
}

#[test]
fn flattened_fields_are_split_by_name() {
    let fields = vec![
        ("ClientTransactionID".to_owned(), 1),
        ("Value".to_owned(), 2),
        ("ServerTransactionID".to_owned(), 3),
        ("ClientTransactionID".to_owned(), 4),
        ("ErrorNumber".to_owned(), 5),
    ];
    let names = vec!["ClientTransactionID".to_owned(), "ServerTransactionID".to_owned(), "Other".to_owned()];
    let (small, rest) = split_fields(fields, &names);
    assert_eq!(small, vec![Some(4), Some(3), None]);
    assert_eq!(rest, vec![("Value".to_owned(), 2), ("ErrorNumber".to_owned(), 5)]);
}
