use ascom_alpaca::errors::{ASCOMError, ASCOMErrorCode};
use ascom_alpaca::image_json::{ImageJsonError, JsonNode};
use ascom_alpaca::json_response::{
    json_image_result, response_result, response_transaction, TransactionField, TransactionFieldError,
};

fn field(k: &str, v: JsonNode) -> (String, JsonNode) {
    (k.to_owned(), v)
}

#[test]
fn transaction_ids_are_read_from_the_body() {
    let fields = vec![
        field("Value", JsonNode::Array(vec![])),
        field("ClientTransactionID", JsonNode::Integer(12)),
        field("ServerTransactionID", JsonNode::Integer(34)),
    ];
    let t = response_transaction(&fields).expect("valid ids");
    assert_eq!(t.client_transaction_id, Some(12));
    assert_eq!(t.server_transaction_id, Some(34));
    let t = response_transaction(&vec![field("ClientTransactionID", JsonNode::Null)]).expect("valid ids");
    assert_eq!(t.client_transaction_id, None);
    assert_eq!(t.server_transaction_id, None);
}

#[test]
fn bad_transaction_ids_are_refused() {
    assert_eq!(
        response_transaction(&vec![field("ClientTransactionID", JsonNode::Integer(0))]),
        Err(TransactionFieldError::InvalidValue(TransactionField::ClientTransactionId))
    );
    assert_eq!(
        response_transaction(&vec![field("ServerTransactionID", JsonNode::Integer(1 << 32))]),
        Err(TransactionFieldError::InvalidValue(TransactionField::ServerTransactionId))
    );
    assert_eq!(
        response_transaction(&vec![
            field("ServerTransactionID", JsonNode::Integer(1)),
            field("ServerTransactionID", JsonNode::Integer(2)),
        ]),
        Err(TransactionFieldError::DuplicateField(TransactionField::ServerTransactionId))
    );
}

#[test]
fn the_error_number_decides_between_value_and_error() {
    let ok = ASCOMError::from_wire(0, String::new());
    assert!(matches!(response_result::<u8, ()>(ok, Ok(5)), Ok(Ok(5))));
    let ok = ASCOMError::from_wire(0, String::new());
    assert!(matches!(response_result::<u8, &str>(ok, Err("no value")), Err("no value")));
    let bad = ASCOMError::from_wire(0x401, "bad".to_owned());
    match response_result::<u8, &str>(bad, Err("no value")) {
        Ok(Err(e)) => assert_eq!(e.code, ASCOMErrorCode::invalid_value()),
        other => panic!("unexpected {other:?}"),
    }
}

#[test]
fn json_image_results() {
    let fields = vec![
        field("Type", JsonNode::Integer(2)),
        field("Rank", JsonNode::Integer(2)),
        field("Value", JsonNode::Array(vec![JsonNode::Array(vec![JsonNode::Integer(7)])])),
    ];
    let img = json_image_result(ASCOMError::from_wire(0, String::new()), &fields)
        .expect("readable")
        .expect("an image");
    assert_eq!(img.as_slice(), &[7]);
    let err = json_image_result(ASCOMError::from_wire(0x40B, "busy".to_owned()), &vec![])
        .expect("readable")
        .expect_err("an error");
    assert_eq!(err.message, "busy");
    assert!(matches!(
        json_image_result(ASCOMError::from_wire(0, String::new()), &vec![]),
        Err(ImageJsonError::UnexpectedField { .. })
    ));
}
