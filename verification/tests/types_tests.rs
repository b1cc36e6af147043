use rabbitmq_stream_client::superstream::route_hash;
use rabbitmq_stream_client::types::ConfirmationStatus;
use rabbitmq_stream_client::types::Message;
use rabbitmq_stream_client::types::ResponseCode;

#[test]
fn message_builder_assembles_every_field() {
    let message = Message::builder()
        .body(b"payload".to_vec())
        .publishing_id(9)
        .filter_value("region-a".to_string())
        .property("app".to_string(), "billing".to_string())
        .property("kind".to_string(), "invoice".to_string())
        .build();

    assert_eq!(Some(&b"payload".to_vec()), message.data());
    assert_eq!(Some(9), message.publishing_id());
    assert_eq!(Some(&"region-a".to_string()), message.filter_value());
    assert_eq!(
        &vec![
            ("app".to_string(), "billing".to_string()),
            ("kind".to_string(), "invoice".to_string()),
        ],
        message.properties()
    );

    let bare = Message::builder().build();
    assert_eq!(None, bare.data());
    assert_eq!(None, bare.publishing_id());
    assert_eq!(None, bare.filter_value());
    assert!(bare.properties().is_empty());
}

#[test]
fn route_hash_has_exact_known_values() {
    // The empty key leaves the hash at its offset basis; "abc" folds each
    // byte through the xor-multiply step.
    assert_eq!(2166136261, route_hash(""));
    assert_eq!(440920331, route_hash("abc"));
    assert_eq!(4084557920, route_hash("customer-17"));
}

#[test]
fn confirmation_statuses_compare_by_content() {
    assert_eq!(ConfirmationStatus::Confirmed, ConfirmationStatus::Confirmed);
    assert_ne!(
        ConfirmationStatus::Confirmed,
        ConfirmationStatus::Rejected(ResponseCode::InternalError)
    );
    assert_ne!(ConfirmationStatus::Confirmed, ConfirmationStatus::TimedOut);
}
