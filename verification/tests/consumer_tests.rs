use rabbitmq_stream_client::consumer::FilterConfiguration;
use rabbitmq_stream_client::error::ConsumerCloseError;
use rabbitmq_stream_client::error::ConsumerCreateError;
use rabbitmq_stream_client::error::ConsumerDeliveryError;
use rabbitmq_stream_client::error::ConsumerStoreOffsetError;
use rabbitmq_stream_client::types::Message;
use rabbitmq_stream_client::types::OffsetSpecification;
use rabbitmq_stream_client::types::ResponseCode;
use rabbitmq_stream_client::Environment;

fn environment() -> Environment {
    Environment::builder().build()
}

#[test]
fn credit_is_requested_before_exhaustion() {
    // A synthetic broker delivers one chunk per credit. With unlimited
    // chunks available, the client grants a new block before credit runs
    // out: credit never drops below the refill threshold, and never
    // exceeds the ceiling.
    let env = environment();
    let mut consumer = env
        .consumer()
        .build("flow".to_string(), 0, false, ResponseCode::Okay, 10, 5)
        .unwrap();

    let mut broker_credit: u64 = u64::from(consumer.credit);
    for chunk in 0..100u64 {
        // The broker may deliver only while it holds credit.
        assert!(broker_credit > 0, "broker starved of credit");
        broker_credit -= 1;
        let (_deliveries, granted) = consumer.on_delivery(chunk, vec![Message::builder().build()]);
        broker_credit += u64::from(granted);
        assert!(consumer.credit >= consumer.refill_threshold);
        assert!(consumer.credit <= consumer.max_credit);
    }
}

#[test]
fn deliveries_are_ordered_and_tagged() {
    let env = environment();
    let mut consumer = env
        .consumer()
        .offset(OffsetSpecification::Next)
        .build("tagged".to_string(), 7, false, ResponseCode::Okay, 10, 5)
        .unwrap();

    let chunk = vec![
        Message::builder().body(b"one".to_vec()).build(),
        Message::builder().body(b"two".to_vec()).build(),
        Message::builder().body(b"three".to_vec()).build(),
    ];
    let (deliveries, _) = consumer.on_delivery(0, chunk);
    assert_eq!(3, deliveries.len());
    for (i, d) in deliveries.iter().enumerate() {
        assert_eq!(7, d.subscription_id);
        assert_eq!(i as u64, d.offset);
    }
    assert_eq!(Some(&b"one".to_vec()), deliveries[0].message.data());
    assert_eq!(3, consumer.offset);

    // The next chunk carries the offset the broker assigned it.
    let (more, _) = consumer.on_delivery(3, vec![Message::builder().build()]);
    assert_eq!(3, more[0].offset);
}

#[test]
fn single_active_consumer_requires_a_name() {
    let env = environment();
    let unnamed = env.consumer().enable_single_active_consumer(true).build(
        "group".to_string(),
        0,
        false,
        ResponseCode::Okay,
        10,
        5,
    );
    assert!(matches!(
        unnamed,
        Err(ConsumerCreateError::SingleActiveConsumerNotSupported)
    ));

    let named = env
        .consumer()
        .name("member")
        .enable_single_active_consumer(true)
        .build("group".to_string(), 0, false, ResponseCode::Okay, 10, 5);
    assert!(named.is_ok());
}

#[test]
fn filtering_requires_the_broker_feature() {
    let env = environment();
    let filter = FilterConfiguration {
        values: vec!["region-a".to_string()],
        match_unfiltered: false,
    };
    let unsupported = env.consumer().filter_input(Some(filter.clone())).build(
        "filtered".to_string(),
        0,
        false,
        ResponseCode::Okay,
        10,
        5,
    );
    assert!(matches!(
        unsupported,
        Err(ConsumerCreateError::FilteringNotSupport)
    ));

    let supported = env.consumer().filter_input(Some(filter)).build(
        "filtered".to_string(),
        0,
        true,
        ResponseCode::Okay,
        10,
        5,
    );
    assert!(supported.is_ok());
}

#[test]
fn subscribe_failures_surface_stream_and_status() {
    let env = environment();
    let missing = env.consumer().build(
        "absent".to_string(),
        0,
        false,
        ResponseCode::StreamDoesNotExist,
        10,
        5,
    );
    assert!(matches!(
        missing,
        Err(ConsumerCreateError::StreamDoesNotExist { stream }) if stream == "absent"
    ));

    let refused = env.consumer().build(
        "locked".to_string(),
        0,
        false,
        ResponseCode::AccessRefused,
        10,
        5,
    );
    assert!(matches!(
        refused,
        Err(ConsumerCreateError::Create { stream, status })
            if stream == "locked" && status == ResponseCode::AccessRefused
    ));
}

#[test]
fn store_offset_needs_a_name() {
    let env = environment();
    let anonymous = env
        .consumer()
        .build("offsets".to_string(), 0, false, ResponseCode::Okay, 10, 5)
        .unwrap();
    assert!(matches!(
        anonymous.store_offset(),
        Err(ConsumerStoreOffsetError::NameMissing)
    ));

    let mut named = env
        .consumer()
        .name("tracker")
        .build("offsets".to_string(), 0, false, ResponseCode::Okay, 10, 5)
        .unwrap();
    named.on_delivery(0, vec![Message::builder().build(), Message::builder().build()]);
    let (name, offset) = named.store_offset().unwrap();
    assert_eq!("tracker", name);
    assert_eq!(2, offset);
}

#[test]
fn consumer_update_resumes_from_stored_offset() {
    let env = environment();
    let mut member = env
        .consumer()
        .name("member")
        .enable_single_active_consumer(true)
        .build("group".to_string(), 0, false, ResponseCode::Okay, 10, 5)
        .unwrap();

    let deactivated = member.on_consumer_update(false, None);
    assert!(deactivated.is_none());
    assert!(!member.active);

    let resumed = member.on_consumer_update(true, Some(42));
    assert_eq!(Some(OffsetSpecification::Offset(42)), resumed);
    assert!(member.active);

    member.on_consumer_update(false, None);
    member.on_delivery(10, vec![]);
    let from_position = member.on_consumer_update(true, None);
    assert_eq!(Some(OffsetSpecification::Offset(member.offset)), from_position);
}

#[test]
fn credit_rejection_surfaces_stream_and_status() {
    let env = environment();
    let consumer = env
        .consumer()
        .build("flow".to_string(), 0, false, ResponseCode::Okay, 10, 5)
        .unwrap();
    assert!(consumer.credit_outcome(ResponseCode::Okay).is_ok());
    assert!(matches!(
        consumer.credit_outcome(ResponseCode::PreconditionFailed),
        Err(ConsumerDeliveryError::Credit { stream, status })
            if stream == "flow" && status == ResponseCode::PreconditionFailed
    ));
}

#[test]
fn close_follows_unsubscribe_status_and_double_close_fails() {
    let env = environment();
    let mut consumer = env
        .consumer()
        .build("closing".to_string(), 0, false, ResponseCode::Okay, 10, 5)
        .unwrap();

    // A rejected unsubscribe leaves the consumer open.
    let rejected = consumer.close(ResponseCode::InternalError);
    assert!(matches!(
        rejected,
        Err(ConsumerCloseError::Close { stream, status })
            if stream == "closing" && status == ResponseCode::InternalError
    ));
    assert!(!consumer.closed);

    assert!(consumer.close(ResponseCode::Okay).is_ok());
    assert!(matches!(
        consumer.close(ResponseCode::Okay),
        Err(ConsumerCloseError::AlreadyClosed)
    ));
}

#[test]
fn offsets_come_from_the_broker_not_from_a_counter() {
    // A subscription that does not start at the stream's origin — here one
    // at an explicit offset — sees the broker's absolute offsets on every
    // delivery, and persists the position actually reached.
    let env = environment();
    let mut consumer = env
        .consumer()
        .name("late-joiner")
        .offset(OffsetSpecification::Offset(500))
        .build("history".to_string(), 3, false, ResponseCode::Okay, 10, 5)
        .unwrap();

    let (deliveries, _) = consumer.on_delivery(
        500,
        vec![
            Message::builder().body(b"old".to_vec()).build(),
            Message::builder().body(b"older".to_vec()).build(),
        ],
    );
    assert_eq!(500, deliveries[0].offset);
    assert_eq!(501, deliveries[1].offset);
    assert_eq!(502, consumer.offset);

    let (name, offset) = consumer.store_offset().unwrap();
    assert_eq!("late-joiner", name);
    assert_eq!(502, offset);

    // An empty chunk moves nothing.
    let (none, _) = consumer.on_delivery(900, vec![]);
    assert!(none.is_empty());
    assert_eq!(502, consumer.offset);
}
