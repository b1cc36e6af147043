use rabbitmq_stream_client::client::Multiplexer;
use rabbitmq_stream_client::error::ProducerCloseError;
use rabbitmq_stream_client::error::ProducerCreateError;
use rabbitmq_stream_client::error::ProducerPublishError;
use rabbitmq_stream_client::types::ConfirmationStatus;
use rabbitmq_stream_client::types::Message;
use rabbitmq_stream_client::types::OffsetSpecification;
use rabbitmq_stream_client::types::ResponseCode;
use rabbitmq_stream_client::Environment;

fn environment() -> Environment {
    Environment::builder().build()
}

#[test]
fn producer_send_ok() {
    // One connection carries the producer and the consumer; the broker is
    // played by hand: the flushed batch is confirmed and then delivered to
    // the subscription.
    let env = environment();
    let mut mux = Multiplexer::new();

    let publisher_id = mux.register_handler().unwrap();
    let mut producer = env
        .producer()
        .name("producer-under-test")
        .build("mixed".to_string(), publisher_id, false, ResponseCode::Okay)
        .unwrap();

    let subscription_id = mux.register_handler().unwrap();
    assert_eq!(1, subscription_id);
    let mut consumer = env
        .consumer()
        .offset(OffsetSpecification::Next)
        .build("mixed".to_string(), subscription_id, false, ResponseCode::Okay, 10, 5)
        .unwrap();

    let outcome = producer
        .send(Message::builder().body(b"message".to_vec()).build())
        .unwrap();
    assert!(outcome.flushed.is_none());

    // Closing flushes the partial batch and the broker confirms it.
    let close = producer.close().unwrap();
    let batch = close.flushed.unwrap();
    assert_eq!(1, batch.len());
    assert_eq!(outcome.publishing_id, batch[0].0);

    // The broker turns the published batch into one delivery push; it
    // assigns the offsets, here starting the fresh stream at zero.
    let messages: Vec<Message> = batch.into_iter().map(|(_, m)| m).collect();
    assert!(mux.route_push(subscription_id));
    let (deliveries, _granted) = consumer.on_delivery(0, messages);

    assert_eq!(1, deliveries.len());
    let delivery = &deliveries[0];
    assert_eq!(1, delivery.subscription_id);
    assert_eq!(Some(&b"message".to_vec()), delivery.message.data());
}

#[test]
fn producer_send_with_callback() {
    // The first send resolves with publishing id 0 and an ok outcome when
    // the broker accepts the publish.
    let env = environment();
    let mut producer = env
        .producer()
        .name("producer-under-test")
        .build("callback".to_string(), 0, false, ResponseCode::Okay)
        .unwrap();

    let outcome = producer
        .send_with_callback(Message::builder().body(b"message".to_vec()).build())
        .unwrap();
    assert_eq!(0, outcome.publishing_id);

    let resolution = producer.resolve_confirmation(0, ConfirmationStatus::Confirmed);
    assert_eq!(Some(ConfirmationStatus::Confirmed), resolution);
}

#[test]
fn flush_count_is_sends_over_batch_size_rounded_up() {
    // 5 sends with batch size 2 flush on the 2nd and 4th send; close
    // flushes the partial batch: 3 flushes in all.
    let env = environment();
    let mut producer = env
        .producer()
        .batch_size(2)
        .build("batched".to_string(), 0, false, ResponseCode::Okay)
        .unwrap();

    let mut flushes = 0;
    for i in 0..5u64 {
        let outcome = producer.send(Message::builder().build()).unwrap();
        assert_eq!(i, outcome.publishing_id);
        if outcome.flushed.is_some() {
            flushes += 1;
        }
    }
    assert_eq!(2, flushes);
    let close = producer.close().unwrap();
    assert!(close.flushed.is_some());
    assert_eq!(1, close.flushed.unwrap().len());
    assert_eq!(3, producer.flush_count);
}

#[test]
fn empty_buffer_never_flushes() {
    let env = environment();
    let mut producer = env
        .producer()
        .build("idle".to_string(), 0, false, ResponseCode::Okay)
        .unwrap();
    assert!(producer.flush().is_none());
    assert_eq!(0, producer.flush_count);
}

#[test]
fn time_trigger_flushes_partial_batch() {
    let env = environment();
    let mut producer = env
        .producer()
        .build("timed".to_string(), 0, false, ResponseCode::Okay)
        .unwrap();
    producer.send(Message::builder().body(b"a".to_vec()).build()).unwrap();
    let batch = producer.flush().unwrap();
    assert_eq!(1, batch.len());
    assert_eq!(1, producer.flush_count);
}

#[test]
fn publishing_ids_increase_and_reuse_is_rejected() {
    let env = environment();
    let mut producer = env
        .producer()
        .name("dedup")
        .build("ids".to_string(), 0, false, ResponseCode::Okay)
        .unwrap();

    let a = producer.send(Message::builder().build()).unwrap();
    assert_eq!(0, a.publishing_id);

    // A caller-supplied id may leave a gap.
    let b = producer
        .send(Message::builder().publishing_id(5).build())
        .unwrap();
    assert_eq!(5, b.publishing_id);

    // Reusing an id at or below one already used is rejected.
    let reused = producer.send(Message::builder().publishing_id(3).build());
    assert!(matches!(
        reused,
        Err(ProducerPublishError::PublishingIdReused { id: 3 })
    ));

    // Automatic assignment continues above the gap.
    let c = producer.send(Message::builder().build()).unwrap();
    assert_eq!(6, c.publishing_id);
}

#[test]
fn close_times_out_unconfirmed_sends() {
    // Every send resolves: one id is confirmed by the broker, one is
    // rejected, and the id still pending at close is force-failed.
    let env = environment();
    let mut producer = env
        .producer()
        .build("pending".to_string(), 0, false, ResponseCode::Okay)
        .unwrap();

    for _ in 0..3 {
        producer.send(Message::builder().build()).unwrap();
    }
    assert_eq!(
        Some(ConfirmationStatus::Confirmed),
        producer.resolve_confirmation(0, ConfirmationStatus::Confirmed)
    );
    assert_eq!(
        Some(ConfirmationStatus::Rejected(ResponseCode::InternalError)),
        producer.resolve_confirmation(
            1,
            ConfirmationStatus::Rejected(ResponseCode::InternalError)
        )
    );

    let close = producer.close().unwrap();
    assert_eq!(vec![2], close.timed_out);
}

#[test]
fn confirmation_resolves_exactly_once() {
    let env = environment();
    let mut producer = env
        .producer()
        .build("confirm".to_string(), 0, false, ResponseCode::Okay)
        .unwrap();
    producer.send(Message::builder().build()).unwrap();

    assert_eq!(
        Some(ConfirmationStatus::Confirmed),
        producer.resolve_confirmation(0, ConfirmationStatus::Confirmed)
    );
    // The second push for the same id has no waiter left and is ignored.
    assert_eq!(
        None,
        producer.resolve_confirmation(0, ConfirmationStatus::Confirmed)
    );
    // An id never assigned is ignored too.
    assert_eq!(
        None,
        producer.resolve_confirmation(77, ConfirmationStatus::Confirmed)
    );
}

#[test]
fn send_after_close_and_double_close_fail() {
    let env = environment();
    let mut producer = env
        .producer()
        .build("closing".to_string(), 0, false, ResponseCode::Okay)
        .unwrap();
    producer.close().unwrap();

    let send = producer.send(Message::builder().build());
    assert!(matches!(send, Err(ProducerPublishError::Closed)));

    let again = producer.close();
    assert!(matches!(again, Err(ProducerCloseError::AlreadyClosed)));
}

#[test]
fn declare_failures_surface_stream_and_status() {
    let env = environment();

    let missing = env.producer().build(
        "absent".to_string(),
        0,
        false,
        ResponseCode::StreamDoesNotExist,
    );
    assert!(matches!(
        missing,
        Err(ProducerCreateError::StreamDoesNotExist { stream }) if stream == "absent"
    ));

    let refused = env.producer().build(
        "locked".to_string(),
        0,
        false,
        ResponseCode::AccessRefused,
    );
    assert!(matches!(
        refused,
        Err(ProducerCreateError::Create { stream, status })
            if stream == "locked" && status == ResponseCode::AccessRefused
    ));

    let filtering = env.producer().filter_value_extractor(true).build(
        "filtered".to_string(),
        0,
        false,
        ResponseCode::Okay,
    );
    assert!(matches!(
        filtering,
        Err(ProducerCreateError::FilteringNotSupport)
    ));

    let filtering_ok = env.producer().filter_value_extractor(true).build(
        "filtered".to_string(),
        0,
        true,
        ResponseCode::Okay,
    );
    assert!(filtering_ok.is_ok());
}

#[test]
fn delete_publisher_outcome_follows_status() {
    let env = environment();
    let producer = env
        .producer()
        .build("teardown".to_string(), 3, false, ResponseCode::Okay)
        .unwrap();
    assert!(producer.delete_publisher_outcome(ResponseCode::Okay).is_ok());
    assert!(matches!(
        producer.delete_publisher_outcome(ResponseCode::InternalError),
        Err(ProducerCloseError::Close { stream, status })
            if stream == "teardown" && status == ResponseCode::InternalError
    ));
}
