use rabbitmq_stream_client::error::ProducerCreateError;
use rabbitmq_stream_client::error::ProducerPublishError;
use rabbitmq_stream_client::error::SuperStreamProducerPublishError;
use rabbitmq_stream_client::superstream::hash_route_index;
use rabbitmq_stream_client::superstream::key_route_indices;
use rabbitmq_stream_client::superstream::RoutingStrategy;
use rabbitmq_stream_client::types::Message;
use rabbitmq_stream_client::types::ResponseCode;
use rabbitmq_stream_client::Environment;

fn partitions() -> Vec<String> {
    vec![
        "invoices-0".to_string(),
        "invoices-1".to_string(),
        "invoices-2".to_string(),
    ]
}

#[test]
fn hash_routing_is_stable_and_in_range() {
    let a = hash_route_index("customer-17", 3);
    let b = hash_route_index("customer-17", 3);
    assert_eq!(a, b);
    assert_eq!(2, a);
    assert!(hash_route_index("customer-18", 3) < 3);
    // Different partition counts stay in range too.
    assert!(hash_route_index("customer-17", 1) == 0);
    assert!(hash_route_index("customer-17", 7) < 7);
}

#[test]
fn key_routing_picks_exactly_the_resolved_partitions() {
    let parts = partitions();
    let routes = vec!["invoices-2".to_string(), "invoices-0".to_string()];
    let idxs = key_route_indices(&parts, &routes);
    assert_eq!(vec![0, 2], idxs);

    let none = key_route_indices(&parts, &vec!["elsewhere".to_string()]);
    assert!(none.is_empty());
}

#[test]
fn super_stream_producer_routes_and_creates_lazily() {
    let env = Environment::builder().build();
    let mut producer = env
        .super_stream_producer(RoutingStrategy::HashRoutingStrategy)
        .build(partitions());

    let no_routes: Vec<String> = Vec::new();
    let idxs = producer.route("customer-17", &no_routes);
    assert_eq!(1, idxs.len());
    let idx = idxs[0];
    assert!(idx < 3);

    // The partition's producer exists only after its first use.
    assert!(producer.needs_creation(idx));
    producer.mark_created(idx);
    assert!(!producer.needs_creation(idx));

    let keyed = env
        .super_stream_producer(RoutingStrategy::RoutingKeyRoutingStrategy)
        .build(partitions());
    let routes = vec!["invoices-1".to_string()];
    assert_eq!(vec![1], keyed.route("any-key", &routes));
}

#[test]
fn super_stream_errors_collapse_to_two_kinds() {
    let env = Environment::builder().build();
    let producer = env
        .super_stream_producer(RoutingStrategy::HashRoutingStrategy)
        .build(partitions());

    let publish = producer.wrap_publish_error(ProducerPublishError::Timeout);
    assert_eq!(
        SuperStreamProducerPublishError::ProducerPublishError(),
        publish
    );
    let create = producer.wrap_create_error(ProducerCreateError::FilteringNotSupport);
    assert_eq!(
        SuperStreamProducerPublishError::ProducerCreateError(),
        create
    );

    // The `From` conversions collapse the same way.
    assert_eq!(
        SuperStreamProducerPublishError::ProducerPublishError(),
        SuperStreamProducerPublishError::from(ProducerPublishError::Closed)
    );
    assert_eq!(
        SuperStreamProducerPublishError::ProducerCreateError(),
        SuperStreamProducerPublishError::from(ProducerCreateError::FilteringNotSupport)
    );
}

#[test]
fn super_stream_consumer_tracks_offsets_per_partition() {
    let env = Environment::builder().build();
    let mut consumers = Vec::new();
    for (i, name) in partitions().into_iter().enumerate() {
        consumers.push(
            env.consumer()
                .build(name, i as u8, false, ResponseCode::Okay, 10, 5)
                .unwrap(),
        );
    }
    let mut sup = env.super_stream_consumer().build(consumers);
    assert_eq!(3, sup.partition_count());

    let (first, _) = sup.on_partition_delivery(
        1,
        0,
        vec![
            Message::builder().body(b"a".to_vec()).build(),
            Message::builder().body(b"b".to_vec()).build(),
        ],
    );
    assert_eq!(2, first.len());
    assert_eq!(1, first[0].subscription_id);
    assert_eq!(0, first[0].offset);
    assert_eq!(1, first[1].offset);

    // Only partition 1 advanced; partition 0 still starts at offset 0.
    let (second, _) = sup.on_partition_delivery(0, 0, vec![Message::builder().build()]);
    assert_eq!(0, second[0].offset);
    assert_eq!(0, second[0].subscription_id);

    let (third, _) = sup.on_partition_delivery(1, 2, vec![Message::builder().build()]);
    assert_eq!(2, third[0].offset);
}
