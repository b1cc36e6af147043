use rabbitmq_stream_client::error::StreamCreateError;
use rabbitmq_stream_client::error::StreamDeleteError;
use rabbitmq_stream_client::types::ResponseCode;
use rabbitmq_stream_client::Environment;
use rabbitmq_stream_client::TlsConfiguration;

#[test]
fn environment_builder_applies_every_option() {
    let tls = TlsConfiguration::builder()
        .enable(true)
        .trust_certificates(true)
        .build();
    let env = Environment::builder()
        .host("broker.internal")
        .port(5551)
        .username("publisher")
        .password("SECRET-REDACTED")
        .virtual_host("/tenant")
        .heartbeat(30)
        .load_balancer_mode(true)
        .client_provided_name("reporting")
        .tls(tls)
        .build();

    let options = &env.options.client_options;
    assert_eq!("broker.internal", options.host);
    assert_eq!(5551, options.port);
    assert_eq!("publisher", options.user);
    assert_eq!("SECRET-REDACTED", options.password);
    assert_eq!("/tenant", options.v_host);
    assert_eq!(30, options.heartbeat);
    assert!(options.load_balancer_mode);
    assert_eq!("reporting", options.client_provided_name);
    assert!(options.tls.enabled());
    assert!(options.tls.trust_certificates_enabled());
}

#[test]
fn environment_builder_defaults_point_at_a_local_broker() {
    let env = Environment::builder().build();
    let options = &env.options.client_options;
    assert_eq!("localhost", options.host);
    assert_eq!(5552, options.port);
    assert_eq!("guest", options.user);
    assert_eq!("guest", options.password);
    assert_eq!("/", options.v_host);
    assert_eq!(60, options.heartbeat);
    assert!(!options.load_balancer_mode);
    assert_eq!("rust-stream", options.client_provided_name);
}

#[test]
fn tls_configuration_builder_and_accessors_agree() {
    let tls = TlsConfiguration::builder()
        .enable(true)
        .trust_certificates(false)
        .add_root_certificates("/etc/ca.pem".to_string())
        .add_client_certificates_keys("/etc/cert.pem".to_string(), "/etc/key.pem".to_string())
        .build();
    assert!(tls.enabled());
    assert!(!tls.trust_certificates_enabled());
    assert_eq!("/etc/ca.pem", tls.get_root_certificates_path());
    assert_eq!("/etc/cert.pem", tls.get_client_certificates_path());
    assert_eq!("/etc/key.pem", tls.get_client_keys_path());

    let mut tls = tls;
    tls.enable(false);
    tls.trust_certificates(true);
    tls.add_root_certificates_path("/tmp/ca.pem".to_string());
    tls.add_client_certificates_keys("/tmp/cert.pem".to_string(), "/tmp/key.pem".to_string());
    assert!(!tls.enabled());
    assert!(tls.trust_certificates_enabled());
    assert_eq!("/tmp/ca.pem", tls.get_root_certificates_path());
    assert_eq!("/tmp/cert.pem", tls.get_client_certificates_path());
    assert_eq!("/tmp/key.pem", tls.get_client_keys_path());
}

#[test]
fn stream_creation_and_deletion_follow_the_status() {
    let env = Environment::builder().build();

    let creator = env
        .stream_creator()
        .max_age(3600)
        .max_length(1 << 30)
        .max_segment_size(1 << 20);
    assert!(creator.create_outcome("events", ResponseCode::Okay).is_ok());
    assert!(matches!(
        creator.create_outcome("events", ResponseCode::StreamAlreadyExists),
        Err(StreamCreateError::Create { stream, status })
            if stream == "events" && status == ResponseCode::StreamAlreadyExists
    ));

    assert!(env
        .delete_stream_outcome("events", ResponseCode::Okay)
        .is_ok());
    assert!(matches!(
        env.delete_stream_outcome("events", ResponseCode::StreamDoesNotExist),
        Err(StreamDeleteError::Delete { stream, status })
            if stream == "events" && status == ResponseCode::StreamDoesNotExist
    ));
    assert!(matches!(
        env.delete_super_stream_outcome("events-super", ResponseCode::StreamDoesNotExist),
        Err(StreamDeleteError::Delete { stream, status })
            if stream == "events-super" && status == ResponseCode::StreamDoesNotExist
    ));
}

#[test]
fn response_codes_know_when_the_broker_agreed() {
    assert!(ResponseCode::Okay.is_ok());
    assert!(!ResponseCode::AccessRefused.is_ok());
    assert!(!ResponseCode::StreamDoesNotExist.is_ok());
}
