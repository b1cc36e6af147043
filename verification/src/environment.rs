//! Main access point to a broker node: the environment, its fluent builder,
//! and the TLS configuration helpers.

use vstd::prelude::*;

use crate::client::ClientOptions;
use crate::client::MetricsCollector;
use crate::consumer::ConsumerBuilder;
use crate::error::StreamDeleteError;
use crate::producer::ProducerBuilder;
use crate::stream_creator::StreamCreator;
use crate::superstream::RoutingStrategy;
use crate::superstream_consumer::SuperStreamConsumerBuilder;
use crate::superstream_producer::SuperStreamProducerBuilder;
use crate::types::OffsetSpecification;
use crate::types::ResponseCode;

verus! {

/// Main access point to a node.
pub struct Environment {
    pub options: EnvironmentOptions,
}

impl Environment {
    /// Starts assembling the connection options for an environment.
    pub fn builder() -> (b: EnvironmentBuilder)
        ensures
            crate::client::is_default_client_options(b.0.client_options),
    {
        EnvironmentBuilder(EnvironmentOptions { client_options: ClientOptions::default() })
    }

    /// Returns a builder for creating a stream with a specific configuration.
    pub fn stream_creator(&self) -> (c: StreamCreator)
        ensures
            c.max_age_secs is None,
            c.max_length_bytes is None,
            c.max_segment_size_bytes is None,
    {
        StreamCreator {
            max_age_secs: None,
            max_length_bytes: None,
            max_segment_size_bytes: None,
        }
    }

    /// Returns a builder for creating a producer, loaded with the defaults:
    /// no deduplication name, batches of 100 flushed after at most 100
    /// milliseconds, no filter-value extraction.
    pub fn producer(&self) -> (b: ProducerBuilder)
        ensures
            b.name is None,
            b.batch_size == 100,
            b.batch_publishing_delay_millis == 100,
            !b.filter_value_extraction,
            b.client_provided_name@ == "rust-stream-producer"@,
    {
        ProducerBuilder {
            name: None,
            batch_size: 100,
            batch_publishing_delay_millis: 100,
            filter_value_extraction: false,
            client_provided_name: "rust-stream-producer".to_owned(),
        }
    }

    /// Returns a builder for a producer that fans out over the partitions of
    /// a super-stream with the given routing strategy.
    pub fn super_stream_producer(&self, routing_strategy: RoutingStrategy) -> (b:
        SuperStreamProducerBuilder)
        ensures
            b.route_strategy == routing_strategy,
            !b.filter_value_extraction,
            b.client_provided_name@ == "rust-super-stream-producer"@,
    {
        SuperStreamProducerBuilder {
            route_strategy: routing_strategy,
            filter_value_extraction: false,
            client_provided_name: "rust-super-stream-producer".to_owned(),
        }
    }

    /// Returns a builder for creating a consumer, loaded with the defaults:
    /// no consumer name, subscription at `Next`, no filter configuration.
    pub fn consumer(&self) -> (b: ConsumerBuilder)
        ensures
            b.consumer_name is None,
            b.offset_specification == OffsetSpecification::Next,
            b.filter_configuration is None,
            !b.single_active_consumer,
            b.client_provided_name@ == "rust-stream-consumer"@,
            b.properties@.len() == 0,
    {
        ConsumerBuilder {
            consumer_name: None,
            offset_specification: OffsetSpecification::Next,
            filter_configuration: None,
            single_active_consumer: false,
            client_provided_name: "rust-stream-consumer".to_owned(),
            properties: Vec::new(),
        }
    }

    /// Returns a builder for a consumer that reads every partition of a
    /// super-stream.
    pub fn super_stream_consumer(&self) -> (b: SuperStreamConsumerBuilder)
        ensures
            b.offset_specification == OffsetSpecification::Next,
            b.filter_configuration is None,
            b.client_provided_name@ == "rust-super-stream-consumer"@,
            b.properties@.len() == 0,
    {
        SuperStreamConsumerBuilder {
            offset_specification: OffsetSpecification::Next,
            filter_configuration: None,
            client_provided_name: "rust-super-stream-consumer".to_owned(),
            properties: Vec::new(),
        }
    }

    /// The outcome of a delete-stream request, given the broker's status:
    /// deletion succeeds exactly when the broker answered ok, and any other
    /// status surfaces with the stream's name.
    pub fn delete_stream_outcome(&self, stream: &str, status: ResponseCode) -> (r: Result<
        (),
        StreamDeleteError,
    >)
        ensures
            status == ResponseCode::Okay <==> r is Ok,
            status != ResponseCode::Okay ==> (match r {
                Err(StreamDeleteError::Delete { stream: s, status: st }) => s@ == stream@
                    && st == status,
                _ => false,
            }),
    {
        if status.is_ok() {
            Ok(())
        } else {
            Err(StreamDeleteError::Delete { stream: stream.to_owned(), status })
        }
    }

    /// The outcome of a delete-super-stream request; the same decision as
    /// [`Self::delete_stream_outcome`], applied to the super-stream's name.
    pub fn delete_super_stream_outcome(&self, super_stream: &str, status: ResponseCode) -> (r:
        Result<(), StreamDeleteError>)
        ensures
            status == ResponseCode::Okay <==> r is Ok,
            status != ResponseCode::Okay ==> (match r {
                Err(StreamDeleteError::Delete { stream: s, status: st }) => s@ == super_stream@
                    && st == status,
                _ => false,
            }),
    {
        if status.is_ok() {
            Ok(())
        } else {
            Err(StreamDeleteError::Delete { stream: super_stream.to_owned(), status })
        }
    }
}

/// Builder for [`Environment`].
pub struct EnvironmentBuilder(pub EnvironmentOptions);

impl EnvironmentBuilder {
    /// Seals the options. Dialing the broker and checking the connection
    /// is the unverified plumbing's part.
    pub fn build(self) -> (e: Environment)
        ensures
            e.options == self.0,
    {
        Environment { options: self.0 }
    }

    /// Sets the broker host name.
    pub fn host(self, host: &str) -> (b: EnvironmentBuilder)
        ensures
            b.0.client_options.host@ == host@,
            b.0.client_options == (ClientOptions {
                host: b.0.client_options.host,
                ..self.0.client_options
            }),
    {
        let mut b = self;
        b.0.client_options.host = host.to_owned();
        b
    }

    /// Sets the user name of the credentials.
    pub fn username(self, username: &str) -> (b: EnvironmentBuilder)
        ensures
            b.0.client_options.user@ == username@,
            b.0.client_options == (ClientOptions {
                user: b.0.client_options.user,
                ..self.0.client_options
            }),
    {
        let mut b = self;
        b.0.client_options.user = username.to_owned();
        b
    }

    /// Sets the password of the credentials.
    pub fn password(self, password: &str) -> (b: EnvironmentBuilder)
        ensures
            b.0.client_options.password@ == password@,
            b.0.client_options == (ClientOptions {
                password: b.0.client_options.password,
                ..self.0.client_options
            }),
    {
        let mut b = self;
        b.0.client_options.password = password.to_owned();
        b
    }

    /// Sets the virtual host to open.
    pub fn virtual_host(self, virtual_host: &str) -> (b: EnvironmentBuilder)
        ensures
            b.0.client_options.v_host@ == virtual_host@,
            b.0.client_options == (ClientOptions {
                v_host: b.0.client_options.v_host,
                ..self.0.client_options
            }),
    {
        let mut b = self;
        b.0.client_options.v_host = virtual_host.to_owned();
        b
    }

    /// Sets the broker port.
    pub fn port(self, port: u16) -> (b: EnvironmentBuilder)
        ensures
            b.0.client_options == (ClientOptions { port, ..self.0.client_options }),
    {
        let mut b = self;
        b.0.client_options.port = port;
        b
    }

    /// Installs a TLS configuration.
    pub fn tls(self, tls_configuration: TlsConfiguration) -> (b: EnvironmentBuilder)
        ensures
            b.0.client_options == (ClientOptions {
                tls: tls_configuration,
                ..self.0.client_options
            }),
    {
        let mut b = self;
        b.0.client_options.tls = tls_configuration;
        b
    }

    /// Sets the heartbeat interval, in seconds.
    pub fn heartbeat(self, heartbeat: u32) -> (b: EnvironmentBuilder)
        ensures
            b.0.client_options == (ClientOptions { heartbeat, ..self.0.client_options }),
    {
        let mut b = self;
        b.0.client_options.heartbeat = heartbeat;
        b
    }

    /// Installs a metrics hook; the library never reads it back, it is
    /// handed to the unverified plumbing that drives the connection.
    pub fn metrics_collector(self, collector: Box<dyn MetricsCollector>) -> (b:
        EnvironmentBuilder)
        ensures
            b.0.client_options.host == self.0.client_options.host,
            b.0.client_options.port == self.0.client_options.port,
            b.0.client_options.user == self.0.client_options.user,
            b.0.client_options.password == self.0.client_options.password,
            b.0.client_options.v_host == self.0.client_options.v_host,
            b.0.client_options.heartbeat == self.0.client_options.heartbeat,
            b.0.client_options.tls == self.0.client_options.tls,
            b.0.client_options.load_balancer_mode == self.0.client_options.load_balancer_mode,
            b.0.client_options.client_provided_name == self.0.client_options.client_provided_name,
    {
        let mut b = self;
        b.0.client_options.collector = collector;
        b
    }

    /// Selects load-balancer mode: the client re-dials until it reaches the
    /// broker that owns the stream.
    pub fn load_balancer_mode(self, load_balancer_mode: bool) -> (b: EnvironmentBuilder)
        ensures
            b.0.client_options == (ClientOptions {
                load_balancer_mode,
                ..self.0.client_options
            }),
    {
        let mut b = self;
        b.0.client_options.load_balancer_mode = load_balancer_mode;
        b
    }

    /// Sets the connection name shown to the broker.
    pub fn client_provided_name(self, name: &str) -> (b: EnvironmentBuilder)
        ensures
            b.0.client_options.client_provided_name@ == name@,
            b.0.client_options == (ClientOptions {
                client_provided_name: b.0.client_options.client_provided_name,
                ..self.0.client_options
            }),
    {
        let mut b = self;
        b.0.client_options.client_provided_name = name.to_owned();
        b
    }
}

/// The options an [`Environment`] was built with.
pub struct EnvironmentOptions {
    pub client_options: ClientOptions,
}

/// Helper for TLS configuration.
#[derive(Clone, Debug)]
pub struct TlsConfiguration {
    pub enabled: bool,
    pub trust_certificates: bool,
    pub root_certificates_path: String,
    pub client_certificates_path: String,
    pub client_keys_path: String,
}

/// The TLS configuration a builder starts from: enabled, verifying
/// certificates, with no certificate paths set.
pub open spec fn is_default_tls(t: TlsConfiguration) -> bool {
    &&& t.enabled
    &&& !t.trust_certificates
    &&& t.root_certificates_path@ == Seq::<char>::empty()
    &&& t.client_certificates_path@ == Seq::<char>::empty()
    &&& t.client_keys_path@ == Seq::<char>::empty()
}

impl Default for TlsConfiguration {
    fn default() -> (t: TlsConfiguration)
        ensures
            is_default_tls(t),
    {
        TlsConfiguration {
            enabled: true,
            trust_certificates: false,
            root_certificates_path: String::new(),
            client_certificates_path: String::new(),
            client_keys_path: String::new(),
        }
    }
}

impl TlsConfiguration {
    /// Turns TLS on or off.
    pub fn enable(&mut self, enabled: bool)
        ensures
            *final(self) == (TlsConfiguration { enabled, ..*old(self) }),
    {
        self.enabled = enabled
    }

    /// Whether TLS is on.
    pub fn enabled(&self) -> (r: bool)
        ensures
            r == self.enabled,
    {
        self.enabled
    }

    /// Chooses whether to trust any server certificate without verification.
    pub fn trust_certificates(&mut self, trust_certificates: bool)
        ensures
            *final(self) == (TlsConfiguration { trust_certificates, ..*old(self) }),
    {
        self.trust_certificates = trust_certificates
    }

    /// Whether server certificates are trusted without verification.
    pub fn trust_certificates_enabled(&self) -> (r: bool)
        ensures
            r == self.trust_certificates,
    {
        self.trust_certificates
    }

    /// The path of the root certificates file.
    pub fn get_root_certificates_path(&self) -> (r: String)
        ensures
            r@ == self.root_certificates_path@,
    {
        self.root_certificates_path.clone()
    }

    /// Points at the root certificates file.
    pub fn add_root_certificates_path(&mut self, certificate_path: String)
        ensures
            *final(self) == (TlsConfiguration {
                root_certificates_path: certificate_path,
                ..*old(self)
            }),
    {
        self.root_certificates_path = certificate_path
    }

    /// The path of the client certificate file.
    pub fn get_client_certificates_path(&self) -> (r: String)
        ensures
            r@ == self.client_certificates_path@,
    {
        self.client_certificates_path.clone()
    }

    /// The path of the client private-key file.
    pub fn get_client_keys_path(&self) -> (r: String)
        ensures
            r@ == self.client_keys_path@,
    {
        self.client_keys_path.clone()
    }

    /// Points at the client certificate and private-key files.
    pub fn add_client_certificates_keys(
        &mut self,
        certificate_path: String,
        client_private_key_path: String,
    )
        ensures
            *final(self) == (TlsConfiguration {
                client_certificates_path: certificate_path,
                client_keys_path: client_private_key_path,
                ..*old(self)
            }),
    {
        self.client_certificates_path = certificate_path;
        self.client_keys_path = client_private_key_path;
    }

    /// Starts assembling a TLS configuration from the defaults.
    pub fn builder() -> (b: TlsConfigurationBuilder)
        ensures
            is_default_tls(b.0),
    {
        TlsConfigurationBuilder(TlsConfiguration::default())
    }
}

/// Fluent constructor for [`TlsConfiguration`].
pub struct TlsConfigurationBuilder(pub TlsConfiguration);

impl TlsConfigurationBuilder {
    /// Turns TLS on or off.
    pub fn enable(self, enable: bool) -> (b: TlsConfigurationBuilder)
        ensures
            b.0 == (TlsConfiguration { enabled: enable, ..self.0 }),
    {
        let mut b = self;
        b.0.enabled = enable;
        b
    }

    /// Chooses whether to trust any server certificate without verification.
    pub fn trust_certificates(self, trust_certificates: bool) -> (b: TlsConfigurationBuilder)
        ensures
            b.0 == (TlsConfiguration { trust_certificates, ..self.0 }),
    {
        let mut b = self;
        b.0.trust_certificates = trust_certificates;
        b
    }

    /// Points at the root certificates file.
    pub fn add_root_certificates(self, certificate_path: String) -> (b: TlsConfigurationBuilder)
        ensures
            b.0 == (TlsConfiguration { root_certificates_path: certificate_path, ..self.0 }),
    {
        let mut b = self;
        b.0.root_certificates_path = certificate_path;
        b
    }

    /// Points at the client certificate and private-key files.
    pub fn add_client_certificates_keys(
        self,
        certificate_path: String,
        client_private_key_path: String,
    ) -> (b: TlsConfigurationBuilder)
        ensures
            b.0 == (TlsConfiguration {
                client_certificates_path: certificate_path,
                client_keys_path: client_private_key_path,
                ..self.0
            }),
    {
        let mut b = self;
        b.0.client_certificates_path = certificate_path;
        b.0.client_keys_path = client_private_key_path;
        b
    }

    /// Finishes the TLS configuration.
    pub fn build(self) -> (t: TlsConfiguration)
        ensures
            t == self.0,
    {
        self.0
    }
}

} // verus!
