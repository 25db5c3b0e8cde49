//! Configuration of the redirection service.
//!
//! Every setting is resolved once at startup.  The structs here are plain
//! data; the `from_settings` constructors take each setting as an optional
//! value and fill in the documented default where it is absent.  Reading the
//! process environment is the caller's business: the core never does it.

use vstd::prelude::*;

use crate::numbers::{parse_decimal, parse_i32, parse_i32_value, parse_u16};

verus! {

/// Configuration for the whole redirection service.
#[derive(Debug, Clone, PartialEq, Eq, Hash)]
pub struct RedirectionServiceConfig {
    /// The port on which the service will listen.
    pub port: u16,
    /// The database configuration.
    pub db_config: DBConfig,
    /// The task sender configuration.
    pub task_sender: TaskSender,
    /// The key generator configuration.
    pub key_generator: KeyGeneratorConfig,
}

/// Configuration for a ScyllaDB database.
#[derive(Debug, Clone, PartialEq, Eq, Hash)]
pub struct ScyllaDBConfig {
    /// The URL of the ScyllaDB instance.
    pub url: String,
    /// The keyspace to use in ScyllaDB.
    pub keyspace: String,
    /// The replication factor for the keyspace.
    pub replication_factor: i32,
}

/// The database backends that can be configured.
#[derive(Debug, Clone, PartialEq, Eq, Hash)]
pub enum DBConfig {
    /// A ScyllaDB configuration.
    ScyllaDB(ScyllaDBConfig),
}

/// The task-sender backends that can be configured.
#[derive(Debug, Clone, PartialEq, Eq, Hash)]
pub enum TaskSender {
    /// A NATS configuration.
    Nats(NatsConfig),
}

/// Configuration for a NATS task sender.
#[derive(Debug, Clone, PartialEq, Eq, Hash)]
pub struct NatsConfig {
    /// The URL of the NATS server.
    pub url: String,
    /// The subject to which tasks will be sent.
    pub subject: String,
}

/// The key-generator backends that can be configured.
#[derive(Debug, Clone, PartialEq, Eq, Hash)]
pub enum KeyGeneratorConfig {
    /// A gRPC key generator configuration.
    GRPCKeyGeneratorConfig(GRPCKeyGeneratorConfig),
}

/// Configuration for a gRPC key generator.
#[derive(Debug, Clone, PartialEq, Eq, Hash)]
pub struct GRPCKeyGeneratorConfig {
    /// The URL of the gRPC key generator service.
    pub url: String,
}

/// The value of an optional setting, or the given default.
pub open spec fn setting_or(given: Option<String>, default: Seq<char>) -> Seq<char> {
    match given {
        Some(v) => v@,
        None => default,
    }
}

fn unwrap_or_literal(given: Option<String>, default: &str) -> (r: String)
    ensures
        r@ == setting_or(given, default@),
{
    match given {
        Some(v) => v,
        None => String::from_str(default),
    }
}

impl ScyllaDBConfig {
    /// Builds the ScyllaDB configuration from optional settings, given as
    /// the text they arrive in.
    ///
    /// Defaults: url `localhost:9042`, keyspace `examples_ks`, replication
    /// factor `3`.  A replication factor that is not a decimal number is
    /// rejected, returned as the error.
    pub fn from_settings(
        url: Option<String>,
        keyspace: Option<String>,
        replication_factor: Option<String>,
    ) -> (r: Result<Self, String>)
        ensures
            r is Ok <==> (replication_factor matches Some(s) ==> parse_i32_value(s@) is Some),
            r matches Ok(c) ==> c.url@ == setting_or(url, "localhost:9042"@) && c.keyspace@
                == setting_or(keyspace, "examples_ks"@),
            r matches Ok(c) ==> (replication_factor is None ==> c.replication_factor == 3),
            r matches Ok(c) ==> (replication_factor matches Some(s) ==> parse_i32_value(s@)
                == Some(c.replication_factor as int)),
    {
        let replication_factor: i32 = match replication_factor {
            None => 3,
            Some(s) => match parse_i32(s.as_str()) {
                Some(v) => v,
                None => {
                    return Err(s);
                },
            },
        };
        Ok(
            Self {
                url: unwrap_or_literal(url, "localhost:9042"),
                keyspace: unwrap_or_literal(keyspace, "examples_ks"),
                replication_factor,
            },
        )
    }
}

impl NatsConfig {
    /// Builds the NATS configuration from optional settings.
    ///
    /// Defaults: url `nats://localhost:4222`, subject `tasks.visit`.
    pub fn from_settings(url: Option<String>, subject: Option<String>) -> (r: Self)
        ensures
            r.url@ == setting_or(url, "nats://localhost:4222"@),
            r.subject@ == setting_or(subject, "tasks.visit"@),
    {
        Self {
            url: unwrap_or_literal(url, "nats://localhost:4222"),
            subject: unwrap_or_literal(subject, "tasks.visit"),
        }
    }
}

impl GRPCKeyGeneratorConfig {
    /// Builds the gRPC key-generator configuration from optional settings.
    ///
    /// Default url: `http://localhost:8080`.
    pub fn from_settings(url: Option<String>) -> (r: Self)
        ensures
            r.url@ == setting_or(url, "http://localhost:8080"@),
    {
        Self { url: unwrap_or_literal(url, "http://localhost:8080") }
    }
}

impl DBConfig {
    /// Selects the database backend from an optional type setting.
    ///
    /// The type defaults to `scylla`, the only supported backend; any other
    /// value is rejected.
    pub fn from_settings(db_type: Option<String>, scylla: ScyllaDBConfig) -> (r: Result<
        Self,
        String,
    >)
        ensures
            r is Ok <==> setting_or(db_type, "scylla"@) == "scylla"@,
            r matches Ok(c) ==> c == DBConfig::ScyllaDB(scylla),
    {
        match db_type {
            None => Ok(DBConfig::ScyllaDB(scylla)),
            Some(t) => {
                if t == String::from_str("scylla") {
                    Ok(DBConfig::ScyllaDB(scylla))
                } else {
                    Err(t)
                }
            },
        }
    }
}

impl TaskSender {
    /// Selects the task-sender backend from an optional type setting.
    ///
    /// The type defaults to `nats`, the only supported backend; any other
    /// value is rejected.
    pub fn from_settings(sender_type: Option<String>, nats: NatsConfig) -> (r: Result<
        Self,
        String,
    >)
        ensures
            r is Ok <==> setting_or(sender_type, "nats"@) == "nats"@,
            r matches Ok(c) ==> c == TaskSender::Nats(nats),
    {
        match sender_type {
            None => Ok(TaskSender::Nats(nats)),
            Some(t) => {
                if t == String::from_str("nats") {
                    Ok(TaskSender::Nats(nats))
                } else {
                    Err(t)
                }
            },
        }
    }
}

impl KeyGeneratorConfig {
    /// Selects the key-generator backend from an optional type setting.
    ///
    /// The type defaults to `grpc`, the only supported backend; any other
    /// value is rejected.
    pub fn from_settings(generator_type: Option<String>, grpc: GRPCKeyGeneratorConfig) -> (r:
        Result<Self, String>)
        ensures
            r is Ok <==> setting_or(generator_type, "grpc"@) == "grpc"@,
            r matches Ok(c) ==> c == KeyGeneratorConfig::GRPCKeyGeneratorConfig(grpc),
    {
        match generator_type {
            None => Ok(KeyGeneratorConfig::GRPCKeyGeneratorConfig(grpc)),
            Some(t) => {
                if t == String::from_str("grpc") {
                    Ok(KeyGeneratorConfig::GRPCKeyGeneratorConfig(grpc))
                } else {
                    Err(t)
                }
            },
        }
    }
}

impl RedirectionServiceConfig {
    /// Bundles the resolved settings of the whole service, the port given as
    /// the text it arrives in.
    ///
    /// The port defaults to `8081` when absent; one that is not a decimal
    /// port number is rejected, returned as the error.
    pub fn from_settings(
        port: Option<String>,
        db_config: DBConfig,
        task_sender: TaskSender,
        key_generator: KeyGeneratorConfig,
    ) -> (r: Result<Self, String>)
        ensures
            r is Ok <==> (port matches Some(s) ==> parse_decimal(s@, u16::MAX as nat) is Some),
            r matches Ok(c) ==> c.db_config == db_config && c.task_sender == task_sender
                && c.key_generator == key_generator,
            r matches Ok(c) ==> (port is None ==> c.port == 8081),
            r matches Ok(c) ==> (port matches Some(s) ==> parse_decimal(s@, u16::MAX as nat)
                == Some(c.port as nat)),
    {
        let port: u16 = match port {
            None => 8081,
            Some(s) => match parse_u16(s.as_str()) {
                Some(p) => p,
                None => {
                    return Err(s);
                },
            },
        };
        Ok(Self { port, db_config, task_sender, key_generator })
    }
}

} // verus!
