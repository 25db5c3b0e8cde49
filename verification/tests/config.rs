use redirection_service::config::{
    DBConfig, GRPCKeyGeneratorConfig, KeyGeneratorConfig, NatsConfig, RedirectionServiceConfig,
    ScyllaDBConfig, TaskSender,
};

#[test]
fn scylla_config_defaults() {
    let cfg = ScyllaDBConfig::from_settings(None, None, None).unwrap();
    assert_eq!(cfg.url, "localhost:9042");
    assert_eq!(cfg.keyspace, "examples_ks");
    assert_eq!(cfg.replication_factor, 3);
}

#[test]
fn scylla_config_explicit_values() {
    let cfg = ScyllaDBConfig::from_settings(
        Some("db.internal:9042".to_string()),
        Some("redirects".to_string()),
        Some("5".to_string()),
    )
    .unwrap();
    assert_eq!(cfg.url, "db.internal:9042");
    assert_eq!(cfg.keyspace, "redirects");
    assert_eq!(cfg.replication_factor, 5);
}

#[test]
fn nats_config_defaults() {
    let cfg = NatsConfig::from_settings(None, None);
    assert_eq!(cfg.url, "nats://localhost:4222");
    assert_eq!(cfg.subject, "tasks.visit");
}

#[test]
fn grpc_generator_config_default() {
    let cfg = GRPCKeyGeneratorConfig::from_settings(None);
    assert_eq!(cfg.url, "http://localhost:8080");
}

#[test]
fn backend_selection() {
    let scylla = ScyllaDBConfig::from_settings(None, None, None).unwrap();
    let db = DBConfig::from_settings(None, scylla.clone()).unwrap();
    assert_eq!(db, DBConfig::ScyllaDB(scylla.clone()));
    let db = DBConfig::from_settings(Some("scylla".to_string()), scylla.clone()).unwrap();
    assert_eq!(db, DBConfig::ScyllaDB(scylla.clone()));
    assert!(DBConfig::from_settings(Some("mysql".to_string()), scylla).is_err());

    let nats = NatsConfig::from_settings(None, None);
    let sender = TaskSender::from_settings(None, nats.clone()).unwrap();
    assert_eq!(sender, TaskSender::Nats(nats.clone()));
    assert!(TaskSender::from_settings(Some("kafka".to_string()), nats).is_err());

    let grpc = GRPCKeyGeneratorConfig::from_settings(None);
    let generator = KeyGeneratorConfig::from_settings(None, grpc.clone()).unwrap();
    assert_eq!(generator, KeyGeneratorConfig::GRPCKeyGeneratorConfig(grpc.clone()));
    assert!(KeyGeneratorConfig::from_settings(Some("local".to_string()), grpc).is_err());
}

#[test]
fn service_config_port_default() {
    let db = DBConfig::ScyllaDB(ScyllaDBConfig::from_settings(None, None, None).unwrap());
    let sender = TaskSender::Nats(NatsConfig::from_settings(None, None));
    let generator =
        KeyGeneratorConfig::GRPCKeyGeneratorConfig(GRPCKeyGeneratorConfig::from_settings(None));
    let cfg = RedirectionServiceConfig::from_settings(
        None,
        db.clone(),
        sender.clone(),
        generator.clone(),
    )
    .unwrap();
    assert_eq!(cfg.port, 8081);
    assert_eq!(cfg.db_config, db);

    let cfg = RedirectionServiceConfig::from_settings(
        Some("9000".to_string()),
        db.clone(),
        sender.clone(),
        generator.clone(),
    )
    .unwrap();
    assert_eq!(cfg.port, 9000);

    let rejected = RedirectionServiceConfig::from_settings(
        Some("70000".to_string()),
        db,
        sender,
        generator,
    );
    assert_eq!(rejected.unwrap_err(), "70000");
}

#[test]
fn numeric_settings_are_parsed() {
    let cfg = ScyllaDBConfig::from_settings(None, None, Some("-3".to_string())).unwrap();
    assert_eq!(cfg.replication_factor, -3);
    let cfg = ScyllaDBConfig::from_settings(None, None, Some("+12".to_string())).unwrap();
    assert_eq!(cfg.replication_factor, 12);

    assert!(ScyllaDBConfig::from_settings(None, None, Some("three".to_string())).is_err());
    assert!(ScyllaDBConfig::from_settings(None, None, Some("".to_string())).is_err());
    assert!(ScyllaDBConfig::from_settings(None, None, Some("3000000000".to_string())).is_err());
}
