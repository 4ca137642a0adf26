use std::time::Duration;

use sabaton_mw::cdds::cdds::{publish_options_to_cdds_qos, subscribe_options_to_cdds_qos, CddsQos};
use sabaton_mw::cdds::cdds_config::cdds_config;
use sabaton_mw::cdds::service_discovery::{
    offers_tcp, service_name_to_topic_name, ProxyLauncher, ServiceKey, Transport,
};
use sabaton_mw::config::LogLevel;
use sabaton_mw::error::{loan_error, DDSError, DdsRetcode, MiddlewareError};
use sabaton_mw::qos::{Qos, QosCreate, QosDurability, QosError, QosHistory, QosReliability};
use sabaton_mw::services::{
    config_path_candidate, get_service_ids, match_service_handlers, missing_config_message,
    single_service_id, ConfigSource, ServiceIds,
};
use sabaton_mw::{get_topic_prefix, InitContext, NodeBuilder, PublishOptions, SubscribeOptions};

fn reliable_ms(r: &Option<QosReliability>) -> Option<(bool, Duration)> {
    match r {
        Some(QosReliability::Reliable(d)) => Some((true, *d)),
        Some(QosReliability::BestEffort(d)) => Some((false, *d)),
        None => None,
    }
}

#[test]
fn log_level_names() {
    assert_eq!(LogLevel::Verbose.as_str(), "verbose");
    assert_eq!(LogLevel::Debug.as_str(), "debug");
    assert_eq!(LogLevel::Info.as_str(), "info");
    assert_eq!(LogLevel::Warn.as_str(), "warn");
    assert_eq!(LogLevel::Error.as_str(), "error");
    assert_eq!(LogLevel::Fatal.as_str(), "fatal");
    assert_eq!(LogLevel::Off.as_str(), "off");
    assert_eq!(LogLevel::default(), LogLevel::Info);
}

#[test]
fn log_level_names_are_distinct() {
    let all = [
        LogLevel::Verbose,
        LogLevel::Debug,
        LogLevel::Info,
        LogLevel::Warn,
        LogLevel::Error,
        LogLevel::Fatal,
        LogLevel::Off,
    ];
    for a in all.iter() {
        for b in all.iter() {
            assert_eq!(a == b, a.as_str() == b.as_str());
        }
    }
}

#[test]
fn qos_defaults() {
    assert_eq!(reliable_ms(&Some(QosReliability::default())), Some((true, Duration::from_millis(100))));
    assert_eq!(QosDurability::default(), QosDurability::Volatile);
    assert_eq!(QosHistory::default(), QosHistory::KeepLast(1));
    assert_eq!(QosError::InternalError.message(), "Internal DDS error");
}

#[test]
fn cdds_qos_create_and_set() {
    let mut q = CddsQos::create();
    assert!(q.reliability.is_none() && q.durability.is_none() && q.history.is_none());
    assert!(q.set_history(QosHistory::KeepAll).is_ok());
    assert_eq!(q.history, Some(QosHistory::KeepAll));
    assert!(q.durability.is_none());
    assert!(q.set_durability(QosDurability::TransientLocal).is_ok());
    assert!(q.set_reliability(QosReliability::BestEffort(Duration::from_secs(2))).is_ok());
    assert_eq!(q.durability, Some(QosDurability::TransientLocal));
    assert_eq!(reliable_ms(&q.reliability), Some((false, Duration::from_secs(2))));
    let d = CddsQos::default();
    assert_eq!(d.durability, Some(QosDurability::Volatile));
    assert_eq!(d.history, Some(QosHistory::KeepLast(1)));
    assert_eq!(reliable_ms(&d.reliability), Some((true, Duration::from_millis(100))));
}

#[test]
fn open_options_give_default_qos() {
    let p = publish_options_to_cdds_qos(&PublishOptions::default()).unwrap();
    let s = subscribe_options_to_cdds_qos(&SubscribeOptions::default()).unwrap();
    let d = CddsQos::default();
    for q in [p, s].iter() {
        assert_eq!(q.durability, d.durability);
        assert_eq!(q.history, d.history);
        assert_eq!(reliable_ms(&q.reliability), reliable_ms(&d.reliability));
    }
}

#[test]
fn requested_policies_are_applied() {
    let mut o = PublishOptions::default();
    o.with_durability(QosDurability::TransientLocal)
        .with_reliability(QosReliability::Reliable(Duration::from_millis(1000)))
        .with_history(QosHistory::KeepLast(7));
    let q = publish_options_to_cdds_qos(&o).unwrap();
    assert_eq!(q.durability, Some(QosDurability::TransientLocal));
    assert_eq!(q.history, Some(QosHistory::KeepLast(7)));
    assert_eq!(reliable_ms(&q.reliability), Some((true, Duration::from_millis(1000))));

    let mut s = SubscribeOptions::default();
    s.with_history(QosHistory::KeepAll);
    let q = subscribe_options_to_cdds_qos(&s).unwrap();
    assert_eq!(q.history, Some(QosHistory::KeepAll));
    assert_eq!(q.durability, Some(QosDurability::Volatile));
    assert_eq!(reliable_ms(&q.reliability), Some((true, Duration::from_millis(100))));
}

#[test]
fn publish_and_subscribe_qos_agree() {
    let mut p = PublishOptions::default();
    p.with_durability(QosDurability::TransientLocal).with_history(QosHistory::KeepLast(3));
    let mut s = SubscribeOptions::default();
    s.with_durability(QosDurability::TransientLocal).with_history(QosHistory::KeepLast(3));
    let qp = publish_options_to_cdds_qos(&p).unwrap();
    let qs = subscribe_options_to_cdds_qos(&s).unwrap();
    assert_eq!(qp.durability, qs.durability);
    assert_eq!(qp.history, qs.history);
    assert_eq!(reliable_ms(&qp.reliability), reliable_ms(&qs.reliability));
}

#[test]
fn options_builders_keep_other_settings() {
    let mut o = PublishOptions::default();
    o.with_group("g").with_instance("i");
    assert_eq!(o.group.as_deref(), Some("g"));
    assert_eq!(o.instance.as_deref(), Some("i"));
    assert!(o.durability.is_none() && o.history.is_none() && o.reliability.is_none());
    o.with_group("h");
    assert_eq!(o.group.as_deref(), Some("h"));
    assert_eq!(o.instance.as_deref(), Some("i"));

    let mut s = SubscribeOptions::default();
    s.with_instance("7").with_durability(QosDurability::Volatile);
    assert_eq!(s.instance.as_deref(), Some("7"));
    assert!(s.group.is_none());
    assert_eq!(s.durability, Some(QosDurability::Volatile));
}

#[test]
fn node_builder_defaults() {
    let b = NodeBuilder::default();
    assert_eq!(b.group, "default");
    assert_eq!(b.instance, "0");
    assert_eq!(b.num_workers, 1);
    assert!(b.single_threaded);
    assert!(!b.shared_memory);
    assert_eq!(b.pub_sub_log_level, LogLevel::Info);
    assert_eq!(b.rpc_log_level, LogLevel::Info);
}

#[test]
fn node_builder_settings() {
    let b = NodeBuilder::default()
        .with_group("g".to_owned())
        .with_instance("i".to_owned())
        .multi_threaded()
        .with_num_workers(2)
        .with_shared_memory(true)
        .with_pubsub_log_level(LogLevel::Warn)
        .with_rpc_log_level(LogLevel::Off);
    assert_eq!(b.group, "g");
    assert_eq!(b.instance, "i");
    assert!(!b.single_threaded);
    assert_eq!(b.num_workers, 2);
    assert!(b.shared_memory);
    assert_eq!(b.pub_sub_log_level, LogLevel::Warn);
    assert_eq!(b.rpc_log_level, LogLevel::Off);

    let b = NodeBuilder::default()
        .with_group_and_instance("group_name".to_owned(), "instance_name".to_owned());
    assert_eq!(b.group, "group_name");
    assert_eq!(b.instance, "instance_name");
    assert_eq!(b.num_workers, 1);
}

#[test]
fn node_state_from_builder() {
    let mut st = NodeBuilder::default().into_node_state("nodename".to_owned());
    assert_eq!(st.name, "nodename");
    assert_eq!(st.group, "default");
    assert_eq!(st.instance, "0");
    assert_eq!(st.next_client_id, 0);
    assert_eq!(st.worker_threads(), None);
    assert_eq!(st.worker_thread_name(), "nodename-worker");
    let a = st.allocate_client_id();
    let b = st.allocate_client_id();
    assert_eq!((a, b), (0, 1));
    assert_eq!(st.next_client_id, 2);

    let st = NodeBuilder::default().multi_threaded().with_num_workers(4).into_node_state("n".to_owned());
    assert_eq!(st.worker_threads(), Some(4));
}

#[test]
fn topic_prefix_of_options_and_node() {
    assert_eq!(get_topic_prefix("group", "instance"), Some("/group/instance".to_owned()));
    let st = NodeBuilder::default().into_node_state("n".to_owned());
    assert_eq!(PublishOptions::default().topic_prefix(&st), Some("/default/0".to_owned()));
    let mut o = PublishOptions::default();
    o.with_group("cam");
    assert_eq!(o.topic_prefix(&st), Some("/cam/0".to_owned()));
    let mut s = SubscribeOptions::default();
    s.with_instance("3");
    assert_eq!(s.topic_prefix(&st), Some("/default/3".to_owned()));
    s.with_group("front");
    assert_eq!(s.topic_prefix(&st), Some("/front/3".to_owned()));
}

#[test]
fn dds_errors() {
    assert_eq!(DDSError::from_retcode(DdsRetcode::NotEnabled), DDSError::NotEnabled);
    assert_eq!(DDSError::from_retcode(DdsRetcode::Timeout), DDSError::Timeout);
    assert_eq!(DDSError::from_retcode(DdsRetcode::NotAllowedBySecurity), DDSError::NotAllowedBySecurity);
    assert_eq!(DDSError::Timeout.message(), "Timeout");
    assert_eq!(DDSError::DdsError.message(), "DDS Error");
    assert!(matches!(loan_error(DDSError::NotEnabled), MiddlewareError::SharedMemoryNotEnabled));
    assert!(matches!(loan_error(DDSError::NoData), MiddlewareError::DDSError(DDSError::NoData)));
    assert!(matches!(
        MiddlewareError::from_retcode(DdsRetcode::BadParameter),
        MiddlewareError::DDSError(DDSError::BadParameter)
    ));
}

fn mapping() -> ServiceIds {
    ServiceIds {
        services: vec![
            (0x1234, "dev.sabaton.ExampleInterface".to_owned()),
            (7, "a.b".to_owned()),
            (9, "c".to_owned()),
            (11, "a.b".to_owned()),
        ],
    }
}

#[test]
fn service_ids_of_requested_names() {
    let r = get_service_ids(mapping(), vec!["a.b", "c"]);
    assert_eq!(r, vec![("a.b".to_owned(), 7), ("c".to_owned(), 9), ("a.b".to_owned(), 11)]);
    let r = get_service_ids(mapping(), vec!["dev.sabaton.ExampleInterface"]);
    assert_eq!(r, vec![("dev.sabaton.ExampleInterface".to_owned(), 0x1234)]);
    assert!(get_service_ids(mapping(), vec!["unknown"]).is_empty());
    assert!(get_service_ids(mapping(), vec![]).is_empty());
    assert!(get_service_ids(ServiceIds { services: vec![] }, vec!["c"]).is_empty());
}

#[test]
fn one_service_for_a_proxy() {
    assert_eq!(single_service_id(&vec![("x".to_owned(), 3)]).unwrap(), 3);
    assert!(matches!(single_service_id(&vec![]), Err(MiddlewareError::ConfigurationError)));
    assert!(matches!(
        single_service_id(&vec![("x".to_owned(), 3), ("x".to_owned(), 4)]),
        Err(MiddlewareError::ConfigurationError)
    ));
}

#[test]
fn services_matched_to_handlers() {
    let handlers = vec!["c", "a.b"];
    let services = get_service_ids(
        ServiceIds { services: vec![(7, "a.b".to_owned()), (9, "c".to_owned())] },
        handlers.clone(),
    );
    let m = match_service_handlers(&services, &handlers).unwrap();
    assert_eq!(m, vec![(1, 7), (0, 9)]);
    let too_few = get_service_ids(ServiceIds { services: vec![(9, "c".to_owned())] }, handlers.clone());
    assert!(matches!(
        match_service_handlers(&too_few, &handlers),
        Err(MiddlewareError::ConfigurationError)
    ));
}

#[test]
fn service_discovery_topic_names() {
    assert_eq!(
        service_name_to_topic_name("dev.sabaton.ExampleInterface"),
        "/service_discovery/default/dev/sabaton/ExampleInterface"
    );
    assert_eq!(service_name_to_topic_name(""), "/service_discovery/default/");
    assert_eq!(service_name_to_topic_name("a..b."), "/service_discovery/default/a//b/");
    assert!(!service_name_to_topic_name("x.y.z").contains('.'));
}

#[test]
fn proxy_connects_once() {
    let key = ServiceKey { major_version: 1, minor_version: 0, instance_id: 0 };
    let mut l = ProxyLauncher::new(key);
    let udp = vec![Transport::Udp];
    let tcp = vec![Transport::Udp, Transport::Tcp];
    assert!(!offers_tcp(&udp));
    assert!(offers_tcp(&tcp));
    assert!(!l.on_announcement(&key, &udp));
    let other = ServiceKey { major_version: 2, minor_version: 0, instance_id: 0 };
    assert!(!l.on_announcement(&other, &tcp));
    let other_instance = ServiceKey { major_version: 1, minor_version: 0, instance_id: 1 };
    assert!(!l.on_announcement(&other_instance, &tcp));
    assert!(l.on_announcement(&key, &tcp));
    assert!(l.is_running);
    assert!(!l.on_announcement(&key, &tcp));
}

fn expected_config(sm: bool, log: &str, trace: bool, level: &str) -> String {
    format!(
        r###"<?xml version="1.0" encoding="UTF-8" ?>
    <CycloneDDS xmlns="https://cdds.io/config"
                xmlns:xsi="http://www.w3.org/2001/XMLSchema-instance"
                xsi:schemaLocation="https://cdds.io/config https://raw.githubusercontent.com/eclipse-cyclonedds/cyclonedds/iceoryx/etc/cyclonedds.xsd">
        <Domain id="any">
            <SharedMemory>
                <Enable>{}</Enable>
                <LogLevel>{}</LogLevel>
            </SharedMemory>
            {}
        </Domain>
    </CycloneDDS>
    "###,
        if sm { "true" } else { "false" },
        log,
        if trace {
            format!(
                "<Tracing><Category>{}</Category><Verbosity>fine</Verbosity><OutputFile>cdds.log.${{CYCLONEDDS_PID}}</OutputFile></Tracing>",
                level
            )
        } else {
            String::new()
        }
    )
}

#[test]
fn dds_configuration_document() {
    assert_eq!(cdds_config(true, LogLevel::Info, false, "x"), expected_config(true, "info", false, "x"));
    assert_eq!(cdds_config(false, LogLevel::Fatal, true, "trace"), expected_config(false, "fatal", true, "trace"));
    assert!(cdds_config(false, LogLevel::Info, true, "config").contains("<Category>config</Category>"));
    assert_eq!(cdds_config(false, LogLevel::Info, false, "a"), cdds_config(false, LogLevel::Info, false, "b"));
}

#[test]
fn service_mapping_location() {
    let (p, s) = config_path_candidate(Some("services.toml".to_owned()));
    assert_eq!((p.as_str(), s), ("services.toml", ConfigSource::Environment));
    let (p, s) = config_path_candidate(None);
    assert_eq!((p.as_str(), s), ("/etc/sabaton/services.toml", ConfigSource::Default));
    assert_eq!(missing_config_message(ConfigSource::Environment), "Config file set in environment variable not found");
    assert_eq!(missing_config_message(ConfigSource::Default), "Default Config file not found");
}

#[test]
fn init_context() {
    let _a = InitContext::new();
    let _b = InitContext::default();
}

#[test]
fn failing_codes_map_to_distinct_errors() {
    let codes = [
        DdsRetcode::DdsError,
        DdsRetcode::Unsupported,
        DdsRetcode::BadParameter,
        DdsRetcode::PreconditionNotMet,
        DdsRetcode::OutOfResources,
        DdsRetcode::NotEnabled,
        DdsRetcode::ImmutablePolicy,
        DdsRetcode::InconsistentPolicy,
        DdsRetcode::AlreadyDeleted,
        DdsRetcode::Timeout,
        DdsRetcode::NoData,
        DdsRetcode::IllegalOperation,
        DdsRetcode::NotAllowedBySecurity,
    ];
    for a in codes.iter() {
        for b in codes.iter() {
            assert_eq!(a == b, DDSError::from_retcode(*a) == DDSError::from_retcode(*b));
        }
    }
    assert_eq!(DDSError::from_retcode(DdsRetcode::InconsistentPolicy).message(), "Inconsistent Policy");
    assert_eq!(DDSError::from_retcode(DdsRetcode::NotAllowedBySecurity).message(), "Not allowed by security");
}
