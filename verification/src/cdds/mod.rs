pub mod cdds;
pub mod cdds_config;
pub mod service_discovery;
