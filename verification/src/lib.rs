pub mod audit;
pub mod audit_laws;
pub mod cert;
pub mod clock;
pub mod codec;
pub mod config;
pub mod config_laws;
pub mod execute;
pub mod hsm;
pub mod hsm_laws;
pub mod integrity;
pub mod protocol;
pub mod server;
pub mod server_laws;
pub mod settings;
pub mod text;
