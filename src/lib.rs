pub mod app;
pub mod cli;
pub mod control;
pub mod deploy;
pub mod health;
pub mod images;
pub mod k8s;
pub mod manifest;
pub mod secrets;
pub mod templates;
pub mod text;
