pub mod config;
pub mod db;
pub mod envmap;
pub mod errors;
pub mod forgejo;
pub mod session;
pub mod text;
pub mod ui;
pub mod webhook;
