//! Decision logic of a Geyser plugin that streams validator data into
//! PostgreSQL: configuration model, connection planning, worker planning,
//! and the messages of the errors the plugin reports.
pub mod config;
pub mod geyser_plugin_vertex;
pub mod postgres_client;
pub mod text;
