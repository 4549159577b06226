//! The king of a system of agents: what it decides, stores, tells and answers.
//!
//! The king starts the agents of a machine and watches over them, leads runs through
//! the stages of a pipeline, keeps tasks, memories and traces in a database, and speaks
//! with agents over sockets and with a dashboard over HTTP.
//!
//! This library holds the rules; it does no input or output. A request or an event goes
//! in as a value. What comes out is data too:
//!
//! - a [`sql::Statement`] to run on the database, with its parameters; the rows that it
//!   gives go back in as cells and become records,
//! - an [`events::Emission`] to send to a room,
//! - a list of [`steps::Step`]s to take in order,
//! - an answer in JSON.
//!
//! Each module states over mathematical models what its functions give: texts are
//! sequences of characters, JSON is a [`json::JsonTree`], a statement is its text and
//! its parameters. Functions named `law_..` state what holds of several of them.

pub mod agent_manager;
pub mod api;
pub mod config_watcher;
pub mod cron_manager;
pub mod debug;
pub mod doctor;
pub mod events;
pub mod gateway_manager;
pub mod history;
pub mod json;
pub mod keyed;
pub mod memory_db;
pub mod message_laws;
pub mod paths;
pub mod pipeline_coordinator;
pub mod pipeline_laws;
pub mod query_laws;
pub mod record_laws;
pub mod records;
pub mod socket_server;
pub mod sql;
pub mod stamp;
pub mod steps;
pub mod system_discovery;
pub mod system_laws;
pub mod task_db;
pub mod text;
pub mod text_laws;
pub mod trace_api;
pub mod trace_db;
pub mod trace_receiver;
pub mod view_laws;
