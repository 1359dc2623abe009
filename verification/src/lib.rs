//! Presence and notification core of a turn-based multiplayer game server.
//!
//! The crate holds the decisions of four cooperating parts and proves them:
//!
//! * [`registry`]: the account → connections presence map and its command
//!   processor, with [`presence_laws`] on whole histories of commands,
//! * [`sender`]: the per-connection outbound sender,
//! * [`monitor`]: the heartbeat and ingress monitor of one connection,
//! * [`cleanup`]: the lobby repair that follows a lost connection.
//!
//! None of them performs I/O. Each is a function from a state and an event to
//! the next state and the action its owner has to carry out, so the tasks that
//! drive sockets, queues, timers and storage stay thin.
//!
//! Around them stand the events themselves ([`event`], [`chat`]), the rows a
//! cleanup touches ([`cleanup_laws`]), the errors of the
//! request interface ([`api_error`]), the request bodies with their checks
//! ([`requests`]), a few settings ([`settings`]) and the checks made at
//! startup ([`startup`]).

pub mod api_error;
pub mod chat;
pub mod cleanup;
pub mod cleanup_laws;
pub mod event;
pub mod monitor;
pub mod presence_laws;
pub mod registry;
pub mod requests;
pub mod sender;
pub mod settings;
pub mod startup;
