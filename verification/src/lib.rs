//! Core of a real-time chat backend: session registry with sliding
//! expiration, room registry, the per-room actor state machine with its
//! idle timer, the bounded broadcast fan-out, and the connection adapter
//! that translates between wire frames and room commands.
//!
//! Everything here is synchronous, verified logic. The asynchronous shell
//! (HTTP routing, sockets, database access, timers) lives outside and calls
//! in with plain values: the current time is always passed as a tick count.

pub mod adapter;
pub mod api;
pub mod broadcast;
pub mod frame;
pub mod handlers;
pub mod persistence;
pub mod room_actor;
pub mod room_command;
pub mod room_registry;
pub mod session;
pub mod token_map;

pub use adapter::OutboundStep;
pub use api::Account;
pub use api::ApiResponse;
pub use api::Room;
pub use broadcast::BroadcastQueue;
pub use broadcast::RecvOutcome;
pub use broadcast::Subscriber;
pub use frame::StreamCommand;
pub use frame::StreamMethod;
pub use handlers::DbFailure;
pub use handlers::Rejection;
pub use room_actor::CommandStep;
pub use room_actor::RoomActor;
pub use room_actor::RoomPhase;
pub use room_actor::TimerVerdict;
pub use room_command::Method;
pub use room_command::RoomCommand;
pub use room_registry::RoomManager;
pub use session::Session;
pub use session::SessionManager;
