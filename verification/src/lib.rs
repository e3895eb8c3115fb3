pub mod codec;
pub mod endpoint;
pub mod event;
pub mod frame;
pub mod session;
pub mod supervisor;

pub use codec::{decode, parse_envelope, Envelope, ParseFailure};
pub use endpoint::WebSocket;
pub use event::{Conversation, Event, Notification, Status};
pub use frame::Frame;
pub use session::{session_step, FailureKind, InnerError, Outcome, SessionEvent, SessionState};
pub use supervisor::{next_action, SupervisorAction};
