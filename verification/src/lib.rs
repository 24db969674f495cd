//! A host/guest extension call protocol.
//!
//! A metered, sandboxed guest asks a trusted host for work it cannot do
//! itself. Requests and replies cross an untyped byte boundary; this crate
//! holds the codec for that boundary, the guest's table of extension
//! functions, the translation of status codes, the channel the host reads
//! and writes, the host's dispatcher, and the bridge that defers a call.

pub mod codec;
pub mod status;
pub mod channel;
pub mod table;
pub mod deferred;
pub mod dispatcher;
pub mod contract;

pub use channel::{Channel, OutOfWeight};
pub use codec::{Custom, DecodeError};
pub use contract::{ChainExtension, CustomEnvironment, EntryError, SchedulerTriggered};
pub use deferred::{AccountId, DeferredCall, Invocation, SCHEDULER_HANDLER_SELECTOR};
pub use dispatcher::{
    CallContext, Dispatch, DispatchError, HostAction, HostRejected, MyExtension, Request, RetVal,
    Weights, BASE_WEIGHT,
};
pub use status::{ExtensionError, ProtocolViolation};
pub use table::{ExtensionCall, ExtensionEntry, Method, MyChainExtension, Reply, Shape};
