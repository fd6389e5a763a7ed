pub mod dispatch;
pub mod frame;
pub mod kind;
pub mod node_weight;
pub mod pool;
pub mod publisher;
pub mod registry;
pub mod router;
pub mod secrets;
pub mod text;

pub use dispatch::{Action, Dispatch, Event, HandleState, LeaseState, Phase, RaceWinner};
pub use frame::{FailureKind, FunctionResult, Outbound, OutputFrame, Terminal};
pub use kind::ExecutionKind;
pub use node_weight::{SchemaVariantNodeWeight, SchemaVariantNodeWeightV1};
pub use pool::{ExecutorPool, Lease, PoolError};
pub use publisher::Publisher;
pub use registry::{process_kill_request, KillHandle, KillRegistry};
pub use router::{InboundRoute, RouterError, SubjectParts};
pub use secrets::{DecryptError, RequestField, SensitiveStrings};
