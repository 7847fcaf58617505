//! Lifecycle management for ephemeral, disposable container instances used
//! in integration testing: a constructed handle is observably ready, exposes
//! runtime-discovered connection details, and tears its instance down
//! exactly once when its owning scope ends.

pub mod container;
pub mod lifecycle;
pub mod ports;

pub use container::Container;
pub use container::Docker;
pub use container::Image;
pub use container::ReadinessFailure;
pub use container::TeardownPolicy;
pub use ports::Ports;
pub use ports::ResolutionDiagnostic;
pub use ports::resolution_diagnostic;

pub use lifecycle::RuntimeStatus;
pub use lifecycle::TeardownAction;
pub use lifecycle::TeardownCall;
pub use lifecycle::spec_teardown_action;
pub use lifecycle::teardown_action;
pub use lifecycle::teardown_calls;
