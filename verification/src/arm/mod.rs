//! The host side: the request correlator, the per-joint proxies and the
//! orchestrator that drives them.

pub mod client;
pub mod correlator;
pub mod orchestrator;
pub mod proxy;

pub use client::ArmClient;
pub use correlator::{CommunicationManager, Correlation, Slot, Wait, DEFAULT_TIMEOUT};
pub use orchestrator::ArmOrchestrator;
pub use proxy::JointProxy;
