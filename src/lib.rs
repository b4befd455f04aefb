//! Simulated networked machines: per-machine network namespaces with virtual
//! IP interfaces, joined pairwise by in-process links.
//!
//! This crate holds the decision logic of the system. The kernel calls, the
//! reactor and the threads live around it and drive the types defined here.
mod config;
mod error;
mod ifname;
mod link;
mod packet;
mod provision;
mod sys;

pub use config::{IfaceConfig, IpIfaceBuilder, class_prefix_len, default_name, effective_name, infer_prefix_len};
pub use error::{ErrorClass, IfaceError, SysOp};
pub use ifname::{IFNAME_BUF_LEN, decode_ifr_name, encode_ifr_name, ifr_name_bytes, is_name_end, name_error, name_prefix};
pub use packet::{flush_outcome, lemma_submit_then_flush, FlushStep, IpPacketSink, IpPacketStream, MTU, READ_BUF_LEN, ReadResult, StreamEvent};
pub use link::{ForwardAction, LinkDirection, lemma_forwarding_in_order, lemma_within_mtu_all_fit, within_mtu};
pub use provision::{ProvisionAction, ProvisionActionView, ProvisionEvent, ProvisionEventView, ProvisionState, Provisioner, Stage, TUN_FLAGS, accepts, initial_state, lemma_default_name_request, lemma_provision_configures_address, next, op_of};
