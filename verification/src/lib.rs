//! Capability-mode sandboxing primitives: a narrow-only rights algebra for
//! file descriptors, auxiliary fcntl and ioctl rights sets, process
//! capability-mode state, and the envelope protocol spoken with an
//! unsandboxed helper process.

pub mod bits;
pub mod casper;
pub mod common;
pub mod descriptor;
pub mod fcntl;
pub mod ioctl;
pub mod nvlist;
pub mod process;
pub mod right;
pub mod util;

pub use common::{CapErr, CapErrType, CapRights, CapResult};
pub use descriptor::FdCaps;
pub use fcntl::{Fcntl, FcntlRights, FcntlsBuilder};
pub use ioctl::{IoctlRights, IoctlsBuilder};
pub use process::{enter, get_mode, sandboxed, ProcessMode};
pub use casper::{check_reply, transact, ReplyError, Service, ServiceDispatcher, ServiceRegisterFlags, ServiceRegistry, UidService};
pub use nvlist::{NvError, NvFlag, NvList, NvPair, NvValue};
pub use right::{cap_rights_t, FileRights, Right, RightsBuilder};
