//! Works out the host's primary IPv4 address as text and the /24 network
//! base derived from it, from what the operating system reported.
pub mod dotted;
pub mod resolver;

pub use dotted::{format_ipv4, network_base_of};
pub use resolver::{
    network_info_for, network_info_from_ip, resolve, HostAddress, NetworkInfo, ResolveError,
};
