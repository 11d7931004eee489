//! Turns what the operating system reported as the host's primary address
//! into a `NetworkInfo`, or into the error that explains why it cannot.
use vstd::prelude::*;
use vstd::string::*;

use crate::dotted::{
    after_last_dot, before_last_dot, dot_count, dotted_quad, dotted_triple, format_ipv4,
    lemma_dotted_quad_parts, lemma_split_at_last_dot, network_base_of,
};

verus! {

/// The host's primary IPv4 address and the /24 network base derived from it.
#[derive(Debug, Clone, PartialEq, Eq)]
pub struct NetworkInfo {
    /// Always `primary`: a label for the primary interface, not an OS
    /// interface name.
    pub interface_name: String,
    /// The address in dotted-decimal form.
    pub ip_address: String,
    /// The first three components of `ip_address`, joined by dots.
    pub network_base: String,
}

/// The text of a `NetworkInfo`.
pub struct NetworkInfoView {
    pub interface_name: Seq<char>,
    pub ip_address: Seq<char>,
    pub network_base: Seq<char>,
}

impl View for NetworkInfo {
    type V = NetworkInfoView;

    open spec fn view(&self) -> NetworkInfoView {
        NetworkInfoView {
            interface_name: self.interface_name@,
            ip_address: self.ip_address@,
            network_base: self.network_base@,
        }
    }
}

/// The address the operating system would use as source for outbound
/// traffic, by family.
#[derive(Debug, Clone, Copy, PartialEq, Eq)]
pub enum HostAddress {
    /// An IPv4 address, by its four octets.
    V4([u8; 4]),
    /// An IPv6 address, by its eight 16-bit segments.
    V6([u16; 8]),
}

/// Why no `NetworkInfo` could be produced.
#[derive(Debug, Clone, PartialEq, Eq)]
pub enum ResolveError {
    /// The operating system could not give a local address; holds its reason.
    LookupFailed(String),
    /// The local address is an IPv6 address.
    UnsupportedAddressFamily,
    /// The address text does not split into four dot-separated parts.
    MalformedAddress,
}

/// A `ResolveError` with its reason as text.
pub enum ResolveErrorView {
    LookupFailed(Seq<char>),
    UnsupportedAddressFamily,
    MalformedAddress,
}

impl View for ResolveError {
    type V = ResolveErrorView;

    open spec fn view(&self) -> ResolveErrorView {
        match self {
            ResolveError::LookupFailed(reason) => ResolveErrorView::LookupFailed(reason@),
            ResolveError::UnsupportedAddressFamily => ResolveErrorView::UnsupportedAddressFamily,
            ResolveError::MalformedAddress => ResolveErrorView::MalformedAddress,
        }
    }
}

/// The label every `NetworkInfo` carries as its interface name.
pub open spec fn primary_label() -> Seq<char> {
    "primary"@
}

/// The message that reports an error to the caller.
pub open spec fn error_message(e: ResolveErrorView) -> Seq<char> {
    match e {
        ResolveErrorView::LookupFailed(reason) => "Failed to get local IP: "@ + reason,
        ResolveErrorView::UnsupportedAddressFamily => "IPv6 not supported"@,
        ResolveErrorView::MalformedAddress => "Invalid IP address format"@,
    }
}

/// What the address text `ip` gives: its network base where it splits on
/// dots into exactly four parts, else the malformed-address error.
pub open spec fn info_for_ip(ip: Seq<char>) -> Result<NetworkInfoView, ResolveErrorView> {
    if dot_count(ip) == 3 {
        Ok(
            NetworkInfoView {
                interface_name: primary_label(),
                ip_address: ip,
                network_base: before_last_dot(ip),
            },
        )
    } else {
        Err(ResolveErrorView::MalformedAddress)
    }
}

/// What a lookup's outcome gives: the lookup's own failure, the refusal of
/// IPv6, or the information for the IPv4 address in dotted-decimal form.
pub open spec fn resolution(lookup: Result<HostAddress, Seq<char>>) -> Result<
    NetworkInfoView,
    ResolveErrorView,
> {
    match lookup {
        Err(reason) => Err(ResolveErrorView::LookupFailed(reason)),
        Ok(HostAddress::V6(_)) => Err(ResolveErrorView::UnsupportedAddressFamily),
        Ok(HostAddress::V4(octets)) => info_for_ip(dotted_quad(octets)),
    }
}

/// A lookup's outcome with its failure reason as text.
pub open spec fn lookup_view(lookup: Result<HostAddress, String>) -> Result<
    HostAddress,
    Seq<char>,
> {
    match lookup {
        Ok(address) => Ok(address),
        Err(reason) => Err(reason@),
    }
}

/// The outcome of a resolution as text.
pub open spec fn outcome_view(r: Result<NetworkInfo, ResolveError>) -> Result<
    NetworkInfoView,
    ResolveErrorView,
> {
    match r {
        Ok(info) => Ok(info@),
        Err(e) => Err(e@),
    }
}

impl ResolveError {
    /// The human-readable message for this error.
    pub fn message(&self) -> (r: String)
        ensures
            r@ == error_message(self@),
    {
        match self {
            ResolveError::LookupFailed(reason) => {
                let mut m = String::from_str("Failed to get local IP: ");
                m.append(reason.as_str());
                m
            },
            ResolveError::UnsupportedAddressFamily => String::from_str("IPv6 not supported"),
            ResolveError::MalformedAddress => String::from_str("Invalid IP address format"),
        }
    }
}

/// Builds the `NetworkInfo` of an address given as text, checking that it
/// splits into four dot-separated parts.
pub fn network_info_from_ip(ip: String) -> (r: Result<NetworkInfo, ResolveError>)
    ensures
        outcome_view(r) == info_for_ip(ip@),
{
    match network_base_of(ip.as_str()) {
        Some(base) => Ok(
            NetworkInfo {
                interface_name: String::from_str("primary"),
                ip_address: ip,
                network_base: base,
            },
        ),
        None => Err(ResolveError::MalformedAddress),
    }
}

/// Builds the `NetworkInfo` of the host's address: an IPv4 address is
/// rendered in dotted-decimal form and its first three octets form the
/// network base; an IPv6 address is refused.
pub fn network_info_for(address: &HostAddress) -> (r: Result<NetworkInfo, ResolveError>)
    ensures
        outcome_view(r) == resolution(Ok(*address)),
        *address matches HostAddress::V4(octets) ==> r matches Ok(info) && info@ == (
        NetworkInfoView {
            interface_name: primary_label(),
            ip_address: dotted_quad(octets),
            network_base: dotted_triple(octets),
        }),
        *address is V6 ==> r == Err::<NetworkInfo, ResolveError>(
            ResolveError::UnsupportedAddressFamily,
        ),
{
    match address {
        HostAddress::V4(octets) => {
            proof {
                lemma_dotted_quad_parts(*octets);
            }
            network_info_from_ip(format_ipv4(*octets))
        },
        HostAddress::V6(_) => Err(ResolveError::UnsupportedAddressFamily),
    }
}

/// Resolves the host's network information from the outcome of the
/// operating system's lookup of its primary address. A failed lookup is
/// passed on with its reason; nothing is retried or looked up again.
pub fn resolve(lookup: Result<HostAddress, String>) -> (r: Result<NetworkInfo, ResolveError>)
    ensures
        outcome_view(r) == resolution(lookup_view(lookup)),
        lookup matches Err(reason) ==> r matches Err(ResolveError::LookupFailed(m)) && m@
            == reason@,
{
    match lookup {
        Ok(address) => network_info_for(&address),
        Err(reason) => Err(ResolveError::LookupFailed(reason)),
    }
}

/// For every IPv4 address `a.b.c.d`, resolution gives the address as
/// `a.b.c.d` under the primary label and `a.b.c` as its network base.
pub proof fn lemma_ipv4_network_base(octets: [u8; 4])
    ensures
        resolution(Ok(HostAddress::V4(octets))) == Ok::<NetworkInfoView, ResolveErrorView>(
            NetworkInfoView {
                interface_name: primary_label(),
                ip_address: dotted_quad(octets),
                network_base: dotted_triple(octets),
            },
        ),
{
    lemma_dotted_quad_parts(octets);
}

/// Whenever resolution succeeds, the address is its network base followed
/// by a dot and one last, dotless component: the base is a strict prefix.
pub proof fn lemma_network_base_is_address_prefix(lookup: Result<HostAddress, Seq<char>>)
    ensures
        resolution(lookup) matches Ok(info) ==> {
            &&& info.ip_address == info.network_base + seq!['.'] + after_last_dot(
                info.ip_address,
            )
            &&& dot_count(after_last_dot(info.ip_address)) == 0
            &&& info.network_base.len() < info.ip_address.len()
        },
{
    if let Ok(info) = resolution(lookup) {
        lemma_split_at_last_dot(info.ip_address);
    }
}

/// An IPv6 address is refused with the unsupported-family error, reported
/// as `IPv6 not supported`, and no information is produced.
pub proof fn lemma_ipv6_refused(segments: [u16; 8])
    ensures
        resolution(Ok(HostAddress::V6(segments))) == Err::<NetworkInfoView, ResolveErrorView>(
            ResolveErrorView::UnsupportedAddressFamily,
        ),
        error_message(ResolveErrorView::UnsupportedAddressFamily) == "IPv6 not supported"@,
{
}

/// A failed lookup gives the lookup error, whose message ends with the
/// lookup's own reason, after `Failed to get local IP: `.
pub proof fn lemma_lookup_failure_reported(reason: Seq<char>)
    ensures
        resolution(Err(reason)) == Err::<NetworkInfoView, ResolveErrorView>(
            ResolveErrorView::LookupFailed(reason),
        ),
        error_message(ResolveErrorView::LookupFailed(reason)) == "Failed to get local IP: "@
            + reason,
        error_message(ResolveErrorView::LookupFailed(reason)).subrange(
            "Failed to get local IP: "@.len() as int,
            error_message(ResolveErrorView::LookupFailed(reason)).len() as int,
        ) == reason,
{
    let m = error_message(ResolveErrorView::LookupFailed(reason));
    let p = "Failed to get local IP: "@;
    assert(m.subrange(p.len() as int, m.len() as int) =~= reason);
}

/// Resolving twice while the host's address is unchanged gives the same
/// information, or the same error, both times.
pub proof fn lemma_resolution_stable(
    first: Result<HostAddress, String>,
    second: Result<HostAddress, String>,
    first_outcome: Result<NetworkInfo, ResolveError>,
    second_outcome: Result<NetworkInfo, ResolveError>,
)
    requires
        lookup_view(first) == lookup_view(second),
        outcome_view(first_outcome) == resolution(lookup_view(first)),
        outcome_view(second_outcome) == resolution(lookup_view(second)),
    ensures
        outcome_view(first_outcome) == outcome_view(second_outcome),
{
}

} // verus!
