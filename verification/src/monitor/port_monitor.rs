//! The port probe: is something listening on a TCP port?
//!
//! The caller resolves the address and tries the connections; the probe says
//! which connection to try next and when the answer is known.

use vstd::prelude::*;
use crate::text::{
    chars_of, decimal, find_last, last_index_of, lemma_last_index_of,
    lemma_last_index_of_split, lemma_number_chars, lemma_parse_decimal, parse_unsigned,
    parse_unsigned_text, push_decimal,
};

verus! {

/// The limit for one connection attempt, in seconds.
pub const CONNECT_TIMEOUT_SECS: u64 = 3;

/// The host that a bare port belongs to.
pub open spec fn loopback() -> Seq<char> {
    "127.0.0.1"@
}

/// The error for a text that is no port number.
pub open spec fn invalid_port_message(text: Seq<char>) -> Seq<char> {
    "Invalid port number: "@ + text
}

/// The host and the port that a text names, or the error.
pub open spec fn port_or_error(host: Seq<char>, port_text: Seq<char>) -> Result<
    (Seq<char>, u16),
    Seq<char>,
> {
    match parse_unsigned(port_text, u16::MAX as nat) {
        Some(port) => Ok((host, port as u16)),
        None => Err(invalid_port_message(port_text)),
    }
}

/// The reading of a port target. With a colon in it, what stands before the
/// last colon is the host and what stands after it the port. Without one, the
/// whole text is the port and the host is the loopback address. The port is
/// an unsigned decimal number of 16 bits; any other text in its place is an
/// error.
pub open spec fn port_target(target: Seq<char>) -> Result<(Seq<char>, u16), Seq<char>> {
    match last_index_of(target, ':') {
        Some(colon) => port_or_error(
            target.subrange(0, colon),
            target.subrange(colon + 1, target.len() as int),
        ),
        None => port_or_error(loopback(), target),
    }
}

/// A parsed port target with its texts as sequences.
pub open spec fn parsed_view(parsed: Result<(String, u16), String>) -> Result<
    (Seq<char>, u16),
    Seq<char>,
> {
    match parsed {
        Ok((host, port)) => Ok((host@, port)),
        Err(message) => Err(message@),
    }
}

fn port_of(host: String, port_text: &str) -> (parsed: Result<(String, u16), String>)
    ensures
        parsed_view(parsed) == port_or_error(host@, port_text@),
{
    match parse_unsigned_text(port_text, 65535) {
        Some(port) => Ok((host, port as u16)),
        None => {
            let mut message = String::from_str("Invalid port number: ");
            message.append(port_text);
            Err(message)
        },
    }
}

/// Reads a port target: `host:port`, or a bare `port` on the loopback
/// address.
pub fn parse_port_target(target: &str) -> (parsed: Result<(String, u16), String>)
    ensures
        parsed_view(parsed) == port_target(target@),
{
    let chars = chars_of(target);
    match find_last(&chars, ':') {
        Some(colon) => {
            proof {
                lemma_last_index_of(target@, ':');
            }
            let host = target.substring_char(0, colon);
            let port_text = target.substring_char(colon + 1, chars.len());
            port_of(String::from_str(host), port_text)
        },
        None => port_of(String::from_str("127.0.0.1"), target),
    }
}

/// What stands after the last colon of a target, or the whole target where
/// it has no colon.
pub open spec fn final_segment(target: Seq<char>) -> Seq<char> {
    match last_index_of(target, ':') {
        Some(colon) => target.subrange(colon + 1, target.len() as int),
        None => target,
    }
}

/// A host, a colon and a port number read as that host and that port,
/// whatever the host is.
pub proof fn law_host_and_port(host: Seq<char>, port_text: Seq<char>, port: u16)
    requires
        parse_unsigned(port_text, u16::MAX as nat) == Some(port as nat),
    ensures
        port_target(host + seq![':'] + port_text) == Ok::<(Seq<char>, u16), Seq<char>>(
            (host, port),
        ),
{
    let target = host + seq![':'] + port_text;
    assert forall|i: int| 0 <= i < port_text.len() implies port_text[i] != ':' by {
        lemma_number_chars(port_text, u16::MAX as nat, i);
    }
    lemma_last_index_of_split(host, ':', port_text);
    assert(target.subrange(0, host.len() as int) =~= host);
    assert(target.subrange(host.len() as int + 1, target.len() as int) =~= port_text);
}

/// A port number alone reads as that port on the loopback address.
pub proof fn law_bare_port(port_text: Seq<char>, port: u16)
    requires
        parse_unsigned(port_text, u16::MAX as nat) == Some(port as nat),
    ensures
        port_target(port_text) == Ok::<(Seq<char>, u16), Seq<char>>((loopback(), port)),
{
    lemma_last_index_of(port_text, ':');
    if last_index_of(port_text, ':') is Some {
        lemma_number_chars(port_text, u16::MAX as nat, last_index_of(port_text, ':')->0);
    }
}

/// Every port, written in decimal after a host or alone, is read back.
pub proof fn law_written_port_is_read(host: Seq<char>, port: u16)
    ensures
        port_target(host + seq![':'] + decimal(port as nat)) == Ok::<
            (Seq<char>, u16),
            Seq<char>,
        >((host, port)),
        port_target(decimal(port as nat)) == Ok::<(Seq<char>, u16), Seq<char>>(
            (loopback(), port),
        ),
{
    lemma_parse_decimal(port as nat, u16::MAX as nat);
    law_host_and_port(host, decimal(port as nat), port);
    law_bare_port(decimal(port as nat), port);
}

/// A target is read exactly where its final segment is a port number: any
/// other final segment yields the error that names it.
pub proof fn law_final_segment_decides(target: Seq<char>)
    ensures
        port_target(target) is Ok <==> parse_unsigned(final_segment(target), u16::MAX as nat)
            is Some,
        port_target(target) is Err ==> port_target(target) == Err::<(Seq<char>, u16), Seq<char>>(
            invalid_port_message(final_segment(target)),
        ),
{
}

/// The address `host:port` as it is handed to the resolver.
pub open spec fn address_text(host: Seq<char>, port: u16) -> Seq<char> {
    host + ":"@ + decimal(port as nat)
}

/// The description of an open port.
pub open spec fn open_message(host: Seq<char>, port: u16) -> Seq<char> {
    "Port "@ + address_text(host, port) + " is OPEN (accepting connections)"@
}

/// The description of a port that is not open.
pub open spec fn closed_message(host: Seq<char>, port: u16) -> Seq<char> {
    "Port "@ + address_text(host, port) + " is CLOSED or unreachable"@
}

/// What a probe found.
#[derive(Debug, Clone, Copy, PartialEq, Eq, Structural)]
pub enum PortFinding {
    /// A connection was made.
    Open,
    /// The address resolved and no connection could be made.
    Closed,
    /// The address did not resolve, so nothing could be tried.
    Unresolved,
}

impl PortFinding {
    /// The finding as a yes or no: only an open port is open.
    pub open spec fn open(self) -> bool {
        self == PortFinding::Open
    }

    /// Whether a connection was made.
    pub fn is_open(self) -> (open: bool)
        ensures
            open == self.open(),
    {
        match self {
            PortFinding::Open => true,
            _ => false,
        }
    }
}

/// Where a probe stands, which is also what its caller has to do next.
#[derive(Debug, Clone, Copy, PartialEq, Eq, Structural)]
pub enum ProbeState {
    /// Resolve the address.
    Resolving,
    /// Try to connect to the address number `index` of the `total` that the
    /// resolver gave, for at most [`CONNECT_TIMEOUT_SECS`].
    Connecting { index: usize, total: usize },
    /// The probe is over.
    Finished(PortFinding),
}

/// What happened to the last thing the caller did.
#[derive(Debug, Clone, Copy, PartialEq, Eq, Structural)]
pub enum ProbeEvent {
    /// The address could not be resolved.
    ResolveFailed,
    /// The address resolved, to this many socket addresses.
    Resolved(usize),
    /// The connection was made.
    Connected,
    /// The connection failed or took too long.
    Refused,
}

/// The state after an event. A failed resolution ends the probe as
/// unresolved, an empty answer as closed. The first connection that is made
/// ends it as open; a failed one moves on to the next address, and after the
/// last address the port is closed. An event that does not answer what the
/// state asks for changes nothing.
pub open spec fn probe_next(state: ProbeState, event: ProbeEvent) -> ProbeState {
    match (state, event) {
        (ProbeState::Resolving, ProbeEvent::ResolveFailed) => ProbeState::Finished(
            PortFinding::Unresolved,
        ),
        (ProbeState::Resolving, ProbeEvent::Resolved(total)) => if total == 0 {
            ProbeState::Finished(PortFinding::Closed)
        } else {
            ProbeState::Connecting { index: 0, total }
        },
        (ProbeState::Connecting { index, total }, ProbeEvent::Connected) => ProbeState::Finished(
            PortFinding::Open,
        ),
        (ProbeState::Connecting { index, total }, ProbeEvent::Refused) => if index + 1 < total {
            ProbeState::Connecting { index: (index + 1) as usize, total }
        } else {
            ProbeState::Finished(PortFinding::Closed)
        },
        _ => state,
    }
}

/// The state in which the caller has tried the connections `attempts`, one
/// for each resolved address in turn, as far as the probe asked for them.
pub open spec fn probe_after(attempts: Seq<bool>, tried: int) -> ProbeState
    recommends
        0 <= tried <= attempts.len() <= usize::MAX,
    decreases tried,
{
    if tried <= 0 {
        probe_next(ProbeState::Resolving, ProbeEvent::Resolved(attempts.len() as usize))
    } else {
        probe_next(
            probe_after(attempts, tried - 1),
            if attempts[tried - 1] {
                ProbeEvent::Connected
            } else {
                ProbeEvent::Refused
            },
        )
    }
}

/// Some attempt of the first `tried` ones connected.
pub open spec fn connected_within(attempts: Seq<bool>, tried: int) -> bool {
    exists|i: int| 0 <= i < tried && i < attempts.len() && #[trigger] attempts[i]
}

/// While no attempt has connected, the probe asks for the next address; from
/// the first connection on it has finished with "open".
pub proof fn lemma_probe_progress(attempts: Seq<bool>, tried: int)
    requires
        0 <= tried <= attempts.len() <= usize::MAX,
    ensures
        probe_after(attempts, tried) == if connected_within(attempts, tried) {
            ProbeState::Finished(PortFinding::Open)
        } else if tried < attempts.len() {
            ProbeState::Connecting { index: tried as usize, total: attempts.len() as usize }
        } else {
            ProbeState::Finished(PortFinding::Closed)
        },
    decreases tried,
{
    if tried > 0 {
        lemma_probe_progress(attempts, tried - 1);
        if connected_within(attempts, tried - 1) {
            let i = choose|i: int| 0 <= i < tried - 1 && i < attempts.len() && #[trigger] attempts[i];
            assert(0 <= i < tried && attempts[i]);
        } else if attempts[tried - 1] {
            assert(connected_within(attempts, tried));
        } else {
            if connected_within(attempts, tried) {
                let i = choose|i: int| 0 <= i < tried && i < attempts.len() && #[trigger] attempts[i];
                assert(i < tried - 1);
                assert(connected_within(attempts, tried - 1));
            }
        }
    }
}

/// A probe whose caller tries one connection for each resolved address ends
/// as open exactly if one of the connections was made, and as closed
/// otherwise.
pub proof fn law_open_iff_connected(attempts: Seq<bool>)
    requires
        attempts.len() <= usize::MAX,
    ensures
        probe_after(attempts, attempts.len() as int) == ProbeState::Finished(
            if exists|i: int| 0 <= i < attempts.len() && #[trigger] attempts[i] {
                PortFinding::Open
            } else {
                PortFinding::Closed
            },
        ),
{
    lemma_probe_progress(attempts, attempts.len() as int);
    let some = exists|i: int| 0 <= i < attempts.len() && #[trigger] attempts[i];
    if some {
        let i = choose|i: int| 0 <= i < attempts.len() && #[trigger] attempts[i];
        assert(0 <= i < attempts.len() && i < attempts.len() && attempts[i]);
    }
    if connected_within(attempts, attempts.len() as int) {
        let i = choose|i: int|
            0 <= i < attempts.len() && i < attempts.len() && #[trigger] attempts[i];
        assert(0 <= i < attempts.len() && attempts[i]);
    }
}

/// The port probe.
pub struct PortMonitor;

impl PortMonitor {
    pub fn new() -> Self {
        Self
    }

    /// The address to resolve for `host` and `port`.
    pub fn address(&self, host: &str, port: u16) -> (out: String)
        ensures
            out@ == address_text(host@, port),
    {
        let mut out = String::from_str(host);
        out.append(":");
        push_decimal(&mut out, port as u64);
        out
    }

    /// The state of a probe that has not started.
    pub fn begin(&self) -> (state: ProbeState)
        ensures
            state == ProbeState::Resolving,
    {
        ProbeState::Resolving
    }

    /// One step of a probe: the state after `event`.
    pub fn check_port(&self, state: ProbeState, event: ProbeEvent) -> (next: ProbeState)
        ensures
            next == probe_next(state, event),
    {
        match state {
            ProbeState::Resolving => match event {
                ProbeEvent::ResolveFailed => ProbeState::Finished(PortFinding::Unresolved),
                ProbeEvent::Resolved(total) => if total == 0 {
                    ProbeState::Finished(PortFinding::Closed)
                } else {
                    ProbeState::Connecting { index: 0, total }
                },
                _ => state,
            },
            ProbeState::Connecting { index, total } => match event {
                ProbeEvent::Connected => ProbeState::Finished(PortFinding::Open),
                ProbeEvent::Refused => if index < total && index + 1 < total {
                    ProbeState::Connecting { index: index + 1, total }
                } else {
                    ProbeState::Finished(PortFinding::Closed)
                },
                _ => state,
            },
            ProbeState::Finished(_) => state,
        }
    }

    /// The description of a finished probe.
    pub fn get_port_info(&self, host: &str, port: u16, is_open: bool) -> (out: String)
        ensures
            out@ == if is_open {
                open_message(host@, port)
            } else {
                closed_message(host@, port)
            },
    {
        let mut out = String::from_str("Port ");
        let ghost start = out@;
        out.append(host);
        out.append(":");
        push_decimal(&mut out, port as u64);
        assert(out@ =~= start + address_text(host@, port));
        if is_open {
            out.append(" is OPEN (accepting connections)");
        } else {
            out.append(" is CLOSED or unreachable");
        }
        out
    }
}

impl Default for PortMonitor {
    fn default() -> Self {
        Self::new()
    }
}

} // verus!
