//! Errors of the RakNet transport.

use crate::raknet::address::PeerAddress;
use crate::raknet::address_text::{address_text, append_address};
use crate::raknet::budget::BudgetExceeded;
use crate::text::{append_decimal, append_hex_byte, decimal, hex_byte};
use vstd::prelude::*;
use vstd::string::*;

verus! {

/// What is wrong with a packet or with a snapshot of transport state.
#[derive(Clone, Copy, Debug, PartialEq, Eq)]
pub enum WireError {
    /// A fault that one fixed sentence describes.
    Fault(&'static str),
    /// A frame names a reliability that does not exist.
    ReliabilityTag(u8),
    /// A datagram does not carry the flags of one.
    DatagramFlags(u8),
    /// An address is of neither internet protocol version.
    AddressVersion(u8),
    /// A transferred peer has a datagram size outside the accepted range.
    SnapshotMtu { mtu: u16, maximum: u16 },
    /// A transferred peer is there already, or twice among the transferred ones.
    DuplicatePeer(PeerAddress),
    /// A socket is not the one that was configured.
    ListenerMismatch { local: PeerAddress, configured: PeerAddress },
    /// Freezing the peers failed, and so did resuming them thereafter.
    FreezeCompensation { error: ControlFault, compensation: ControlFault },
    /// Resuming the peers failed, and so did freezing some of them thereafter.
    ResumeCompensation { error: ControlFault, failures: usize },
}

/// Why a peer did not take a request of the router.
#[derive(Clone, Copy, Debug, PartialEq, Eq, Structural)]
pub enum ControlFault {
    /// The peer is gone.
    Closed,
    /// The peer has too many requests waiting.
    QueueFull,
}

impl ControlFault {
    /// The error that the fault stands for.
    pub open spec fn spec_error(self) -> RakNetError {
        match self {
            ControlFault::Closed => RakNetError::Closed,
            ControlFault::QueueFull => RakNetError::QueueFull,
        }
    }

    /// The error that the fault stands for.
    pub fn error(self) -> (result: RakNetError)
        ensures
            result == self.spec_error(),
    {
        match self {
            ControlFault::Closed => RakNetError::Closed,
            ControlFault::QueueFull => RakNetError::QueueFull,
        }
    }

    /// The text of the fault.
    pub open spec fn spec_message(self) -> Seq<char> {
        match self {
            ControlFault::Closed => "raknet peer is closed"@,
            ControlFault::QueueFull => "raknet peer command queue is full"@,
        }
    }

    fn append_to(self, text: &mut String)
        ensures
            final(text)@ == old(text)@ + self.spec_message(),
    {
        match self {
            ControlFault::Closed => text.append("raknet peer is closed"),
            ControlFault::QueueFull => text.append("raknet peer command queue is full"),
        }
    }
}

/// `count` times the text of a closed peer, with semicolons between.
pub open spec fn closed_list(count: nat) -> Seq<char>
    decreases count,
{
    if count == 0 {
        Seq::empty()
    } else if count == 1 {
        "raknet peer is closed"@
    } else {
        closed_list((count - 1) as nat) + "; "@ + "raknet peer is closed"@
    }
}

fn append_closed_list(text: &mut String, count: usize)
    ensures
        final(text)@ == old(text)@ + closed_list(count as nat),
    decreases count,
{
    if count == 0 {
        assert(text@ =~= old(text)@ + closed_list(0));
    } else if count == 1 {
        text.append("raknet peer is closed");
    } else {
        append_closed_list(text, count - 1);
        text.append("; ");
        text.append("raknet peer is closed");
        assert(text@ =~= old(text)@ + closed_list(count as nat));
    }
}

impl WireError {
    /// The text of the error.
    pub open spec fn spec_message(self) -> Seq<char> {
        match self {
            WireError::Fault(text) => text@,
            WireError::ReliabilityTag(tag) => "invalid reliability tag "@ + decimal(tag as nat),
            WireError::DatagramFlags(flags) => "invalid datagram flags 0x"@ + hex_byte(flags),
            WireError::AddressVersion(version) => "unsupported raknet address version "@ + decimal(
                version as nat,
            ),
            WireError::SnapshotMtu { mtu, maximum } => "transferred peer MTU "@ + decimal(
                mtu as nat,
            ) + " is outside 576..="@ + decimal(maximum as nat),
            WireError::DuplicatePeer(address) => "duplicate transferred RakNet peer "@
                + address_text(address),
            WireError::ListenerMismatch { local, configured } => "imported UDP socket "@
                + address_text(local) + " does not match configured listener "@ + address_text(
                configured,
            ),
            WireError::FreezeCompensation { error, compensation } => "raknet peer freeze failed: "@
                + error.spec_message() + "; resume compensation failed: "@
                + compensation.spec_message(),
            WireError::ResumeCompensation { error, failures } => "raknet peer resume failed: "@
                + error.spec_message() + "; freeze compensation failed: "@
                + "raknet wire error: raknet peer freeze compensation failed: "@ + closed_list(
                failures as nat,
            ),
        }
    }

    /// The text of the error.
    pub fn message(&self) -> (text: String)
        ensures
            text@ == self.spec_message(),
    {
        match self {
            WireError::Fault(fault) => (*fault).to_string(),
            WireError::ReliabilityTag(tag) => {
                let mut text = "invalid reliability tag ".to_string();
                append_decimal(&mut text, *tag as u64);
                text
            },
            WireError::DatagramFlags(flags) => {
                let mut text = "invalid datagram flags 0x".to_string();
                append_hex_byte(&mut text, *flags);
                text
            },
            WireError::AddressVersion(version) => {
                let mut text = "unsupported raknet address version ".to_string();
                append_decimal(&mut text, *version as u64);
                text
            },
            WireError::SnapshotMtu { mtu, maximum } => {
                let mut text = "transferred peer MTU ".to_string();
                append_decimal(&mut text, *mtu as u64);
                text.append(" is outside 576..=");
                append_decimal(&mut text, *maximum as u64);
                text
            },
            WireError::DuplicatePeer(address) => {
                let mut text = "duplicate transferred RakNet peer ".to_string();
                append_address(&mut text, *address);
                text
            },
            WireError::ListenerMismatch { local, configured } => {
                let mut text = "imported UDP socket ".to_string();
                append_address(&mut text, *local);
                text.append(" does not match configured listener ");
                append_address(&mut text, *configured);
                text
            },
            WireError::FreezeCompensation { error, compensation } => {
                let mut text = "raknet peer freeze failed: ".to_string();
                error.append_to(&mut text);
                text.append("; resume compensation failed: ");
                compensation.append_to(&mut text);
                text
            },
            WireError::ResumeCompensation { error, failures } => {
                let mut text = "raknet peer resume failed: ".to_string();
                error.append_to(&mut text);
                text.append("; freeze compensation failed: ");
                text.append("raknet wire error: raknet peer freeze compensation failed: ");
                append_closed_list(&mut text, *failures);
                text
            },
        }
    }
}

/// Why a transport operation failed. Failures of the socket itself stay with the program.
#[derive(Clone, Copy, Debug, PartialEq, Eq)]
pub enum RakNetError {
    Wire(WireError),
    Budget(BudgetExceeded),
    Closed,
    PeerTimeout,
    RetransmitExhausted { sequence: u32, attempts: u16 },
    QueueFull,
}

impl RakNetError {
    /// The text of the error.
    pub open spec fn spec_message(self) -> Seq<char> {
        match self {
            RakNetError::Wire(fault) => "raknet wire error: "@ + fault.spec_message(),
            RakNetError::Budget(exceeded) => exceeded.spec_message(),
            RakNetError::Closed => "raknet peer is closed"@,
            RakNetError::PeerTimeout => "raknet peer activity timed out"@,
            RakNetError::RetransmitExhausted { sequence, attempts } => "raknet datagram sequence "@
                + decimal(sequence as nat) + " exhausted its retransmit budget after "@ + decimal(
                attempts as nat,
            ) + " attempts"@,
            RakNetError::QueueFull => "raknet peer command queue is full"@,
        }
    }

    /// The text of the error.
    pub fn message(&self) -> (text: String)
        ensures
            text@ == self.spec_message(),
    {
        match self {
            RakNetError::Wire(fault) => {
                let mut text = "raknet wire error: ".to_string();
                text.append(fault.message().as_str());
                text
            },
            RakNetError::Budget(exceeded) => exceeded.message(),
            RakNetError::Closed => "raknet peer is closed".to_string(),
            RakNetError::PeerTimeout => "raknet peer activity timed out".to_string(),
            RakNetError::RetransmitExhausted { sequence, attempts } => {
                let mut text = "raknet datagram sequence ".to_string();
                append_decimal(&mut text, *sequence as u64);
                text.append(" exhausted its retransmit budget after ");
                append_decimal(&mut text, *attempts as u64);
                text.append(" attempts");
                text
            },
            RakNetError::QueueFull => "raknet peer command queue is full".to_string(),
        }
    }
}

} // verus!
