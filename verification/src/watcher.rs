//! The watcher: reads every frame on the link and tells a competing
//! announcement of the claimed address from the rest.

use vstd::prelude::*;
use vstd::string::StringExecFns;
use crate::addr::{Ipv4, Mac};
use crate::codec::{ArpFrame, ArpPacket, DecodeError, ETHERNET_HEADER_LEN};
use crate::codec::law_parse_inverts_bytes;

verus! {

/// What the watcher does about a competing announcement.
#[derive(Clone, Copy, Debug, PartialEq, Eq, Structural)]
pub enum Policy {
    /// Stop, and fail the run.
    Fail,
    /// Stop, and end the run in good order.
    Quit,
    /// Warn, and keep listening.
    Log,
}

/// The station behind a competing announcement.
#[derive(Clone, Copy, Debug, PartialEq, Eq, Structural)]
pub struct Competitor {
    /// The Ethernet source of the frame.
    pub source: Mac,
    /// The hardware address that claims the protocol address.
    pub mac: Mac,
}

/// What the watcher makes of one ARP frame.
#[derive(Clone, Copy, Debug, PartialEq, Eq, Structural)]
pub enum Verdict {
    /// No conflict: keep listening.
    Clear,
    /// A conflict to warn about: keep listening.
    Warn(Competitor),
    /// A conflict that ends the watch in good order.
    Quit(Competitor),
    /// A conflict that fails the watch.
    Fail(Competitor),
}

/// An ARP frame that was read, and what follows from it.
#[derive(Clone, Copy, Debug, PartialEq, Eq, Structural)]
pub struct Sighting {
    pub frame: ArpFrame,
    pub verdict: Verdict,
}

/// The watcher of one claim.
#[derive(Clone, Copy, Debug, PartialEq, Eq, Structural)]
pub struct Watcher {
    /// The claimed protocol address.
    pub ip: Ipv4,
    /// The hardware address that the claim is announced with.
    pub mac: Mac,
    pub policy: Policy,
}

impl Verdict {
    /// Whether the watch goes on after this verdict.
    pub open spec fn spec_keeps_watching(self) -> bool {
        self is Clear || self is Warn
    }

    /// Whether the watch goes on after this verdict.
    pub fn keeps_watching(&self) -> (yes: bool)
        ensures
            yes == self.spec_keeps_watching(),
    {
        match self {
            Verdict::Clear => true,
            Verdict::Warn(_) => true,
            Verdict::Quit(_) => false,
            Verdict::Fail(_) => false,
        }
    }
}

impl Watcher {
    /// A conflict is a gratuitous announcement of the claimed address by
    /// another hardware address. A station that uses ours cannot be told from
    /// ourselves.
    pub open spec fn conflict(self, arp: ArpPacket) -> bool {
        &&& arp.gratuitous()
        &&& arp.sender_proto_addr == self.ip
        &&& arp.sender_hw_addr != self.mac
    }

    /// The verdict on a frame: the policy's answer to a conflict, and clear
    /// otherwise.
    pub open spec fn spec_judge(self, frame: ArpFrame) -> Verdict {
        let who = Competitor { source: frame.ethernet.source, mac: frame.arp.sender_hw_addr };
        if !self.conflict(frame.arp) {
            Verdict::Clear
        } else {
            match self.policy {
                Policy::Fail => Verdict::Fail(who),
                Policy::Quit => Verdict::Quit(who),
                Policy::Log => Verdict::Warn(who),
            }
        }
    }

    /// What one delivery from the link leads to: an error where it is too
    /// short to read, nothing where it is not ARP, else the frame with its
    /// verdict.
    pub open spec fn spec_inspect(self, buf: Seq<u8>) -> Result<Option<Sighting>, DecodeError> {
        match ArpFrame::spec_parse(buf) {
            Err(e) => Err(e),
            Ok(None) => Ok(None),
            Ok(Some(frame)) => Ok(Some(Sighting { frame, verdict: self.spec_judge(frame) })),
        }
    }

    /// The watcher of `ip`, which we announce with `mac`.
    pub fn new(ip: Ipv4, mac: Mac, policy: Policy) -> (watcher: Watcher)
        ensures
            watcher == (Watcher { ip, mac, policy }),
    {
        Watcher { ip, mac, policy }
    }

    /// Whether `arp` is a competing announcement.
    pub fn is_conflict(&self, arp: &ArpPacket) -> (yes: bool)
        ensures
            yes == self.conflict(*arp),
    {
        arp.is_gratuitous() && arp.sender_proto_addr == self.ip && arp.sender_hw_addr != self.mac
    }

    /// Judges a frame that was read.
    pub fn judge(&self, frame: &ArpFrame) -> (verdict: Verdict)
        ensures
            verdict == self.spec_judge(*frame),
    {
        let who = Competitor { source: frame.ethernet.source, mac: frame.arp.sender_hw_addr };
        if !self.is_conflict(&frame.arp) {
            Verdict::Clear
        } else {
            match self.policy {
                Policy::Fail => Verdict::Fail(who),
                Policy::Quit => Verdict::Quit(who),
                Policy::Log => Verdict::Warn(who),
            }
        }
    }

    /// Reads one delivery from the link and judges it.
    pub fn inspect(&self, buf: &[u8]) -> (seen: Result<Option<Sighting>, DecodeError>)
        ensures
            seen == self.spec_inspect(buf@),
            buf@.len() < ETHERNET_HEADER_LEN <==> seen == Err::<Option<Sighting>, DecodeError>(
                DecodeError::EthernetTooShort,
            ),
    {
        match ArpFrame::parse(buf) {
            Err(e) => Err(e),
            Ok(None) => Ok(None),
            Ok(Some(frame)) => {
                let verdict = self.judge(&frame);
                Ok(Some(Sighting { frame, verdict }))
            },
        }
    }
}

/// Traffic that is not gratuitous never leads to a policy action, whoever
/// sent it and whatever the policy.
pub proof fn law_only_gratuitous_frames_conflict(watcher: Watcher, buf: Seq<u8>)
    requires
        ArpFrame::spec_parse(buf) matches Ok(Some(frame)) && frame.arp.sender_proto_addr
            != frame.arp.target_proto_addr,
    ensures
        watcher.spec_inspect(buf) matches Ok(Some(sighting)) && sighting.verdict == Verdict::Clear,
{
}

/// A verdict other than clear names a station that announced the claimed
/// address for itself from another hardware address, and is the one that the
/// policy prescribes.
pub proof fn law_verdict_follows_policy(watcher: Watcher, frame: ArpFrame)
    ensures
        watcher.spec_judge(frame) != Verdict::Clear <==> watcher.conflict(frame.arp),
        watcher.conflict(frame.arp) ==> (match watcher.spec_judge(frame) {
            Verdict::Clear => false,
            Verdict::Warn(who) => watcher.policy == Policy::Log && who.source
                == frame.ethernet.source && who.mac == frame.arp.sender_hw_addr,
            Verdict::Quit(who) => watcher.policy == Policy::Quit && who.source
                == frame.ethernet.source && who.mac == frame.arp.sender_hw_addr,
            Verdict::Fail(who) => watcher.policy == Policy::Fail && who.source
                == frame.ethernet.source && who.mac == frame.arp.sender_hw_addr,
        }),
{
}

/// The watcher hears our own announcements too, and passes them over.
pub proof fn law_own_announcement_is_clear(
    watcher: Watcher,
    target: Mac,
    reply: bool,
    padding: Seq<u8>,
)
    ensures
        ({
            let ours = ArpFrame::spec_announcement(watcher.ip, watcher.mac, target, reply);
            watcher.spec_inspect(ours.bytes() + padding) == Ok::<Option<Sighting>, DecodeError>(
                Some(Sighting { frame: ours, verdict: Verdict::Clear }),
            )
        }),
{
    let ours = ArpFrame::spec_announcement(watcher.ip, watcher.mac, target, reply);
    law_parse_inverts_bytes(ours, padding);
}

/// Another station's announcement of the claimed address is a conflict.
pub proof fn law_foreign_announcement_conflicts(
    watcher: Watcher,
    other: Mac,
    target: Mac,
    reply: bool,
    padding: Seq<u8>,
)
    requires
        other != watcher.mac,
    ensures
        ({
            let theirs = ArpFrame::spec_announcement(watcher.ip, other, target, reply);
            &&& watcher.conflict(theirs.arp)
            &&& watcher.spec_inspect(theirs.bytes() + padding) == Ok::<
                Option<Sighting>,
                DecodeError,
            >(Some(Sighting { frame: theirs, verdict: watcher.spec_judge(theirs) }))
        }),
{
    let theirs = ArpFrame::spec_announcement(watcher.ip, other, target, reply);
    law_parse_inverts_bytes(theirs, padding);
}

impl Competitor {
    /// The competing announcement in words.
    pub open spec fn spec_message(self) -> Seq<char> {
        "received competing announce! src="@ + self.source.spec_text() + " mac="@
            + self.mac.spec_text()
    }

    /// The competing announcement in words.
    pub fn message(&self) -> (text: String)
        ensures
            text@ == self.spec_message(),
    {
        let mut text = String::from_str("received competing announce! src=");
        self.source.push_text(&mut text);
        text.append(" mac=");
        self.mac.push_text(&mut text);
        text
    }
}

} // verus!
