//! The announcer: sends the gratuitous announcement again and again, counts
//! the frames, and wakes the watcher after the first.

use vstd::prelude::*;
use vstd::string::StringExecFns;
use crate::addr::{Ipv4, Mac};
use crate::codec::{ArpFrame, FRAME_LEN};
use crate::schedule::{jittered, spec_jittered};
use crate::time::Span;

verus! {

/// What the link said of one transmission.
#[derive(Clone, Copy, Debug, PartialEq, Eq, Structural)]
pub enum SendOutcome {
    /// The frame went out.
    Sent,
    /// The link had nothing to send.
    NothingSent,
    /// The link reported an error.
    Failed,
}

/// Why the announcer gave up.
#[derive(Clone, Copy, Debug, PartialEq, Eq, Structural)]
pub enum AnnounceError {
    /// The link sent nothing and gave no reason.
    NothingSent,
    /// The link failed to send.
    Transport,
}

/// What the announcer does after a frame went out.
#[derive(Clone, Copy, Debug, PartialEq, Eq, Structural)]
pub enum Next {
    /// As many frames went out as were asked for.
    Finished,
    /// Wake the watcher if `arm_watcher`, sleep for `pause`, then send again.
    Pause { arm_watcher: bool, pause: Span },
}

/// The announcer of one claim.
#[derive(Clone, Copy, Debug, PartialEq, Eq, Structural)]
pub struct Announcer {
    /// The claimed protocol address.
    pub ip: Ipv4,
    /// The hardware address that claims it.
    pub mac: Mac,
    /// The Ethernet destination of the announcements.
    pub target: Mac,
    /// Whether the announcements are ARP replies rather than requests.
    pub reply: bool,
    /// How many frames to send; zero for no end.
    pub count: usize,
    /// The time before the first frame.
    pub delay: Span,
    /// The time between two frames, before jitter.
    pub interval: Span,
    /// The bound of the random time added to each interval.
    pub jitter: Span,
    /// How many frames went out, up to the largest number that fits.
    pub sent: usize,
    /// Whether the watcher still waits to be woken.
    pub watch_pending: bool,
}

impl Announcer {
    /// Whether a pause can be drawn: the jitter in milliseconds fits the
    /// generator's sixty-four bits, and the longest pause the counter.
    pub open spec fn schedulable(self) -> bool {
        &&& self.jitter.millis <= u64::MAX
        &&& self.interval.millis + self.jitter.millis <= u128::MAX
    }

    /// The frame that is announced.
    pub open spec fn spec_frame(self) -> ArpFrame {
        ArpFrame::spec_announcement(self.ip, self.mac, self.target, self.reply)
    }

    /// The number of frames after one more, which stops at the largest number
    /// that fits.
    pub open spec fn spec_counted(self) -> usize {
        if self.sent == usize::MAX {
            usize::MAX
        } else {
            (self.sent + 1) as usize
        }
    }

    /// Whether one more frame is the last that was asked for.
    pub open spec fn spec_last_frame(self) -> bool {
        self.count > 0 && self.spec_counted() >= self.count
    }

    /// The state after one transmission and what follows it, for a given
    /// draw of the jitter. Only a frame that went out counts; after the last
    /// one nothing is woken and nothing is drawn.
    pub open spec fn spec_after_send(self, outcome: SendOutcome, draw: u64) -> (
        Announcer,
        Result<Next, AnnounceError>,
    ) {
        match outcome {
            SendOutcome::NothingSent => (self, Err(AnnounceError::NothingSent)),
            SendOutcome::Failed => (self, Err(AnnounceError::Transport)),
            SendOutcome::Sent => if self.spec_last_frame() {
                (Announcer { sent: self.spec_counted(), ..self }, Ok(Next::Finished))
            } else {
                (
                    Announcer { sent: self.spec_counted(), watch_pending: false, ..self },
                    Ok(
                        Next::Pause {
                            arm_watcher: self.watch_pending,
                            pause: spec_jittered(self.interval, self.jitter, draw),
                        },
                    ),
                )
            },
        }
    }

    /// An announcer that has sent nothing yet. The watcher waits to be woken
    /// unless it watches from the start.
    pub fn new(
        ip: Ipv4,
        mac: Mac,
        target: Mac,
        reply: bool,
        count: usize,
        delay: Span,
        interval: Span,
        jitter: Span,
        watch_immediately: bool,
    ) -> (announcer: Announcer)
        ensures
            announcer == (Announcer {
                ip,
                mac,
                target,
                reply,
                count,
                delay,
                interval,
                jitter,
                sent: 0,
                watch_pending: !watch_immediately,
            }),
    {
        Announcer {
            ip,
            mac,
            target,
            reply,
            count,
            delay,
            interval,
            jitter,
            sent: 0,
            watch_pending: !watch_immediately,
        }
    }

    /// Whether a pause can be drawn.
    pub fn is_schedulable(&self) -> (yes: bool)
        ensures
            yes == self.schedulable(),
    {
        self.jitter.millis <= u64::MAX as u128 && self.interval.millis <= u128::MAX
            - self.jitter.millis
    }

    /// The frame to send.
    pub fn frame(&self) -> (frame: ArpFrame)
        ensures
            frame == self.spec_frame(),
            frame.arp.gratuitous(),
    {
        ArpFrame::announcement(self.ip, self.mac, self.target, self.reply)
    }

    /// The frame to send, as it goes on the wire.
    pub fn wire(&self) -> (out: Vec<u8>)
        ensures
            out@ == self.spec_frame().bytes(),
            out@.len() == FRAME_LEN,
    {
        self.frame().encode()
    }

    /// Whether one more frame is the last that was asked for.
    pub fn is_last_frame(&self) -> (yes: bool)
        ensures
            yes == self.spec_last_frame(),
    {
        self.count > 0 && self.sent.saturating_add(1) >= self.count
    }

    /// Takes in what the link said of the transmission, and says what
    /// follows. The pause is drawn anew each time, and only where there is
    /// one: a frame that did not go out, and the last frame, need no
    /// schedule.
    pub fn after_send(&mut self, outcome: SendOutcome) -> (next: Result<Next, AnnounceError>)
        requires
            outcome == SendOutcome::Sent && !old(self).spec_last_frame() ==> old(
                self,
            ).schedulable(),
        ensures
            exists|draw: u64|
                (old(self).jitter.millis > 0 ==> draw < old(self).jitter.millis) && (
                *final(self),
                next,
            ) == #[trigger] old(self).spec_after_send(outcome, draw),
            old(self).schedulable() ==> final(self).schedulable(),
            next matches Ok(Next::Pause { pause, .. }) ==> {
                &&& old(self).interval.millis <= pause.millis
                &&& old(self).jitter.millis == 0 ==> pause == old(self).interval
                &&& old(self).jitter.millis > 0 ==> pause.millis < old(self).interval.millis
                    + old(self).jitter.millis
            },
    {
        match outcome {
            SendOutcome::NothingSent => {
                assert((*self, Err::<Next, AnnounceError>(AnnounceError::NothingSent)) == old(
                    self,
                ).spec_after_send(outcome, 0));
                Err(AnnounceError::NothingSent)
            },
            SendOutcome::Failed => {
                assert((*self, Err::<Next, AnnounceError>(AnnounceError::Transport)) == old(
                    self,
                ).spec_after_send(outcome, 0));
                Err(AnnounceError::Transport)
            },
            SendOutcome::Sent => {
                self.sent = self.sent.saturating_add(1);
                if self.count > 0 && self.sent >= self.count {
                    assert((*self, Ok::<Next, AnnounceError>(Next::Finished)) == old(
                        self,
                    ).spec_after_send(outcome, 0));
                    Ok(Next::Finished)
                } else {
                    let arm_watcher = self.watch_pending;
                    self.watch_pending = false;
                    let pause = jittered(self.interval, self.jitter);
                    let next = Next::Pause { arm_watcher, pause };
                    proof {
                        let draw = choose|draw: u64|
                            (self.jitter.millis > 0 ==> draw < self.jitter.millis) && pause
                                == #[trigger] spec_jittered(self.interval, self.jitter, draw);
                        assert((*self, Ok::<Next, AnnounceError>(next)) == old(
                            self,
                        ).spec_after_send(outcome, draw));
                    }
                    Ok(next)
                }
            },
        }
    }
}

/// An announcer that was asked for a number of frames finishes with the
/// frame that brings the count to that number, and with no frame before it.
pub proof fn law_count_ends_the_run(announcer: Announcer, draw: u64)
    requires
        announcer.count > 0,
        announcer.sent < announcer.count,
    ensures
        announcer.spec_after_send(SendOutcome::Sent, draw).1 == Ok::<Next, AnnounceError>(
            Next::Finished,
        ) <==> announcer.sent + 1 == announcer.count,
        announcer.spec_after_send(SendOutcome::Sent, draw).0.sent == announcer.sent + 1,
{
}

/// An announcer without a count never finishes.
pub proof fn law_no_count_no_end(announcer: Announcer, outcome: SendOutcome, draw: u64)
    requires
        announcer.count == 0,
    ensures
        announcer.spec_after_send(outcome, draw).1 != Ok::<Next, AnnounceError>(Next::Finished),
        announcer.spec_after_send(outcome, draw).0.count == 0,
{
}

/// The watcher is woken at most once: after a pause was taken, no later
/// pause wakes it again.
pub proof fn law_watcher_is_woken_once(
    announcer: Announcer,
    first: SendOutcome,
    second: SendOutcome,
    draw: u64,
    redraw: u64,
)
    requires
        announcer.spec_after_send(first, draw).1 is Ok,
        announcer.spec_after_send(first, draw).1 != Ok::<Next, AnnounceError>(Next::Finished),
    ensures
        announcer.spec_after_send(first, draw).0.spec_after_send(second, redraw).1 matches Ok(
            Next::Pause { arm_watcher, .. },
        ) ==> !arm_watcher,
{
}

/// The time between two frames is the interval where there is no jitter, and
/// else at least the interval and less than interval and jitter together.
pub proof fn law_pause_is_bounded(announcer: Announcer, draw: u64)
    requires
        announcer.schedulable(),
        announcer.jitter.millis > 0 ==> draw < announcer.jitter.millis,
    ensures
        announcer.spec_after_send(SendOutcome::Sent, draw).1 matches Ok(
            Next::Pause { pause, .. },
        ) ==> {
            &&& announcer.interval.millis <= pause.millis
            &&& announcer.jitter.millis == 0 ==> pause == announcer.interval
            &&& announcer.jitter.millis > 0 ==> pause.millis < announcer.interval.millis
                + announcer.jitter.millis
        },
{
}

impl AnnounceError {
    /// The error in words.
    pub open spec fn spec_message(self) -> Seq<char> {
        match self {
            AnnounceError::NothingSent => "unknown error sending packet"@,
            AnnounceError::Transport => "failed to send packet"@,
        }
    }

    /// The error in words.
    pub fn message(&self) -> (text: String)
        ensures
            text@ == self.spec_message(),
    {
        match self {
            AnnounceError::NothingSent => String::from_str("unknown error sending packet"),
            AnnounceError::Transport => String::from_str("failed to send packet"),
        }
    }
}

} // verus!
