//! The two channels between the protocol engine and the broker loop.
//!
//! Heights flow outward through a one-slot, overwrite-on-send,
//! observed-on-change channel: a receiver that checks after a burst of
//! updates sees only the latest value and one change notification per
//! transition, not one per send.  Commands flow inward through a
//! channel bounded to depth two: a slow consumer loses the oldest
//! unread commands and observes only the most recent ones once it
//! resumes.  Only the storage and cursor rules live here; the waiting
//! and waking around them is the surrounding runtime's business.

use vstd::prelude::*;

use crate::mqtt::Command;

verus! {

/// One-slot latest-height channel.  `version` counts transitions; a
/// receiver holds the version it last saw.
pub struct HeightChannel {
    /// The latest height sent, in tenths; `None` before the first send.
    pub value: Option<u16>,
    /// Number of transitions so far.
    pub version: u64,
}

/// A height value `v` sent into channel state `c`: the slot is
/// overwritten and the transition counter advances, except that a
/// value equal to the one already held changes nothing — repeats are
/// not transitions.
pub open spec fn spec_send_height(c: HeightChannel, v: u16) -> HeightChannel {
    if c.value == Some(v) {
        c
    } else {
        HeightChannel { value: Some(v), version: (c.version + 1) as u64 }
    }
}

impl HeightChannel {
    /// An empty channel: no height yet, no transition seen.
    pub fn new() -> (r: Self)
        ensures
            r.value is None,
            r.version == 0,
    {
        HeightChannel { value: None, version: 0 }
    }

    /// Publish the latest decoded height, in tenths, overwriting
    /// whatever an earlier send left in the slot.
    pub fn set_height(&mut self, tenths: u16)
        requires
            old(self).version < u64::MAX,
        ensures
            *final(self) == spec_send_height(*old(self), tenths),
            final(self).value == Some(tenths),
    {
        if self.value != Some(tenths) {
            self.value = Some(tenths);
            self.version = self.version + 1;
        }
    }
}

/// A receiver's cursor into a [`HeightChannel`].
pub struct HeightReceiver {
    /// The channel version this receiver has caught up to.
    pub seen: u64,
}

impl HeightReceiver {
    /// A receiver that has seen everything the channel holds now.
    pub fn new(ch: &HeightChannel) -> (r: Self)
        ensures
            r.seen == ch.version,
    {
        HeightReceiver { seen: ch.version }
    }

    /// Whether a transition happened since this receiver last looked.
    pub fn changed(&self, ch: &HeightChannel) -> (r: bool)
        ensures
            r <==> self.seen != ch.version,
    {
        self.seen != ch.version
    }

    /// Read the latest value and mark everything seen: however many
    /// transitions passed, one read observes only the latest value.
    pub fn borrow_and_update(&mut self, ch: &HeightChannel) -> (r: Option<u16>)
        ensures
            r == ch.value,
            final(self).seen == ch.version,
    {
        self.seen = ch.version;
        ch.value
    }
}

/// Latest-only law: a burst of sends — a value, the same value again,
/// then a different one — leaves the channel holding the last value
/// and moves the version by exactly two (the repeat is no transition).
/// A receiver that was caught up before the burst and polls once
/// afterwards observes exactly one change, to the last value.
pub proof fn lemma_height_latest_only(c: HeightChannel, a: u16, b: u16)
    requires
        a != b,
        c.version + 2 <= u64::MAX,
    ensures
        ({
            let c3 = spec_send_height(spec_send_height(spec_send_height(c, a), a), b);
            &&& c3.value == Some(b)
            &&& c3.version == if c.value == Some(a) {
                c.version + 1
            } else {
                c.version + 2
            }
            &&& c3.version != c.version
        }),
        spec_send_height(spec_send_height(c, a), a) == spec_send_height(c, a),
{
}

/// Bounded command channel: holds at most the two most recently sent
/// commands; `total` counts all sends ever made.
pub struct CommandChannel {
    /// The retained commands, oldest first.
    pub buf: Vec<Command>,
    /// Number of commands ever sent.
    pub total: u64,
}

/// The channel retains the two most recent commands, or every command
/// while fewer than two were ever sent.
pub open spec fn command_channel_wf(c: CommandChannel) -> bool {
    c.buf@.len() == if c.total < 2 {
        c.total
    } else {
        2
    }
}

impl CommandChannel {
    /// An empty channel.
    pub fn new() -> (r: Self)
        ensures
            r.buf@ =~= Seq::<Command>::empty(),
            r.total == 0,
            command_channel_wf(r),
    {
        CommandChannel { buf: Vec::new(), total: 0 }
    }

    /// Send a command.  With the channel full, the oldest retained
    /// command is dropped: only the latest vacancies are kept.
    pub fn send(&mut self, cmd: Command)
        requires
            command_channel_wf(*old(self)),
            old(self).total < u64::MAX,
        ensures
            command_channel_wf(*final(self)),
            final(self).total == old(self).total + 1,
            final(self).buf@ =~= (if old(self).buf@.len() < 2 {
                old(self).buf@.push(cmd)
            } else {
                old(self).buf@.skip(1).push(cmd)
            }),
    {
        if self.buf.len() >= 2 {
            self.buf.remove(0);
        }
        self.buf.push(cmd);
        self.total = self.total + 1;
    }
}

/// A receiver's cursor into a [`CommandChannel`]: the index (counted
/// over all sends ever) of the next command it wants.
pub struct CommandReceiver {
    /// Index of the next command to read.
    pub next: u64,
}

impl CommandReceiver {
    /// A receiver that starts at the channel's current end: it will
    /// only observe commands sent after this point.
    pub fn new(ch: &CommandChannel) -> (r: Self)
        ensures
            r.next == ch.total,
    {
        CommandReceiver { next: ch.total }
    }

    /// Read the next unread command, if any.  A receiver that fell
    /// more than two sends behind lost the overwritten commands and
    /// resumes at the oldest retained one.
    pub fn recv(&mut self, ch: &CommandChannel) -> (r: Option<Command>)
        requires
            command_channel_wf(*ch),
            old(self).next <= ch.total,
        ensures
            final(self).next <= ch.total,
            old(self).next == ch.total ==> r is None && *final(self) == *old(self),
            old(self).next < ch.total ==> {
                let base = ch.total - ch.buf@.len();
                let pos = if old(self).next >= base {
                    old(self).next as int
                } else {
                    base
                };
                &&& r == Some(ch.buf@[pos - base])
                &&& final(self).next == pos + 1
            },
    {
        if self.next == ch.total {
            None
        } else {
            let base = ch.total - ch.buf.len() as u64;
            let pos = if self.next >= base {
                self.next
            } else {
                base
            };
            let idx = (pos - base) as usize;
            let cmd = ch.buf[idx];
            self.next = pos + 1;
            Some(cmd)
        }
    }
}

/// The one-slot relay that carries "successfully connected" from the
/// broker event pump to the request issuer.  Raising it never blocks
/// and never stacks: however many connects are signalled before the
/// issuer looks, it sees one signal.
pub struct SignalSlot {
    /// Whether a signal is waiting to be consumed.
    pub pending: bool,
}

impl SignalSlot {
    /// An empty slot.
    pub fn new() -> (r: Self)
        ensures
            !r.pending,
    {
        SignalSlot { pending: false }
    }

    /// Raise the signal; a signal already waiting is simply kept.
    pub fn raise(&mut self)
        ensures
            final(self).pending,
    {
        self.pending = true;
    }

    /// Consume the waiting signal, if any.
    pub fn consume(&mut self) -> (r: bool)
        ensures
            r == old(self).pending,
            !final(self).pending,
    {
        let r = self.pending;
        self.pending = false;
        r
    }
}

/// The commands a channel retains after one more send.
pub open spec fn spec_send_command(s: Seq<Command>, cmd: Command) -> Seq<Command> {
    if s.len() < 2 {
        s.push(cmd)
    } else {
        s.skip(1).push(cmd)
    }
}

/// Bounded-depth law: three commands sent into an empty channel with
/// no reader draining in between leave exactly the two most recent
/// retained, in order — the first command is gone and nothing grew
/// past the bound.
pub proof fn lemma_command_channel_bound(c1: Command, c2: Command, c3: Command)
    ensures
        ({
            let s = spec_send_command(
                spec_send_command(spec_send_command(Seq::<Command>::empty(), c1), c2),
                c3,
            );
            &&& s =~= seq![c2, c3]
            &&& s.len() == 2
        }),
{
}

} // verus!
