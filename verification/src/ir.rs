//! Infrared command reception.
//!
//! Edge events on the command pin are timestamped with the monotonic clock
//! and fed to an external NEC protocol decoder; a successfully decoded
//! command lands in a single-slot mailbox, overwriting any unconsumed
//! predecessor. Fetching takes and clears the slot. The mailbox never
//! blocks and never buffers more than one pending command: a remote faster
//! than the main loop's poll rate loses intermediate repeats, by design.

use vstd::prelude::*;

verus! {

pub const LEFT: u8 = 0x8;

pub const RIGHT: u8 = 0x5A;

pub const UP: u8 = 0x52;

pub const DOWN: u8 = 0x18;

pub const OK: u8 = 0x1C;

pub const CMD1: u8 = 0x45;

pub const CMD2: u8 = 0x46;

pub const CMD3: u8 = 0x47;

pub const CMD4: u8 = 0x44;

pub const CMD5: u8 = 0x40;

pub const CMD6: u8 = 0x43;

pub const CMD7: u8 = 0x7;

pub const CMD8: u8 = 0x15;

pub const CMD9: u8 = 0x9;

pub const CMD0: u8 = 0x19;

pub const STAR: u8 = 0x16;

pub const HASHTAG: u8 = 0xD;

/// Tick rate the protocol decoder is told to expect, in Hz: half the
/// clock's native rate, so timestamps are halved before they are fed in.
pub const RECEIVER_FREQ: u32 = 20_000;

/// One decoded remote command: the remote's address, the key code, and
/// whether this frame was an auto-repeat of a held key.
#[derive(Clone, Copy, Debug, PartialEq, Eq, Structural)]
pub struct DecodedCommand {
    pub addr: u8,
    pub cmd: u8,
    pub repeat: bool,
}

/// Relies on infrared's `Receiver` type: the event-based decoder for the
/// standard NEC remote, fed timestamps directly rather than reading a pin.
/// Held opaquely; only the two wrappers below touch it.
#[verifier::external_body]
pub struct NecReceiver {
    inner: infrared::Receiver<
        infrared::protocol::Nec,
        infrared::receiver::NoPin,
        u32,
        infrared::protocol::nec::NecCommand,
    >,
}

/// Relies on infrared's `Receiver::new`: a fresh event-based NEC decoder
/// for a clock of the given resolution.
#[verifier::external_body]
fn receiver_new(freq: u32) -> NecReceiver {
    NecReceiver { inner: infrared::Receiver::new(freq) }
}

/// The decoder, the single-slot mailbox it fills, and — as specification
/// state — the log of edge events that have been fed to the decoder.
pub struct CommandReceiver {
    pub receiver: NecReceiver,
    pub mailbox: Option<DecodedCommand>,
    pub fed: Ghost<Seq<(u32, bool)>>,
}

/// Relies on infrared's `Receiver::event_instant`: one timestamped edge
/// advances the decoder's state machine, which yields a command when a
/// frame completes. A malformed frame is expected noise and reads as no
/// command, as does an incomplete one. The contract records the fed event
/// in the log and leaves the mailbox alone; what came back is for the
/// caller to deliver.
#[verifier::external_body]
fn receiver_event(rx: &mut CommandReceiver, t: u32, pin_low: bool) -> (r: Option<DecodedCommand>)
    ensures
        final(rx).fed@ == old(rx).fed@.push((t, pin_low)),
        final(rx).mailbox == old(rx).mailbox,
{
    match rx.receiver.inner.event_instant(t, pin_low) {
        Ok(Some(c)) => Some(DecodedCommand { addr: c.addr, cmd: c.cmd, repeat: c.repeat }),
        Ok(None) => None,
        Err(_) => None,
    }
}

/// A fresh receiver with an empty mailbox and an empty event log,
/// expecting timestamps at half the clock's native rate.
pub fn init_receiver() -> (r: CommandReceiver)
    ensures
        r.mailbox is None,
        r.fed@ == Seq::<(u32, bool)>::empty(),
{
    CommandReceiver {
        receiver: receiver_new(RECEIVER_FREQ),
        mailbox: None,
        fed: Ghost(Seq::empty()),
    }
}

impl CommandReceiver {
    /// Put a decode's outcome into the mailbox: a command overwrites any
    /// unconsumed predecessor, no command leaves the slot as it is. The
    /// decoder and its event log are untouched.
    pub fn store_decoded(&mut self, decoded: Option<DecodedCommand>)
        ensures
            final(self).mailbox == if decoded is Some {
                decoded
            } else {
                old(self).mailbox
            },
            final(self).receiver == old(self).receiver,
            final(self).fed == old(self).fed,
    {
        if decoded.is_some() {
            self.mailbox = decoded;
        }
    }

    /// The command pin changed level: halve the clock reading to the
    /// decoder's expected rate, feed exactly that one edge to the decoder
    /// — the log grows by the halved timestamp with the pin level, and by
    /// nothing else — and deliver whatever it decoded. The mailbox either
    /// keeps its value or holds a freshly decoded command afterwards.
    pub fn pin_change(&mut self, now: u32, pin_low: bool)
        ensures
            final(self).fed@ == old(self).fed@.push(((now >> 1), pin_low)),
            final(self).mailbox == old(self).mailbox || final(self).mailbox is Some,
    {
        let t: u32 = now >> 1;
        let decoded: Option<DecodedCommand> = receiver_event(self, t, pin_low);
        self.store_decoded(decoded);
    }

    /// Atomically take and clear the mailbox: the pending command, if any,
    /// is consumed at most once. The decoder and its event log are
    /// untouched.
    pub fn fetch_message(&mut self) -> (r: Option<DecodedCommand>)
        ensures
            r == old(self).mailbox,
            final(self).mailbox is None,
            final(self).receiver == old(self).receiver,
            final(self).fed == old(self).fed,
    {
        let r: Option<DecodedCommand> = self.mailbox;
        self.mailbox = None;
        r
    }
}

} // verus!
