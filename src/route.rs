use vstd::prelude::*;
use crate::clock::ClockModel;
use crate::display::{Colors, Display, show_step, text_of};
use crate::midi::{DecodeError, MidiMessage, decode};
use crate::text::{hex_byte, push_hex_byte};

verus! {

/// One route as configured: the input port, the input channel filter (0:
/// omni, else 1..=16), the output port if messages are forwarded, and the
/// output channel (0: keep the channel, else 1..=16).
#[derive(Debug, Clone, Copy, PartialEq, Eq, Structural)]
pub struct Config {
    pub in_port: usize,
    pub in_channel: u8,
    pub out_port: Option<usize>,
    pub out_channel: u8,
}

/// A rule that keeps some messages from being forwarded.
#[derive(Debug, Clone, Copy, PartialEq, Eq, Structural)]
pub enum ForwardFilter {
    /// Drops note-on messages whose key is at most `key`.
    NoteOnKeyAtMost { key: u8 },
}

/// What one message on a route gives: bytes to send on the output, a line to
/// show, and a line to append to the log.
pub struct RouteOutput {
    pub forward: Option<Vec<u8>>,
    pub display: Option<String>,
    pub log: Option<String>,
}

/// Whether the input channel filter `in_channel` lets through a message with
/// status byte `status`.
pub open spec fn accepts(in_channel: u8, status: u8) -> bool {
    in_channel == 0 || status % 16 == in_channel - 1
}

/// Whether forwarded messages get a new channel.
pub open spec fn remaps(in_channel: u8, out_channel: u8) -> bool {
    out_channel != 0 && out_channel != in_channel
}

/// The bytes forwarded for `m`: the status byte gets the output channel
/// where `remaps` holds, and the data bytes are kept.
pub open spec fn remapped(m: Seq<u8>, in_channel: u8, out_channel: u8) -> Seq<u8> {
    if remaps(in_channel, out_channel) {
        m.update(0, (m[0] & 0xF0) | ((out_channel - 1) as u8))
    } else {
        m
    }
}

pub open spec fn drops(f: ForwardFilter, m: MidiMessage) -> bool {
    match f {
        ForwardFilter::NoteOnKeyAtMost { key: k } => match m {
            MidiMessage::NoteOn { key, .. } => key <= k,
            _ => false,
        },
    }
}

/// Whether no filter of `fs` drops `m`.
pub open spec fn passes_filters(fs: Seq<ForwardFilter>, m: MidiMessage) -> bool {
    forall|i: int| 0 <= i < fs.len() ==> !drops(#[trigger] fs[i], m)
}

/// The log line for the bytes `m`: the bytes as two-digit hexadecimal pairs
/// separated by spaces; a one-byte message gives an empty line.
pub open spec fn log_text(m: Seq<u8>) -> Seq<char> {
    if m.len() == 3 {
        hex_byte(m[0]) + " "@ + hex_byte(m[1]) + " "@ + hex_byte(m[2])
    } else if m.len() == 2 {
        hex_byte(m[0]) + " "@ + hex_byte(m[1])
    } else {
        Seq::<char>::empty()
    }
}

/// The optional bytes of a forwarded message.
pub open spec fn bytes_of(o: Option<Vec<u8>>) -> Option<Seq<u8>> {
    match o {
        Some(v) => Some(v@),
        None => None,
    }
}

/// The filters that a route has unless told otherwise: the lowest pads of
/// some controllers send note-on messages on keys up to 10, and those are not
/// forwarded.
pub fn default_filters() -> (r: Vec<ForwardFilter>)
    ensures
        r@ == seq![ForwardFilter::NoteOnKeyAtMost { key: 10 }],
{
    let r = vec![ForwardFilter::NoteOnKeyAtMost { key: 10 }];
    assert(r@ =~= seq![ForwardFilter::NoteOnKeyAtMost { key: 10 }]);
    r
}

/// Whether `f` drops `m`.
pub fn filter_drops(f: &ForwardFilter, m: &MidiMessage) -> (r: bool)
    ensures
        r == drops(*f, *m),
{
    match *f {
        ForwardFilter::NoteOnKeyAtMost { key: k } => match *m {
            MidiMessage::NoteOn { key, .. } => key <= k,
            _ => false,
        },
    }
}

/// Whether `m` may be forwarded: no filter drops it.
pub fn passes(filters: &Vec<ForwardFilter>, m: &MidiMessage) -> (r: bool)
    ensures
        r == passes_filters(filters@, *m),
{
    let mut i: usize = 0;
    while i < filters.len()
        invariant
            0 <= i <= filters@.len(),
            forall|j: int| 0 <= j < i ==> !drops(#[trigger] filters@[j], *m),
        decreases filters@.len() - i,
    {
        if filter_drops(&filters[i], m) {
            return false;
        }
        i = i + 1;
    }
    true
}

/// The bytes to forward for `message`, with the channel of the status byte
/// set to `out_channel` where it is set and differs from `in_channel`.
pub fn remap(message: &[u8], in_channel: u8, out_channel: u8) -> (r: Vec<u8>)
    requires
        1 <= message@.len() <= 3,
        out_channel <= 16,
    ensures
        r@ == remapped(message@, in_channel, out_channel),
{
    let len = message.len();
    let status = if out_channel != 0 && out_channel != in_channel {
        (message[0] & 0xF0) | (out_channel - 1)
    } else {
        message[0]
    };
    let mut r: Vec<u8> = Vec::new();
    r.push(status);
    if len > 1 {
        r.push(message[1]);
    }
    if len > 2 {
        r.push(message[2]);
    }
    assert(r@ =~= remapped(message@, in_channel, out_channel));
    r
}

/// The log line for `message` (see `log_text`).
pub fn log_line(message: &[u8]) -> (r: String)
    ensures
        r@ == log_text(message@),
{
    let mut s = String::new();
    let len = message.len();
    if len == 2 || len == 3 {
        push_hex_byte(&mut s, message[0]);
        assert(s@ =~= hex_byte(message@[0]));
        s.append(" ");
        push_hex_byte(&mut s, message[1]);
        if len == 3 {
            s.append(" ");
            push_hex_byte(&mut s, message[2]);
        }
    } else {
        assert(s@ =~= Seq::<char>::empty());
    }
    s
}

/// The omni filter (0) lets every channel through; an exact filter `k` in
/// 1..=16 lets through channel `k - 1` alone, read from the low nibble of the
/// status byte.
pub proof fn lemma_channel_filter(k: u8, status: u8)
    requires
        k <= 16,
    ensures
        accepts(0, status),
        1 <= k ==> (accepts(k, status) <==> status & 0x0F == k - 1),
{
    assert(status & 0x0F == status % 16) by (bit_vector);
}

/// Remapping keeps the length and the data bytes, keeps the high nibble of
/// the status byte, and changes its low nibble (to the output channel) only
/// where the output channel is set and differs from the input channel.
pub proof fn lemma_remap_keeps_data(m: Seq<u8>, in_channel: u8, out_channel: u8)
    requires
        1 <= m.len() <= 3,
        out_channel <= 16,
    ensures
        remapped(m, in_channel, out_channel).len() == m.len(),
        forall|i: int| 1 <= i < m.len() ==> remapped(m, in_channel, out_channel)[i] == m[i],
        remapped(m, in_channel, out_channel)[0] & 0xF0 == m[0] & 0xF0,
        remapped(m, in_channel, out_channel)[0] & 0x0F == if remaps(in_channel, out_channel) {
            (out_channel - 1) as u8
        } else {
            m[0] & 0x0F
        },
        !remaps(in_channel, out_channel) ==> remapped(m, in_channel, out_channel) == m,
{
    let b = m[0];
    if remaps(in_channel, out_channel) {
        let c = (out_channel - 1) as u8;
        assert(c < 16);
        assert(c < 16 ==> ((b & 0xF0) | c) & 0xF0 == b & 0xF0) by (bit_vector);
        assert(c < 16 ==> ((b & 0xF0) | c) & 0x0F == c) by (bit_vector);
    }
}

/// Among the default filters, a note-on message on a key up to 10 is never
/// forwarded, whatever its channel.
pub proof fn lemma_low_notes_not_forwarded(fs: Seq<ForwardFilter>, channel: u8, key: u8, velocity: u8)
    requires
        fs.contains(ForwardFilter::NoteOnKeyAtMost { key: 10 }),
        key <= 10,
    ensures
        !passes_filters(fs, MidiMessage::NoteOn { channel, key, velocity }),
{
    let i = choose|i: int| 0 <= i < fs.len() && fs[i] == ForwardFilter::NoteOnKeyAtMost { key: 10 };
    assert(drops(fs[i], MidiMessage::NoteOn { channel, key, velocity }));
}

/// One route at work: its configuration, what it does with each message,
/// and the presenter that keeps its tempo state.
pub struct Route {
    config: Config,
    monitor: bool,
    logging: bool,
    filters: Vec<ForwardFilter>,
    display: Display,
}

impl Route {
    pub closed spec fn wf(&self) -> bool {
        &&& self.display.wf()
        &&& self.config.in_channel <= 16
        &&& self.config.out_channel <= 16
    }

    pub closed spec fn config(&self) -> Config {
        self.config
    }

    /// Whether each message gives a line to show.
    pub closed spec fn monitor(&self) -> bool {
        self.monitor
    }

    /// Whether each message gives a log line.
    pub closed spec fn logging(&self) -> bool {
        self.logging
    }

    pub closed spec fn filters(&self) -> Seq<ForwardFilter> {
        self.filters@
    }

    pub closed spec fn colors(&self) -> Colors {
        self.display.colors()
    }

    pub closed spec fn show_time(&self) -> bool {
        self.display.show_time()
    }

    /// The tempo state of the route's presenter.
    pub closed spec fn clock(&self) -> ClockModel {
        self.display.clock()
    }

    /// Whether messages are forwarded.
    pub open spec fn forwarding(&self) -> bool {
        self.config().out_port is Some
    }

    /// A route with the configuration `config` that forwards what passes
    /// `filters`.
    pub fn new(
        config: Config,
        monitor: bool,
        logging: bool,
        colors: Colors,
        show_time: bool,
        filters: Vec<ForwardFilter>,
    ) -> (r: Self)
        requires
            config.in_channel <= 16,
            config.out_channel <= 16,
        ensures
            r.wf(),
            r.config() == config,
            r.monitor() == monitor,
            r.logging() == logging,
            r.filters() == filters@,
            r.colors() == colors,
            r.show_time() == show_time,
            r.clock().last_clock == 0,
            r.clock().bpm == 0,
            r.clock().window == Seq::<u64>::empty(),
    {
        Route { config, monitor, logging, filters, display: Display::new(colors, show_time) }
    }

    /// Handles one message received at `timestamp`. A message on a channel
    /// that the input filter does not let through gives nothing; one that
    /// does not decode gives the decoding error. Otherwise it is forwarded
    /// (where the route forwards and the filters let it), shown (where the
    /// route monitors) and logged (where the route logs), each independently.
    pub fn process(&mut self, timestamp: u64, message: &[u8]) -> (r: Result<
        RouteOutput,
        DecodeError,
    >)
        requires
            old(self).wf(),
        ensures
            final(self).wf(),
            final(self).config() == old(self).config(),
            final(self).monitor() == old(self).monitor(),
            final(self).logging() == old(self).logging(),
            final(self).filters() == old(self).filters(),
            final(self).colors() == old(self).colors(),
            final(self).show_time() == old(self).show_time(),
            1 <= message@.len() <= 3 && !accepts(old(self).config().in_channel, message@[0])
                ==> (r matches Ok(o) && o.forward is None && o.display is None && o.log is None
                && final(self).clock() == old(self).clock()),
            !(1 <= message@.len() <= 3 && !accepts(old(self).config().in_channel, message@[0]))
                ==> match decode(message@) {
                Err(e) => r == Err::<RouteOutput, DecodeError>(e) && final(self).clock() == old(
                    self,
                ).clock(),
                Ok(m) => r matches Ok(o) && bytes_of(o.forward) == (if old(self).forwarding()
                    && passes_filters(old(self).filters(), m) {
                    Some(
                        remapped(
                            message@,
                            old(self).config().in_channel,
                            old(self).config().out_channel,
                        ),
                    )
                } else {
                    None::<Seq<u8>>
                }) && (if old(self).monitor() {
                    (final(self).clock(), text_of(o.display)) == show_step(
                        old(self).colors(),
                        old(self).show_time(),
                        old(self).clock(),
                        timestamp,
                        old(self).config().in_port,
                        m,
                    )
                } else {
                    o.display is None && final(self).clock() == old(self).clock()
                }) && text_of(o.log) == (if old(self).logging() {
                    Some(log_text(message@))
                } else {
                    None::<Seq<char>>
                }),
            },
    {
        let len = message.len();
        if 1 <= len && len <= 3 {
            proof {
                let b = message@[0];
                assert(b & 0x0F == b % 16) by (bit_vector);
            }
            let in_channel = self.config.in_channel;
            if in_channel > 0 && (message[0] & 0x0F) != in_channel - 1 {
                // Not listening on this channel.
                return Ok(RouteOutput { forward: None, display: None, log: None });
            }
        }
        let m = match MidiMessage::parse(message) {
            Ok(m) => m,
            Err(e) => {
                return Err(e);
            },
        };
        let forward = if self.config.out_port.is_some() && passes(&self.filters, &m) {
            Some(remap(message, self.config.in_channel, self.config.out_channel))
        } else {
            None
        };
        let display = if self.monitor {
            self.display.show_event(timestamp, self.config.in_port, m)
        } else {
            None
        };
        let log = if self.logging {
            Some(log_line(message))
        } else {
            None
        };
        Ok(RouteOutput { forward, display, log })
    }
}

} // verus!
