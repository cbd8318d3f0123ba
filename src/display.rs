use vstd::prelude::*;
use crate::clock::{ClockAverager, ClockModel, WINDOW, pulse_step};
use crate::midi::{DecodeError, MidiMessage, decode};
use crate::text::{decimal, push_decimal, push_signed, signed_decimal};

verus! {

/// Escape sequences put around the parts of a line: the kind name is
/// written after `c_param`, its fields after `c_value`, and `c_normal` ends
/// the line.
#[derive(Clone, Copy)]
pub struct Colors {
    pub c_normal: &'static str,
    pub c_param: &'static str,
    pub c_value: &'static str,
}

impl Colors {
    /// No escape sequences.
    pub fn plain() -> (r: Colors)
        ensures
            r.c_normal@ == Seq::<char>::empty(),
            r.c_param@ == Seq::<char>::empty(),
            r.c_value@ == Seq::<char>::empty(),
    {
        proof {
            reveal_strlit("");
        }
        Colors { c_normal: "", c_param: "", c_value: "" }
    }

    /// ANSI terminal colors.
    pub fn terminal() -> (r: Colors)
        ensures
            r.c_normal@ == "\x1b[30m"@,
            r.c_param@ == "\x1b[32m"@,
            r.c_value@ == "\x1b[34m"@,
    {
        Colors { c_normal: "\x1b[30m", c_param: "\x1b[32m", c_value: "\x1b[34m" }
    }
}

/// The optional text of a line.
pub open spec fn text_of(o: Option<String>) -> Option<Seq<char>> {
    match o {
        Some(s) => Some(s@),
        None => None,
    }
}

/// The start of a line for a message without a channel.
pub open spec fn tp_prefix(c: Colors, timestamp: u64, port: usize) -> Seq<char> {
    decimal(timestamp as nat) + " Port "@ + decimal(port as nat) + " "@ + c.c_param@
}

/// The start of a line for a message on `channel` (0-based; shown 1-based).
pub open spec fn tpc_prefix(c: Colors, timestamp: u64, port: usize, channel: u8) -> Seq<char> {
    decimal(timestamp as nat) + " Port "@ + decimal(port as nat) + " Ch "@ + decimal(
        (channel + 1) as nat,
    ) + " "@ + c.c_param@
}

/// A tempo in tenths of a beat per minute, with a decimal only where the
/// tenths are not zero (`120`, `120.5`).
pub open spec fn tenths_text(b: u64) -> Seq<char> {
    if b % 10 == 0 {
        decimal((b / 10) as nat)
    } else {
        decimal((b / 10) as nat) + "."@ + decimal((b % 10) as nat)
    }
}

/// The line that reports a tempo change.
pub open spec fn tempo_line(timestamp: u64, b: u64) -> Seq<char> {
    decimal(timestamp as nat) + " BPM "@ + tenths_text(b)
}

/// The line shown for `m`, which is not a timing clock pulse. System
/// messages are shown only when `show_time` is set.
pub open spec fn event_line(
    c: Colors,
    show_time: bool,
    timestamp: u64,
    port: usize,
    m: MidiMessage,
) -> Option<Seq<char>> {
    match m {
        MidiMessage::NoteOn { channel, key, velocity } => Some(
            tpc_prefix(c, timestamp, port, channel) + "NoteOn "@ + c.c_value@ + "key="@ + decimal(
                key as nat,
            ) + " velocity="@ + decimal(velocity as nat) + c.c_normal@,
        ),
        MidiMessage::NoteOff { channel, key, velocity } => Some(
            tpc_prefix(c, timestamp, port, channel) + "NoteOff "@ + c.c_value@ + "key="@ + decimal(
                key as nat,
            ) + " velocity="@ + decimal(velocity as nat) + c.c_normal@,
        ),
        MidiMessage::KeyAT { channel, key, pressure } => Some(
            tpc_prefix(c, timestamp, port, channel) + "Aftertouch "@ + c.c_value@ + "key="@
                + decimal(key as nat) + " pressure="@ + decimal(pressure as nat) + c.c_normal@,
        ),
        MidiMessage::ControlChg { channel, controller, value } => Some(
            tpc_prefix(c, timestamp, port, channel) + "ControlChg "@ + c.c_value@ + "controller="@
                + decimal(controller as nat) + " value="@ + decimal(value as nat) + c.c_normal@,
        ),
        MidiMessage::ProgramChg { channel, program } => Some(
            tpc_prefix(c, timestamp, port, channel) + "ProgramChg "@ + c.c_value@ + "program="@
                + decimal(program as nat) + c.c_normal@,
        ),
        MidiMessage::ChannelAT { channel, pressure } => Some(
            tpc_prefix(c, timestamp, port, channel) + "ChannelAftertouch "@ + c.c_value@
                + "pressure="@ + decimal(pressure as nat) + c.c_normal@,
        ),
        MidiMessage::Pitchbend { channel, pitch } => Some(
            tpc_prefix(c, timestamp, port, channel) + "Pitchbend "@ + c.c_value@ + "pitch="@
                + signed_decimal(pitch as int) + c.c_normal@,
        ),
        MidiMessage::SongPos { position } => if show_time {
            Some(
                tp_prefix(c, timestamp, port) + "SongPosition "@ + c.c_value@ + "position="@
                    + decimal(position as nat) + c.c_normal@,
            )
        } else {
            None
        },
        MidiMessage::TimingClock => None,
        MidiMessage::Start => if show_time {
            Some(tp_prefix(c, timestamp, port) + "Start"@ + c.c_normal@)
        } else {
            None
        },
        MidiMessage::Continue => if show_time {
            Some(tp_prefix(c, timestamp, port) + "Continue"@ + c.c_normal@)
        } else {
            None
        },
        MidiMessage::Stop => if show_time {
            Some(tp_prefix(c, timestamp, port) + "Stop"@ + c.c_normal@)
        } else {
            None
        },
        MidiMessage::ActiveSensing => if show_time {
            Some(tp_prefix(c, timestamp, port) + "ActiveSensing"@ + c.c_normal@)
        } else {
            None
        },
        MidiMessage::Reset => if show_time {
            Some(tp_prefix(c, timestamp, port) + "Reset"@ + c.c_normal@)
        } else {
            None
        },
    }
}

/// The averager state after `m` is shown, and the line shown, if any. A
/// timing clock pulse is never shown itself: it goes to the averager, and
/// only a tempo change that it reports gives a line.
pub open spec fn show_step(
    c: Colors,
    show_time: bool,
    clock: ClockModel,
    timestamp: u64,
    port: usize,
    m: MidiMessage,
) -> (ClockModel, Option<Seq<char>>) {
    if m is TimingClock {
        if show_time {
            let (next, report) = pulse_step(clock, timestamp);
            (
                next,
                match report {
                    Some(b) => Some(tempo_line(timestamp, b)),
                    None => None,
                },
            )
        } else {
            (clock, None)
        }
    } else {
        (clock, event_line(c, show_time, timestamp, port, m))
    }
}

/// A timing clock pulse never gives a line of its own: at most the line of a
/// tempo change that the averager reports, which needs a full window.
pub proof fn lemma_pulse_shows_only_tempo(
    c: Colors,
    show_time: bool,
    clock: ClockModel,
    timestamp: u64,
    port: usize,
)
    ensures
        show_step(c, show_time, clock, timestamp, port, MidiMessage::TimingClock).1 is Some ==> (
        show_time && (pulse_step(clock, timestamp).1 matches Some(b) && show_step(
            c,
            show_time,
            clock,
            timestamp,
            port,
            MidiMessage::TimingClock,
        ).1 == Some(tempo_line(timestamp, b))) && pulse_step(clock, timestamp).0.window.len()
            == WINDOW),
{
}

/// Turns messages into lines of text, and tracks the tempo of the timing
/// clock pulses among them.
pub struct Display {
    colors: Colors,
    show_time: bool,
    clock: ClockAverager,
}

impl Display {
    pub closed spec fn wf(&self) -> bool {
        self.clock.wf()
    }

    pub closed spec fn colors(&self) -> Colors {
        self.colors
    }

    /// Whether system messages and tempo changes are shown.
    pub closed spec fn show_time(&self) -> bool {
        self.show_time
    }

    /// The state of the tempo averager.
    pub closed spec fn clock(&self) -> ClockModel {
        self.clock@
    }

    /// A presenter that has seen no timing clock pulse.
    pub fn new(colors: Colors, show_time: bool) -> (r: Self)
        ensures
            r.wf(),
            r.colors() == colors,
            r.show_time() == show_time,
            r.clock().last_clock == 0,
            r.clock().bpm == 0,
            r.clock().window == Seq::<u64>::empty(),
    {
        Display { colors, show_time, clock: ClockAverager::new() }
    }

    fn print_tpc(&self, timestamp: u64, port: usize, channel: u8) -> (s: String)
        ensures
            s@ == tpc_prefix(self.colors, timestamp, port, channel),
    {
        let mut s = String::new();
        push_decimal(&mut s, timestamp);
        assert(s@ =~= decimal(timestamp as nat));
        s.append(" Port ");
        push_decimal(&mut s, port as u64);
        s.append(" Ch ");
        push_decimal(&mut s, channel as u64 + 1);
        s.append(" ");
        s.append(self.colors.c_param);
        s
    }

    fn print_tp(&self, timestamp: u64, port: usize) -> (s: String)
        ensures
            s@ == tp_prefix(self.colors, timestamp, port),
    {
        let mut s = String::new();
        push_decimal(&mut s, timestamp);
        assert(s@ =~= decimal(timestamp as nat));
        s.append(" Port ");
        push_decimal(&mut s, port as u64);
        s.append(" ");
        s.append(self.colors.c_param);
        s
    }

    fn tempo_text(timestamp: u64, b: u64) -> (s: String)
        ensures
            s@ == tempo_line(timestamp, b),
    {
        let mut s = String::new();
        push_decimal(&mut s, timestamp);
        assert(s@ =~= decimal(timestamp as nat));
        s.append(" BPM ");
        push_decimal(&mut s, b / 10);
        if b % 10 != 0 {
            s.append(".");
            push_decimal(&mut s, b % 10);
        }
        s
    }

    fn system_line(&self, timestamp: u64, port: usize, name: &str) -> (s: String)
        ensures
            s@ == tp_prefix(self.colors, timestamp, port) + name@ + self.colors.c_normal@,
    {
        let mut s = self.print_tp(timestamp, port);
        s.append(name);
        s.append(self.colors.c_normal);
        s
    }

    /// The line for `m` received at `timestamp` on input `port`, if one is
    /// shown; a timing clock pulse updates the tempo averager instead.
    pub fn show_event(&mut self, timestamp: u64, port: usize, m: MidiMessage) -> (r: Option<
        String,
    >)
        requires
            old(self).wf(),
        ensures
            final(self).wf(),
            final(self).colors() == old(self).colors(),
            final(self).show_time() == old(self).show_time(),
            (final(self).clock(), text_of(r)) == show_step(
                old(self).colors(),
                old(self).show_time(),
                old(self).clock(),
                timestamp,
                port,
                m,
            ),
    {
        let c = self.colors;
        match m {
            MidiMessage::NoteOn { channel, key, velocity } => {
                let mut s = self.print_tpc(timestamp, port, channel);
                s.append("NoteOn ");
                s.append(c.c_value);
                s.append("key=");
                push_decimal(&mut s, key as u64);
                s.append(" velocity=");
                push_decimal(&mut s, velocity as u64);
                s.append(c.c_normal);
                Some(s)
            },
            MidiMessage::NoteOff { channel, key, velocity } => {
                let mut s = self.print_tpc(timestamp, port, channel);
                s.append("NoteOff ");
                s.append(c.c_value);
                s.append("key=");
                push_decimal(&mut s, key as u64);
                s.append(" velocity=");
                push_decimal(&mut s, velocity as u64);
                s.append(c.c_normal);
                Some(s)
            },
            MidiMessage::KeyAT { channel, key, pressure } => {
                let mut s = self.print_tpc(timestamp, port, channel);
                s.append("Aftertouch ");
                s.append(c.c_value);
                s.append("key=");
                push_decimal(&mut s, key as u64);
                s.append(" pressure=");
                push_decimal(&mut s, pressure as u64);
                s.append(c.c_normal);
                Some(s)
            },
            MidiMessage::ControlChg { channel, controller, value } => {
                let mut s = self.print_tpc(timestamp, port, channel);
                s.append("ControlChg ");
                s.append(c.c_value);
                s.append("controller=");
                push_decimal(&mut s, controller as u64);
                s.append(" value=");
                push_decimal(&mut s, value as u64);
                s.append(c.c_normal);
                Some(s)
            },
            MidiMessage::ProgramChg { channel, program } => {
                let mut s = self.print_tpc(timestamp, port, channel);
                s.append("ProgramChg ");
                s.append(c.c_value);
                s.append("program=");
                push_decimal(&mut s, program as u64);
                s.append(c.c_normal);
                Some(s)
            },
            MidiMessage::ChannelAT { channel, pressure } => {
                let mut s = self.print_tpc(timestamp, port, channel);
                s.append("ChannelAftertouch ");
                s.append(c.c_value);
                s.append("pressure=");
                push_decimal(&mut s, pressure as u64);
                s.append(c.c_normal);
                Some(s)
            },
            MidiMessage::Pitchbend { channel, pitch } => {
                let mut s = self.print_tpc(timestamp, port, channel);
                s.append("Pitchbend ");
                s.append(c.c_value);
                s.append("pitch=");
                push_signed(&mut s, pitch as i64);
                s.append(c.c_normal);
                Some(s)
            },
            MidiMessage::SongPos { position } => {
                if !self.show_time {
                    return None;
                }
                let mut s = self.print_tp(timestamp, port);
                s.append("SongPosition ");
                s.append(c.c_value);
                s.append("position=");
                push_decimal(&mut s, position as u64);
                s.append(c.c_normal);
                Some(s)
            },
            MidiMessage::TimingClock => {
                if !self.show_time {
                    return None;
                }
                match self.clock.pulse(timestamp) {
                    Some(b) => Some(Self::tempo_text(timestamp, b)),
                    None => None,
                }
            },
            MidiMessage::Start => {
                if !self.show_time {
                    return None;
                }
                Some(self.system_line(timestamp, port, "Start"))
            },
            MidiMessage::Continue => {
                if !self.show_time {
                    return None;
                }
                Some(self.system_line(timestamp, port, "Continue"))
            },
            MidiMessage::Stop => {
                if !self.show_time {
                    return None;
                }
                Some(self.system_line(timestamp, port, "Stop"))
            },
            MidiMessage::ActiveSensing => {
                if !self.show_time {
                    return None;
                }
                Some(self.system_line(timestamp, port, "ActiveSensing"))
            },
            MidiMessage::Reset => {
                if !self.show_time {
                    return None;
                }
                Some(self.system_line(timestamp, port, "Reset"))
            },
        }
    }

    /// Decodes `message` and returns its line as `show_event` does; bytes
    /// that do not decode give the decoding error and change nothing.
    pub fn show_message(&mut self, timestamp: u64, in_port: usize, message: &[u8]) -> (r: Result<
        Option<String>,
        DecodeError,
    >)
        requires
            old(self).wf(),
        ensures
            final(self).wf(),
            final(self).colors() == old(self).colors(),
            final(self).show_time() == old(self).show_time(),
            match decode(message@) {
                Err(e) => r == Err::<Option<String>, DecodeError>(e) && final(self).clock()
                    == old(self).clock(),
                Ok(m) => r matches Ok(line) && (final(self).clock(), text_of(line)) == show_step(
                    old(self).colors(),
                    old(self).show_time(),
                    old(self).clock(),
                    timestamp,
                    in_port,
                    m,
                ),
            },
    {
        match MidiMessage::parse(message) {
            Ok(m) => Ok(self.show_event(timestamp, in_port, m)),
            Err(e) => Err(e),
        }
    }
}

} // verus!
