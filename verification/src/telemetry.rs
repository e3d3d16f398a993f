//! Live figures about the audio that arrives from the browser.
//!
//! The two floating-point figures are computed by the caller: the level of a
//! frame comes in as a number from 0 to 100, the jitter as the bit pattern of a
//! 64-bit float.

use vstd::prelude::*;

verus! {

/// The sample rate that browsers send.
pub const WEB_SAMPLE_RATE: u32 = 48000;

/// The highest audio level.
pub const MAX_AUDIO_LEVEL: u32 = 100;

/// The figures as they are shown.
#[derive(Clone, Copy, Debug, PartialEq, Eq, Structural)]
pub struct WebTelemetrySnapshot {
    pub audio_level: u32,
    pub bitrate: u32,
    pub sample_rate: u32,
    /// The smoothed arrival jitter in milliseconds, as float bits.
    pub jitter_bits: u64,
    pub packet_count: u64,
    pub bytes_received: u64,
}

/// The figures and what is needed to bring them forward.
#[derive(Clone, Copy, Debug, PartialEq, Eq, Structural)]
pub struct WebTelemetry {
    pub audio_level: u32,
    pub bitrate: u32,
    pub sample_rate: u32,
    /// The smoothed arrival jitter in milliseconds, as float bits.
    pub jitter_bits: u64,
    pub packet_count: u64,
    pub bytes_received: u64,
    /// When the last frame with samples came, 0 if none came yet.
    pub last_arrival_ms: u64,
    /// When the current bitrate window began, 0 if none has.
    pub rate_window_start_ms: u64,
    pub rate_window_bytes: u64,
}

/// The gap that a frame leaves to the one before it.
#[derive(Clone, Copy, Debug, PartialEq, Eq, Structural)]
pub struct Arrival {
    /// Milliseconds since the frame before.
    pub observed_ms: u64,
    /// How many samples the frame holds.
    pub samples: usize,
}

/// The sum of a running counter and an increment, starting over past the limit.
pub open spec fn counted(counter: u64, increment: nat) -> nat {
    (counter + increment) as nat % 0x1_0000_0000_0000_0000
}

/// Milliseconds from `earlier` to `later`, none if the clock went back.
pub open spec fn gap(earlier: u64, later: u64) -> u64 {
    if later > earlier {
        (later - earlier) as u64
    } else {
        0
    }
}

/// Bits per second for `bytes` in `elapsed_ms`, held to what the figure's
/// range shows.
pub open spec fn bits_per_second(bytes: nat, elapsed_ms: u64) -> int {
    let bits = if bytes * 8000 < u64::MAX {
        bytes * 8000
    } else {
        u64::MAX as nat
    };
    let rate = bits as int / elapsed_ms as int;
    if rate < u32::MAX {
        rate
    } else {
        u32::MAX as int
    }
}

/// The figures of a server that has received nothing.
pub open spec fn empty_telemetry() -> WebTelemetry {
    WebTelemetry {
        audio_level: 0,
        bitrate: 0,
        sample_rate: 0,
        jitter_bits: 0,
        packet_count: 0,
        bytes_received: 0,
        last_arrival_ms: 0,
        rate_window_start_ms: 0,
        rate_window_bytes: 0,
    }
}

impl WebTelemetry {
    /// When the bitrate window that a frame at `now` falls into began.
    pub open spec fn window_start(self, now: u64) -> u64 {
        if self.rate_window_start_ms == 0 {
            now
        } else {
            self.rate_window_start_ms
        }
    }

    /// Whether a frame at `now` completes its bitrate window of one second.
    pub open spec fn window_complete(self, now: u64) -> bool {
        gap(self.window_start(now), now) >= 1000
    }

    /// The figures after a frame of `length` bytes at `now` with the audio level
    /// `level`. Totals count every frame; the level and the time of arrival are
    /// those of the last frame with samples; the bitrate is that of the last
    /// complete window.
    pub open spec fn recorded(self, length: usize, now: u64, level: u32) -> WebTelemetry {
        let bytes = counted(self.rate_window_bytes, length as nat);
        let complete = self.window_complete(now);
        WebTelemetry {
            audio_level: if length >= 4 {
                level
            } else {
                self.audio_level
            },
            bitrate: if complete {
                bits_per_second(bytes, gap(self.window_start(now), now)) as u32
            } else {
                self.bitrate
            },
            sample_rate: WEB_SAMPLE_RATE,
            jitter_bits: self.jitter_bits,
            packet_count: counted(self.packet_count, 1) as u64,
            bytes_received: counted(self.bytes_received, length as nat) as u64,
            last_arrival_ms: if length >= 4 {
                now
            } else {
                self.last_arrival_ms
            },
            rate_window_start_ms: if complete {
                now
            } else {
                self.window_start(now)
            },
            rate_window_bytes: if complete {
                0
            } else {
                bytes as u64
            },
        }
    }

    /// The gap that a frame of `length` bytes at `now` leaves to the frame
    /// before, if both hold samples.
    pub open spec fn arrival(self, length: usize, now: u64) -> Option<Arrival> {
        if length >= 4 && self.last_arrival_ms > 0 {
            Some(
                Arrival {
                    observed_ms: gap(self.last_arrival_ms, now),
                    samples: (length / 4) as usize,
                },
            )
        } else {
            None
        }
    }

    /// The figures with those of a stream under way cleared. Totals, the sample
    /// rate and the jitter stay.
    pub open spec fn cleared(self) -> WebTelemetry {
        WebTelemetry {
            audio_level: 0,
            bitrate: 0,
            last_arrival_ms: 0,
            rate_window_bytes: 0,
            rate_window_start_ms: 0,
            ..self
        }
    }

    /// Figures of a server that has received nothing.
    pub fn new() -> (telemetry: Self)
        ensures
            telemetry == empty_telemetry(),
    {
        WebTelemetry {
            audio_level: 0,
            bitrate: 0,
            sample_rate: 0,
            jitter_bits: 0,
            packet_count: 0,
            bytes_received: 0,
            last_arrival_ms: 0,
            rate_window_start_ms: 0,
            rate_window_bytes: 0,
        }
    }

    /// Counts a frame of `length` bytes that arrived at `now` milliseconds and
    /// has the audio level `level`.
    ///
    /// Gives the gap to the frame before, from which the jitter is brought
    /// forward, if both frames hold samples.
    pub fn record_packet(&mut self, length: usize, now: u64, level: u32) -> (arrival: Option<
        Arrival,
    >)
        ensures
            *final(self) == old(self).recorded(length, now, level),
            arrival == old(self).arrival(length, now),
    {
        let size: u64 = length as u64;
        let samples: usize = length / 4;
        self.sample_rate = WEB_SAMPLE_RATE;
        self.packet_count = self.packet_count.wrapping_add(1);
        self.bytes_received = self.bytes_received.wrapping_add(size);
        let mut arrival: Option<Arrival> = None;
        if samples > 0 {
            self.audio_level = level;
            let previous: u64 = self.last_arrival_ms;
            self.last_arrival_ms = now;
            if previous > 0 {
                arrival = Some(Arrival { observed_ms: now.saturating_sub(previous), samples });
            }
        }
        if self.rate_window_start_ms == 0 {
            self.rate_window_start_ms = now;
        }
        self.rate_window_bytes = self.rate_window_bytes.wrapping_add(size);
        let elapsed: u64 = now.saturating_sub(self.rate_window_start_ms);
        if elapsed >= 1000 {
            self.bitrate = rate_figure(self.rate_window_bytes, elapsed);
            self.rate_window_bytes = 0;
            self.rate_window_start_ms = now;
        }
        arrival
    }

    /// Takes over the jitter that the last frame's gap led to.
    pub fn set_jitter(&mut self, jitter_bits: u64)
        ensures
            *final(self) == (WebTelemetry { jitter_bits, ..*old(self) }),
    {
        self.jitter_bits = jitter_bits;
    }

    /// Clears the figures that describe a stream under way.
    pub fn reset_live(&mut self)
        ensures
            *final(self) == old(self).cleared(),
    {
        self.audio_level = 0;
        self.bitrate = 0;
        self.last_arrival_ms = 0;
        self.rate_window_bytes = 0;
        self.rate_window_start_ms = 0;
    }

    /// The figures to show.
    pub fn snapshot(&self) -> (shown: WebTelemetrySnapshot)
        ensures
            shown == self.shown(),
    {
        WebTelemetrySnapshot {
            audio_level: self.audio_level,
            bitrate: self.bitrate,
            sample_rate: self.sample_rate,
            jitter_bits: self.jitter_bits,
            packet_count: self.packet_count,
            bytes_received: self.bytes_received,
        }
    }

    /// The figures to show.
    pub open spec fn shown(self) -> WebTelemetrySnapshot {
        WebTelemetrySnapshot {
            audio_level: self.audio_level,
            bitrate: self.bitrate,
            sample_rate: self.sample_rate,
            jitter_bits: self.jitter_bits,
            packet_count: self.packet_count,
            bytes_received: self.bytes_received,
        }
    }
}

/// A stream starts afresh after a pause: the first frame after the live figures
/// were cleared measures no gap, opens its own bitrate window and shows no
/// bitrate, while the totals go on.
pub proof fn cleared_stream_starts_afresh(
    telemetry: WebTelemetry,
    length: usize,
    now: u64,
    level: u32,
)
    ensures
        telemetry.cleared().arrival(length, now) is None,
        telemetry.cleared().recorded(length, now, level).bitrate == 0,
        telemetry.cleared().recorded(length, now, level).rate_window_start_ms == now,
        telemetry.cleared().recorded(length, now, level).packet_count == telemetry.recorded(
            length,
            now,
            level,
        ).packet_count,
        telemetry.cleared().recorded(length, now, level).bytes_received == telemetry.recorded(
            length,
            now,
            level,
        ).bytes_received,
{
}

/// The level stays within its range: figures that start out empty, and take in
/// levels within the range only, never show another.
pub proof fn level_stays_in_range(telemetry: WebTelemetry, length: usize, now: u64, level: u32)
    requires
        telemetry.audio_level <= MAX_AUDIO_LEVEL,
        level <= MAX_AUDIO_LEVEL,
    ensures
        empty_telemetry().audio_level <= MAX_AUDIO_LEVEL,
        telemetry.recorded(length, now, level).audio_level <= MAX_AUDIO_LEVEL,
        telemetry.cleared().audio_level <= MAX_AUDIO_LEVEL,
        telemetry.shown().audio_level <= MAX_AUDIO_LEVEL,
{
}

/// Within a bitrate window the figure shown does not move.
pub proof fn bitrate_is_steady_within_window(
    telemetry: WebTelemetry,
    length: usize,
    now: u64,
    level: u32,
)
    requires
        gap(telemetry.window_start(now), now) < 1000,
    ensures
        telemetry.recorded(length, now, level).bitrate == telemetry.bitrate,
        telemetry.recorded(length, now, level).rate_window_start_ms == telemetry.window_start(now),
{
}

/// The bitrate figure of a window.
fn rate_figure(bytes: u64, elapsed_ms: u64) -> (rate: u32)
    requires
        elapsed_ms > 0,
    ensures
        rate == bits_per_second(bytes as nat, elapsed_ms),
{
    let scaled: u128 = bytes as u128 * 8000;
    let bits: u64 = if scaled < u64::MAX as u128 {
        scaled as u64
    } else {
        u64::MAX
    };
    let rate: u64 = bits / elapsed_ms;
    if rate < u32::MAX as u64 {
        rate as u32
    } else {
        u32::MAX
    }
}

/// A frame counts once and with all its bytes, and leaves the jitter alone; the
/// level and the time of arrival are its own if it holds a sample, otherwise they
/// stay.
pub proof fn frame_is_counted(telemetry: WebTelemetry, length: usize, now: u64, level: u32)
    requires
        telemetry.packet_count < u64::MAX,
        telemetry.bytes_received + length <= u64::MAX,
    ensures
        ({
            let after = telemetry.recorded(length, now, level);
            &&& after.packet_count == telemetry.packet_count + 1
            &&& after.bytes_received == telemetry.bytes_received + length
            &&& after.jitter_bits == telemetry.jitter_bits
            &&& after.sample_rate == 48000
            &&& length >= 4 ==> after.audio_level == level && after.last_arrival_ms == now
            &&& length < 4 ==> after.audio_level == telemetry.audio_level && after.last_arrival_ms
                == telemetry.last_arrival_ms
        }),
{
}

/// The bitrate of a window of at least one second is its bits over its time: no
/// larger whole figure fits, none at all beyond the range.
pub proof fn bitrate_is_bits_over_time(telemetry: WebTelemetry, length: usize, now: u64, level: u32)
    requires
        telemetry.rate_window_start_ms > 0,
        now >= telemetry.rate_window_start_ms + 1000,
        (telemetry.rate_window_bytes + length) * 8000 < u64::MAX,
    ensures
        ({
            let after = telemetry.recorded(length, now, level);
            let elapsed = now - telemetry.rate_window_start_ms;
            let millibits = (telemetry.rate_window_bytes + length) * 8000;
            &&& after.bitrate * elapsed <= millibits
            &&& after.bitrate < u32::MAX ==> millibits < (after.bitrate + 1) * elapsed
            &&& after.rate_window_start_ms == now
            &&& after.rate_window_bytes == 0
        }),
{
    let bytes: int = telemetry.rate_window_bytes + length;
    let elapsed: int = now - telemetry.rate_window_start_ms;
    let millibits: int = bytes * 8000;
    let rate: int = millibits / elapsed;
    vstd::arithmetic::div_mod::lemma_fundamental_div_mod(millibits, elapsed);
    vstd::arithmetic::div_mod::lemma_mod_bound(millibits, elapsed);
    assert(rate * elapsed <= millibits < (rate + 1) * elapsed) by (nonlinear_arith)
        requires
            millibits == elapsed * rate + millibits % elapsed,
            0 <= millibits % elapsed < elapsed,
    ;
    vstd::arithmetic::div_mod::lemma_div_pos_is_pos(millibits, elapsed);
    if rate >= u32::MAX {
        assert(u32::MAX as int * elapsed <= rate * elapsed) by (nonlinear_arith)
            requires
                rate >= u32::MAX,
                elapsed > 0,
        ;
    }
}

/// Within a window the bytes add up; the first frame of a stream opens its window.
pub proof fn window_adds_up(telemetry: WebTelemetry, length: usize, now: u64, level: u32)
    requires
        telemetry.rate_window_start_ms == 0 || now < telemetry.rate_window_start_ms + 1000,
        telemetry.rate_window_bytes + length <= u64::MAX,
    ensures
        ({
            let after = telemetry.recorded(length, now, level);
            &&& after.rate_window_bytes == telemetry.rate_window_bytes + length
            &&& after.bitrate == telemetry.bitrate
            &&& after.rate_window_start_ms == if telemetry.rate_window_start_ms == 0 {
                now
            } else {
                telemetry.rate_window_start_ms
            }
        }),
{
}

/// A gap is measured between two frames that hold samples: the milliseconds from the
/// one to the other, none if the clock went back, together with the samples of the
/// later frame.
pub proof fn gap_is_measured_between_frames(telemetry: WebTelemetry, length: usize, now: u64)
    ensures
        telemetry.arrival(length, now) is Some <==> length >= 4 && telemetry.last_arrival_ms > 0,
        telemetry.arrival(length, now) matches Some(arrival) ==> {
            &&& 4 * arrival.samples <= length < 4 * arrival.samples + 4
            &&& now >= telemetry.last_arrival_ms ==> arrival.observed_ms
                == now - telemetry.last_arrival_ms
            &&& now < telemetry.last_arrival_ms ==> arrival.observed_ms == 0
        },
{
}

/// Clearing takes the level, the bitrate, the last arrival and the window away, and
/// keeps the totals, the sample rate and the jitter; what is shown is what is held.
pub proof fn clearing_keeps_totals(telemetry: WebTelemetry)
    ensures
        telemetry.cleared().audio_level == 0,
        telemetry.cleared().bitrate == 0,
        telemetry.cleared().last_arrival_ms == 0,
        telemetry.cleared().rate_window_start_ms == 0,
        telemetry.cleared().rate_window_bytes == 0,
        telemetry.cleared().sample_rate == telemetry.sample_rate,
        telemetry.cleared().jitter_bits == telemetry.jitter_bits,
        telemetry.cleared().packet_count == telemetry.packet_count,
        telemetry.cleared().bytes_received == telemetry.bytes_received,
        telemetry.shown().audio_level == telemetry.audio_level,
        telemetry.shown().bitrate == telemetry.bitrate,
        telemetry.shown().sample_rate == telemetry.sample_rate,
        telemetry.shown().jitter_bits == telemetry.jitter_bits,
        telemetry.shown().packet_count == telemetry.packet_count,
        telemetry.shown().bytes_received == telemetry.bytes_received,
{
}

/// Beyond its range the bitrate shows the largest figure that is left, and counters
/// start over at zero.
pub proof fn figures_are_held_to_their_ranges(
    telemetry: WebTelemetry,
    length: usize,
    now: u64,
    level: u32,
)
    requires
        telemetry.rate_window_start_ms > 0,
        now >= telemetry.rate_window_start_ms + 1000,
        telemetry.rate_window_bytes + length <= u64::MAX,
        (telemetry.rate_window_bytes + length) * 8000 >= u64::MAX,
    ensures
        ({
            let after = telemetry.recorded(length, now, level);
            let most = u64::MAX as int / (now - telemetry.rate_window_start_ms);
            &&& most >= u32::MAX ==> after.bitrate == u32::MAX
            &&& most < u32::MAX ==> after.bitrate == most
            &&& telemetry.packet_count == u64::MAX ==> after.packet_count == 0
            &&& telemetry.bytes_received + length > u64::MAX ==> after.bytes_received
                == telemetry.bytes_received + length - u64::MAX - 1
        }),
{
    vstd::arithmetic::div_mod::lemma_div_pos_is_pos(
        u64::MAX as int,
        now - telemetry.rate_window_start_ms,
    );
}

} // verus!
