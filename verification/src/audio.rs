//! Sounds, and the command frames of the voice module that plays them.
//!
//! A frame is `AA <cmd> <len> <data..> <sum>`, where `sum` is the low byte of the sum of
//! every byte before it. The module selects a track by the number in its five-digit file
//! name:
//!
//! | File                      | Sound               | Played when           |
//! |---------------------------|---------------------|-----------------------|
//! | `00001.mp3`-`00004.mp3`   | `Bet(0)`-`Bet(3)`   | that duck is selected |
//! | `00005.mp3`               | `Race`              | a race starts         |
//! | `00006.mp3`               | `Win`               | the player's duck won |
//! | `00007.mp3`               | `Lose`              | a different duck won  |

use crate::config::LANES;
use vstd::prelude::*;

verus! {

pub const FRAME_START: u8 = 0xAA;

pub const CMD_STOP: u8 = 0x04;

pub const CMD_SELECT_DRIVE: u8 = 0x0B;

/// Plays a track by its 16-bit number.
pub const CMD_PLAY_TRACK: u8 = 0x07;

pub const CMD_SET_VOLUME: u8 = 0x13;

pub const CMD_SET_LOOP: u8 = 0x18;

/// The module's onboard flash.
pub const DRIVE_FLASH: u8 = 0x02;

/// Play the selected track once, and stop.
pub const LOOP_SINGLE_STOP: u8 = 0x02;

/// The module's volume scale is `0..=30`.
pub const VOLUME_MAX: u8 = 30;

pub const VOLUME_DEFAULT: u8 = 22;

/// The module is not ready to accept commands before this long after power-up.
pub const POWER_UP_MS: u64 = 500;

/// Mounting the flash takes a beat.
pub const MOUNT_MS: u64 = 200;

/// The occasions for a sound.
#[derive(Clone, Copy, PartialEq, Eq, Structural, Debug)]
pub enum Sound {
    /// A duck was selected: one clip per lane.
    Bet(u8),
    /// A race started.
    Race,
    /// The player's duck won.
    Win,
    /// Some other duck won.
    Lose,
    /// Idle: no clip assigned.
    Attract,
    /// Homing: no clip assigned.
    Home,
}

impl Sound {
    /// The track a sound is on, if it has one.
    pub open spec fn on_track(self) -> Option<u16> {
        match self {
            Sound::Bet(l) => Some(
                if l < LANES {
                    (1 + l) as u16
                } else {
                    LANES as u16
                },
            ),
            Sound::Race => Some(5),
            Sound::Win => Some(6),
            Sound::Lose => Some(7),
            Sound::Attract => None,
            Sound::Home => None,
        }
    }

    /// Track number, which is the number in the file name, or `None` for a sound that has no
    /// clip.
    pub fn track(self) -> (track: Option<u16>)
        ensures
            track == self.on_track(),
    {
        match self {
            Sound::Bet(l) => {
                let lane: u16 = if (l as usize) < LANES {
                    l as u16
                } else {
                    LANES as u16 - 1
                };
                Some(1 + lane)
            },
            Sound::Race => Some(5),
            Sound::Win => Some(6),
            Sound::Lose => Some(7),
            Sound::Attract => None,
            Sound::Home => None,
        }
    }
}

/// Law: every sound that has a track is on one of the seven clips.
pub proof fn tracks_are_on_the_module(s: Sound)
    ensures
        s.on_track() matches Some(n) ==> 1 <= n <= 7,
        s.on_track() is None <==> s is Attract || s is Home,
{
}

/// Law: no two sounds share a clip, save the bets of ducks that do not exist.
pub proof fn sounds_have_their_own_tracks(a: Sound, b: Sound)
    requires
        a.on_track() is Some,
        a.on_track() == b.on_track(),
        a matches Sound::Bet(l) ==> l < LANES,
        b matches Sound::Bet(l) ==> l < LANES,
    ensures
        a == b,
{
}

// ---- Frames ----

/// Most bytes of data a frame has room for.
pub const FRAME_DATA_MAX: usize = 4;

/// One command frame, in a fixed buffer.
#[derive(Clone, Copy, Debug)]
pub struct Frame {
    pub buf: [u8; 8],
    pub len: usize,
}

impl View for Frame {
    type V = Seq<u8>;

    /// The bytes to send.
    open spec fn view(&self) -> Seq<u8> {
        self.buf@.take(self.len as int)
    }
}

/// Sum of the bytes.
pub open spec fn byte_sum(bytes: Seq<u8>) -> nat
    decreases bytes.len(),
{
    if bytes.len() == 0 {
        0
    } else {
        byte_sum(bytes.drop_last()) + bytes.last() as nat
    }
}

/// The frame without its checksum.
pub open spec fn frame_head(cmd: u8, data: Seq<u8>) -> Seq<u8> {
    seq![FRAME_START, cmd, data.len() as u8] + data
}

/// The frame of a command.
pub open spec fn frame_of(cmd: u8, data: Seq<u8>) -> Seq<u8> {
    frame_head(cmd, data).push((byte_sum(frame_head(cmd, data)) % 256) as u8)
}

/// The data of the command that plays track `n`: its number, high byte first.
pub open spec fn track_data(n: u16) -> Seq<u8> {
    seq![(n / 256) as u8, (n % 256) as u8]
}

impl Frame {
    /// The buffer holds the frame.
    pub open spec fn wf(self) -> bool {
        self.len <= 8
    }

    /// Builds one command frame.
    pub fn new(cmd: u8, data: &[u8]) -> (frame: Frame)
        requires
            data@.len() <= FRAME_DATA_MAX,
        ensures
            frame.wf(),
            frame@ == frame_of(cmd, data@),
    {
        let mut buf: [u8; 8] = [0u8; 8];
        buf[0] = FRAME_START;
        buf[1] = cmd;
        buf[2] = data.len() as u8;
        let n: usize = 3 + data.len();
        let mut i: usize = 3;
        while i < n
            invariant
                n == 3 + data@.len(),
                3 <= i <= n <= 7,
                buf@.take(3) == seq![FRAME_START, cmd, data@.len() as u8],
                forall|k: int| 3 <= k < i ==> #[trigger] buf[k] == data@[k - 3],
            decreases n - i,
        {
            let ghost before = buf@;
            buf[i] = data[i - 3];
            assert(buf@.take(3) =~= before.take(3));
            i = i + 1;
        }
        assert(buf@.take(n as int) =~= frame_head(cmd, data@));
        let mut sum: u8 = 0;
        let mut j: usize = 0;
        while j < n
            invariant
                j <= n <= 7,
                sum as nat == byte_sum(buf@.take(j as int)) % 256,
            decreases n - j,
        {
            assert(buf@.take(j + 1).drop_last() =~= buf@.take(j as int));
            sum = sum.wrapping_add(buf[j]);
            j = j + 1;
        }
        buf[n] = sum;
        let frame: Frame = Frame { buf, len: n + 1 };
        assert(frame@ =~= frame_of(cmd, data@));
        frame
    }
}

/// Law: a frame is its header and data and one byte more, and that byte is the low byte of
/// the sum of all the others.
pub proof fn frame_ends_in_its_checksum(cmd: u8, data: Seq<u8>)
    requires
        data.len() <= FRAME_DATA_MAX,
    ensures
        frame_of(cmd, data).len() == data.len() + 4,
        frame_of(cmd, data).first() == FRAME_START,
        frame_of(cmd, data)[2] == data.len(),
        frame_of(cmd, data).last() as nat == byte_sum(frame_of(cmd, data).drop_last()) % 256,
{
    assert(frame_of(cmd, data).drop_last() =~= frame_head(cmd, data));
}

/// Law: the track number can be read back from its frame.
pub proof fn frame_carries_the_track(n: u16)
    ensures
        frame_of(CMD_PLAY_TRACK, track_data(n))[3] * 256 + frame_of(
            CMD_PLAY_TRACK,
            track_data(n),
        )[4] == n,
{
}

// ---- Sinks ----

/// Where sounds go. A call gives the frame to put on the line, if there is one to send.
pub trait AudioSink {
    fn play(&mut self, s: Sound) -> Option<Frame>;

    fn set_volume(&mut self, v: u8) -> Option<Frame>;
}

/// Plays nothing: for a machine with no audio hardware.
pub struct NullAudio;

impl AudioSink for NullAudio {
    fn play(&mut self, s: Sound) -> (frame: Option<Frame>)
        ensures
            frame is None,
    {
        None
    }

    fn set_volume(&mut self, v: u8) -> (frame: Option<Frame>)
        ensures
            frame is None,
    {
        None
    }
}

/// The voice module. It only listens, so its volume is remembered here.
pub struct DySv8f {
    volume: u8,
}

/// One step of the module's start-up: wait, then send.
pub struct InitStep {
    pub wait_ms: u64,
    pub frame: Frame,
}

/// The volume nearest to `v` that is on the scale.
pub open spec fn on_scale(v: u8) -> u8 {
    if v <= VOLUME_MAX {
        v
    } else {
        VOLUME_MAX
    }
}

impl DySv8f {
    #[verifier::type_invariant]
    spec fn in_scale(self) -> bool {
        self.volume <= VOLUME_MAX
    }

    /// The volume last set.
    pub closed spec fn level(self) -> u8 {
        self.volume
    }

    /// A module at the default volume.
    pub fn new() -> (dev: DySv8f)
        ensures
            dev.level() == VOLUME_DEFAULT,
    {
        DySv8f { volume: VOLUME_DEFAULT }
    }

    /// The start-up sequence, step by step: point the module at its flash, set it to play
    /// once, set the volume. `None` after the last step.
    pub fn init(&self, step: usize) -> (next: Option<InitStep>)
        ensures
            step == 0 ==> (next matches Some(s) && s.wait_ms == POWER_UP_MS && s.frame@ == frame_of(
                CMD_SELECT_DRIVE,
                seq![DRIVE_FLASH],
            )),
            step == 1 ==> (next matches Some(s) && s.wait_ms == MOUNT_MS && s.frame@ == frame_of(
                CMD_SET_LOOP,
                seq![LOOP_SINGLE_STOP],
            )),
            step == 2 ==> (next matches Some(s) && s.wait_ms == 0 && s.frame@ == frame_of(
                CMD_SET_VOLUME,
                seq![self.level()],
            )),
            step >= 3 ==> next is None,
            next matches Some(s) ==> s.frame.wf(),
    {
        if step == 0 {
            let frame: Frame = Frame::new(CMD_SELECT_DRIVE, &[DRIVE_FLASH]);
            assert([DRIVE_FLASH]@ =~= seq![DRIVE_FLASH]);
            Some(InitStep { wait_ms: POWER_UP_MS, frame })
        } else if step == 1 {
            let frame: Frame = Frame::new(CMD_SET_LOOP, &[LOOP_SINGLE_STOP]);
            assert([LOOP_SINGLE_STOP]@ =~= seq![LOOP_SINGLE_STOP]);
            Some(InitStep { wait_ms: MOUNT_MS, frame })
        } else if step == 2 {
            let v: u8 = self.volume;
            let frame: Frame = Frame::new(CMD_SET_VOLUME, &[v]);
            assert([v]@ =~= seq![v]);
            Some(InitStep { wait_ms: 0, frame })
        } else {
            None
        }
    }

    /// Plays a track by its file-name number.
    pub fn play_track(&self, n: u16) -> (frame: Frame)
        ensures
            frame.wf(),
            frame@ == frame_of(CMD_PLAY_TRACK, track_data(n)),
    {
        let hi: u8 = (n / 256) as u8;
        let lo: u8 = (n % 256) as u8;
        assert([hi, lo]@ =~= track_data(n));
        Frame::new(CMD_PLAY_TRACK, &[hi, lo])
    }

    /// Stops playing.
    pub fn stop(&self) -> (frame: Frame)
        ensures
            frame.wf(),
            frame@ == frame_of(CMD_STOP, Seq::<u8>::empty()),
    {
        let none: [u8; 0] = [];
        assert(none@ =~= Seq::<u8>::empty());
        Frame::new(CMD_STOP, &none)
    }

    /// The volume last set.
    pub fn volume(&self) -> (v: u8)
        ensures
            v == self.level(),
            v <= VOLUME_MAX,
    {
        proof {
            use_type_invariant(self);
        }
        self.volume
    }
}

impl AudioSink for DySv8f {
    /// Plays the sound's track; a sound without one sends nothing.
    fn play(&mut self, s: Sound) -> (frame: Option<Frame>)
        ensures
            *final(self) == *old(self),
            frame is Some <==> s.on_track() is Some,
            frame matches Some(f) ==> f.wf() && f@ == frame_of(
                CMD_PLAY_TRACK,
                track_data(s.on_track()->0),
            ),
    {
        match s.track() {
            Some(n) => Some(self.play_track(n)),
            None => None,
        }
    }

    /// Sets the volume, at most the top of the scale.
    fn set_volume(&mut self, v: u8) -> (frame: Option<Frame>)
        ensures
            final(self).level() == on_scale(v),
            frame matches Some(f) && f.wf() && f@ == frame_of(
                CMD_SET_VOLUME,
                seq![final(self).level()],
            ),
    {
        let set: u8 = if v <= VOLUME_MAX {
            v
        } else {
            VOLUME_MAX
        };
        self.volume = set;
        assert([set]@ =~= seq![set]);
        Some(Frame::new(CMD_SET_VOLUME, &[set]))
    }
}

/// Law: each duck's bet is on the track after its lane's number, a duck that does not exist
/// bets on the last, and the race, the win and the loss have the three tracks after the bets.
pub proof fn sounds_follow_the_track_map(l: u8)
    ensures
        l < LANES ==> Sound::Bet(l).on_track() == Some((l + 1) as u16),
        l >= LANES ==> Sound::Bet(l).on_track() == Some(LANES as u16),
        Sound::Race.on_track() == Some((LANES + 1) as u16),
        Sound::Win.on_track() == Some((LANES + 2) as u16),
        Sound::Lose.on_track() == Some((LANES + 3) as u16),
        Sound::Attract.on_track() is None,
        Sound::Home.on_track() is None,
{
}

/// Law: a frame carries its command and its data, in order, between the length and the
/// checksum.
pub proof fn frame_carries_its_command(cmd: u8, data: Seq<u8>, i: int)
    requires
        data.len() <= FRAME_DATA_MAX,
        0 <= i < data.len(),
    ensures
        frame_of(cmd, data)[0] == FRAME_START,
        frame_of(cmd, data)[1] == cmd,
        frame_of(cmd, data)[2] == data.len(),
        frame_of(cmd, data)[3 + i] == data[i],
{
}

/// Law: the sum of bytes is theirs: nothing sums to nothing, and one byte more adds its own
/// value.
pub proof fn byte_sum_adds_each_byte(bytes: Seq<u8>, b: u8)
    ensures
        byte_sum(Seq::<u8>::empty()) == 0,
        byte_sum(bytes.push(b)) == byte_sum(bytes) + b,
{
    assert(bytes.push(b).drop_last() =~= bytes);
}

/// Law: a frame without data is its start, its command, a zero length, and their sum.
pub proof fn bare_frame(cmd: u8)
    ensures
        frame_of(cmd, Seq::<u8>::empty()).len() == 4,
        frame_of(cmd, Seq::<u8>::empty())[0] == FRAME_START,
        frame_of(cmd, Seq::<u8>::empty())[1] == cmd,
        frame_of(cmd, Seq::<u8>::empty())[2] == 0,
        frame_of(cmd, Seq::<u8>::empty())[3] == (FRAME_START + cmd) % 256,
{
    reveal_with_fuel(byte_sum, 4);
}

/// Law: the bytes to send are the first bytes of the buffer, as many as the frame is long.
pub proof fn frame_is_the_front_of_its_buffer(frame: Frame, i: int)
    requires
        frame.wf(),
        0 <= i < frame.len,
    ensures
        frame@.len() == frame.len <= 8,
        frame@[i] == frame.buf[i],
{
}

/// Law: the number of a track goes high byte first.
pub proof fn track_goes_high_byte_first(n: u16)
    ensures
        track_data(n).len() == 2,
        track_data(n)[0] * 256 + track_data(n)[1] == n,
{
}

/// Law: a volume on the scale is set as it is, and a louder one at the top of the scale.
pub proof fn volume_is_capped(v: u8)
    ensures
        v <= VOLUME_MAX ==> on_scale(v) == v,
        v > VOLUME_MAX ==> on_scale(v) == VOLUME_MAX,
{
}

} // verus!
