//! Playing sounds: which requests are let through, how the output devices take turns and
//! what they are opened with.

use vstd::prelude::*;

use crate::number::Number;
use crate::wave;
use crate::wave::WaveInfo;

verus! {

/// The number of output devices that are opened at most.
pub const PLAYER_COUNT: usize = 12;

/// The volume setting that stands for full volume.
pub const FULL_VOLUME: u32 = 1000;

/// One sound to be played: its pitch as a factor, its volume and its place between left
/// and right.
#[derive(Clone, Copy, Debug)]
pub struct Request {
    pub freq: Number,
    pub volume: Number,
    pub balance: Number,
}

/// The switches of a sound player.
#[derive(Clone, Copy, Debug)]
pub struct TapPlayer {
    /// Whether sounds are played at all.
    pub enabled: bool,
    /// The volume in thousandths.
    pub volume: u32,
}

impl TapPlayer {
    /// The volume is at most full volume.
    pub open spec fn wf(self) -> bool {
        self.volume <= FULL_VOLUME
    }

    /// Whether a request is let through.
    pub open spec fn audible(self) -> bool {
        self.enabled && self.volume != 0
    }

    /// A player that plays, at full volume.
    pub fn new() -> (r: TapPlayer)
        ensures
            r.wf(),
            r.enabled,
            r.volume == FULL_VOLUME,
    {
        TapPlayer { enabled: true, volume: FULL_VOLUME }
    }

    /// Switches the sounds on or off.
    pub fn set_enabled(&mut self, enabled: bool)
        requires
            old(self).wf(),
        ensures
            final(self).wf(),
            final(self).enabled == enabled,
            final(self).volume == old(self).volume,
    {
        self.enabled = enabled;
    }

    /// Sets the volume, given in thousandths; what exceeds full volume is full volume.
    pub fn set_volume(&mut self, thousandths: u32)
        ensures
            final(self).wf(),
            final(self).enabled == old(self).enabled,
            final(self).volume == (if thousandths <= FULL_VOLUME {
                thousandths
            } else {
                FULL_VOLUME
            }),
    {
        self.volume = if thousandths <= FULL_VOLUME {
            thousandths
        } else {
            FULL_VOLUME
        };
    }

    /// Lets a request through, unless the player is switched off or silent.
    pub fn play(&self, request: Request) -> (r: Option<Request>)
        ensures
            r == (if self.audible() {
                Some(request)
            } else {
                None
            }),
    {
        if self.enabled && self.volume != 0 {
            Some(request)
        } else {
            None
        }
    }
}

/// What an output device is opened with.
#[derive(Clone, Copy, Debug, PartialEq, Eq)]
pub struct WaveFormat {
    pub channels: u16,
    pub samples_per_second: u32,
    pub bytes_per_second: u32,
    pub block_align: u16,
    pub bits_per_sample: u16,
}

/// Whether the derived fields of a device format can be held.
pub open spec fn format_fits(info: wave::WaveFields) -> bool {
    wave::format_fits(info.sample_rate, info.channels, info.bits)
}

/// Tells whether `wave_format` accepts the sound.
pub fn is_openable(info: &WaveInfo) -> (r: bool)
    ensures
        r == format_fits(info@),
{
    wave::is_format_writable(info.sample_rate, info.channels, info.bits)
}

/// The device format for a sound.
pub fn wave_format(info: &WaveInfo) -> (r: WaveFormat)
    requires
        format_fits(info@),
    ensures
        r.channels == info.channels,
        r.samples_per_second == info.sample_rate,
        r.bytes_per_second == info.sample_rate * info.channels * wave::sample_bytes(
            info.bits as int,
        ),
        r.block_align == info.channels * wave::sample_bytes(info.bits as int),
        r.bits_per_sample == info.bits,
{
    WaveFormat {
        channels: info.channels,
        samples_per_second: info.sample_rate,
        bytes_per_second: info.sample_rate * info.channels as u32 * (info.bits / 8) as u32,
        block_align: info.channels * (info.bits / 8),
        bits_per_sample: info.bits,
    }
}

/// The stages of the thread that plays sounds.
#[derive(Clone, Copy, Debug, PartialEq, Eq, Structural)]
pub enum WorkerPhase {
    /// Devices are being opened.
    Opening,
    /// Requests are being played.
    Playing,
    /// The thread is over.
    Finished,
}

/// What the thread that plays sounds is told.
#[derive(Clone, Copy, Debug, PartialEq, Eq, Structural)]
pub enum WorkerEvent {
    /// A device has been opened.
    DeviceOpened,
    /// A device could not be opened.
    DeviceRefused,
    /// A sound is to be played.
    Requested,
    /// No more requests will come.
    Closed,
}

/// What the thread that plays sounds does next.
#[derive(Clone, Copy, Debug, PartialEq, Eq, Structural)]
pub enum WorkerAction {
    /// Open one more device.
    Open,
    /// Wait for a request.
    Receive,
    /// Play on the device in `slot`, and stop first what it still plays if `reset`.
    Play { slot: usize, reset: bool },
    /// Stop and close every device.
    Release,
    /// End without anything to close.
    Stop,
}

/// The devices of a sound and whose turn it is.
#[derive(Debug)]
pub struct AudioWorker {
    pub phase: WorkerPhase,
    /// For each device, whether it has been given a sound.
    pub filled: Vec<bool>,
    /// The device that plays next.
    pub next: usize,
}

/// The state of an `AudioWorker` as mathematical values.
#[verifier::ext_equal]
pub ghost struct WorkerState {
    pub phase: WorkerPhase,
    pub filled: Seq<bool>,
    pub next: int,
}

impl View for AudioWorker {
    type V = WorkerState;

    open spec fn view(&self) -> WorkerState {
        WorkerState { phase: self.phase, filled: self.filled@, next: self.next as int }
    }
}

impl WorkerState {
    /// There are at most `PLAYER_COUNT` devices, fewer while they are being opened, and
    /// while sounds are played there is a device whose turn it is.
    pub open spec fn wf(self) -> bool {
        &&& self.filled.len() <= PLAYER_COUNT
        &&& self.phase == WorkerPhase::Opening ==> self.filled.len() < PLAYER_COUNT && self.next
            == 0
        &&& self.phase == WorkerPhase::Playing ==> 0 <= self.next < self.filled.len()
    }

    /// Whether an event can come in this state.
    pub open spec fn expects(self, event: WorkerEvent) -> bool {
        match event {
            WorkerEvent::DeviceOpened | WorkerEvent::DeviceRefused => self.phase
                == WorkerPhase::Opening,
            WorkerEvent::Requested | WorkerEvent::Closed => self.phase == WorkerPhase::Playing,
        }
    }

    /// The state after an event.
    pub open spec fn after(self, event: WorkerEvent) -> WorkerState {
        match event {
            WorkerEvent::DeviceOpened => WorkerState {
                phase: if self.filled.len() + 1 == PLAYER_COUNT {
                    WorkerPhase::Playing
                } else {
                    WorkerPhase::Opening
                },
                filled: self.filled.push(false),
                next: self.next,
            },
            WorkerEvent::DeviceRefused => WorkerState {
                phase: if self.filled.len() == 0 {
                    WorkerPhase::Finished
                } else {
                    WorkerPhase::Playing
                },
                ..self
            },
            WorkerEvent::Requested => WorkerState {
                phase: self.phase,
                filled: self.filled.update(self.next, true),
                next: (self.next + 1) % (self.filled.len() as int),
            },
            WorkerEvent::Closed => WorkerState { phase: WorkerPhase::Finished, ..self },
        }
    }

    /// What is done on an event.
    pub open spec fn action(self, event: WorkerEvent) -> WorkerAction {
        match event {
            WorkerEvent::DeviceOpened => if self.filled.len() + 1 == PLAYER_COUNT {
                WorkerAction::Receive
            } else {
                WorkerAction::Open
            },
            WorkerEvent::DeviceRefused => if self.filled.len() == 0 {
                WorkerAction::Stop
            } else {
                WorkerAction::Receive
            },
            WorkerEvent::Requested => WorkerAction::Play {
                slot: self.next as usize,
                reset: self.filled[self.next],
            },
            WorkerEvent::Closed => WorkerAction::Release,
        }
    }

    /// The state after `n` requests.
    pub open spec fn after_requests(self, n: nat) -> WorkerState
        decreases n,
    {
        if n == 0 {
            self
        } else {
            self.after_requests((n - 1) as nat).after(WorkerEvent::Requested)
        }
    }
}

impl AudioWorker {
    /// Starts on a sound: opens devices if the sound could be read, ends otherwise.
    pub fn start(sound_read: bool) -> (r: (AudioWorker, WorkerAction))
        ensures
            r.0@.wf(),
            r.0@.filled.len() == 0,
            r.0@.next == 0,
            sound_read ==> r.0@.phase == WorkerPhase::Opening && r.1 == WorkerAction::Open,
            !sound_read ==> r.0@.phase == WorkerPhase::Finished && r.1 == WorkerAction::Stop,
    {
        if sound_read {
            (
                AudioWorker { phase: WorkerPhase::Opening, filled: Vec::new(), next: 0 },
                WorkerAction::Open,
            )
        } else {
            (
                AudioWorker { phase: WorkerPhase::Finished, filled: Vec::new(), next: 0 },
                WorkerAction::Stop,
            )
        }
    }

    /// Takes an event and says what to do next.
    pub fn step(&mut self, event: WorkerEvent) -> (r: WorkerAction)
        requires
            old(self)@.wf(),
            old(self)@.expects(event),
        ensures
            final(self)@.wf(),
            final(self)@ == old(self)@.after(event),
            r == old(self)@.action(event),
    {
        match event {
            WorkerEvent::DeviceOpened => {
                self.filled.push(false);
                if self.filled.len() == PLAYER_COUNT {
                    self.phase = WorkerPhase::Playing;
                    WorkerAction::Receive
                } else {
                    WorkerAction::Open
                }
            },
            WorkerEvent::DeviceRefused => {
                if self.filled.len() == 0 {
                    self.phase = WorkerPhase::Finished;
                    WorkerAction::Stop
                } else {
                    self.phase = WorkerPhase::Playing;
                    WorkerAction::Receive
                }
            },
            WorkerEvent::Requested => {
                let slot: usize = self.next;
                let reset: bool = self.filled[slot];
                self.filled.set(slot, true);
                self.next = (slot + 1) % self.filled.len();
                WorkerAction::Play { slot, reset }
            },
            WorkerEvent::Closed => {
                self.phase = WorkerPhase::Finished;
                WorkerAction::Release
            },
        }
    }
}

/// The devices take turns: the `n`-th request from now plays on the device that is `n`
/// places after the next one.
pub proof fn law_devices_take_turns(state: WorkerState, n: nat)
    requires
        state.wf(),
        state.phase == WorkerPhase::Playing,
    ensures
        state.after_requests(n).wf(),
        state.after_requests(n).phase == WorkerPhase::Playing,
        state.after_requests(n).filled.len() == state.filled.len(),
        state.after_requests(n).next == (state.next + n) % (state.filled.len() as int),
    decreases n,
{
    let count = state.filled.len() as int;
    if n == 0 {
        vstd::arithmetic::div_mod::lemma_small_mod(state.next as nat, count as nat);
    } else {
        law_devices_take_turns(state, (n - 1) as nat);
        vstd::arithmetic::div_mod::lemma_add_mod_noop(state.next + n - 1, 1, count);
        vstd::arithmetic::div_mod::lemma_add_mod_noop(
            (state.next + n - 1) % count,
            1,
            count,
        );
        vstd::arithmetic::div_mod::lemma_mod_twice(state.next + n - 1, count);
        vstd::arithmetic::div_mod::lemma_mod_pos_bound(state.next + n, count);
    }
}

/// After as many requests as there are devices, each device has been given a sound.
pub proof fn law_every_device_gets_its_turn(state: WorkerState, slot: int)
    requires
        state.wf(),
        state.phase == WorkerPhase::Playing,
        0 <= slot < state.filled.len(),
    ensures
        state.after_requests(state.filled.len()).filled[slot],
{
    let count = state.filled.len() as int;
    let wait = if slot >= state.next {
        slot - state.next
    } else {
        slot - state.next + count
    };
    law_devices_take_turns(state, wait as nat);
    assert((state.next + wait) % count == slot) by {
        if slot >= state.next {
            vstd::arithmetic::div_mod::lemma_small_mod(slot as nat, count as nat);
        } else {
            vstd::arithmetic::div_mod::lemma_mod_add_multiples_vanish(slot, count);
            vstd::arithmetic::div_mod::lemma_small_mod(slot as nat, count as nat);
        }
    }
    let there = state.after_requests((wait + 1) as nat);
    assert(there == state.after_requests(wait as nat).after(WorkerEvent::Requested));
    assert(there.filled[slot]);
    lemma_filled_stays(state, (wait + 1) as nat, (count - wait - 1) as nat, slot);
}

proof fn lemma_filled_stays(state: WorkerState, n: nat, more: nat, slot: int)
    requires
        state.wf(),
        state.phase == WorkerPhase::Playing,
        0 <= slot < state.filled.len(),
        state.after_requests(n).filled[slot],
    ensures
        state.after_requests(n + more).filled[slot],
    decreases more,
{
    if more > 0 {
        lemma_filled_stays(state, n, (more - 1) as nat, slot);
        law_devices_take_turns(state, (n + more - 1) as nat);
        assert(state.after_requests(n + more) == state.after_requests(
            (n + more - 1) as nat,
        ).after(WorkerEvent::Requested));
    }
}

/// A sound is heard if and only if sounds are switched on and the volume is not zero.
pub proof fn law_only_silence_is_not_heard(player: TapPlayer)
    ensures
        player.audible() <==> player.enabled && player.volume > 0,
        player.wf() <==> player.volume <= 1000,
{
}

/// Devices are opened one by one, each without a sound, until there are twelve or one is
/// refused. If there is one by then, sounds are played; without any the thread ends.
pub proof fn law_devices_are_opened_one_by_one(state: WorkerState)
    requires
        state.wf(),
        state.phase == WorkerPhase::Opening,
    ensures
        ({
            let more = state.after(WorkerEvent::DeviceOpened);
            let enough = state.after(WorkerEvent::DeviceRefused);
            &&& state.filled.len() < 12
            &&& more.filled.len() == state.filled.len() + 1
            &&& !more.filled.last()
            &&& more.filled.drop_last() == state.filled
            &&& more.next == 0
            &&& state.filled.len() == 11 ==> more.phase == WorkerPhase::Playing && state.action(
                WorkerEvent::DeviceOpened,
            ) == WorkerAction::Receive
            &&& state.filled.len() < 11 ==> more.phase == WorkerPhase::Opening && state.action(
                WorkerEvent::DeviceOpened,
            ) == WorkerAction::Open
            &&& enough.filled == state.filled
            &&& enough.next == state.next
            &&& state.filled.len() > 0 ==> enough.phase == WorkerPhase::Playing && state.action(
                WorkerEvent::DeviceRefused,
            ) == WorkerAction::Receive
            &&& state.filled.len() == 0 ==> enough.phase == WorkerPhase::Finished && state.action(
                WorkerEvent::DeviceRefused,
            ) == WorkerAction::Stop
        }),
{
    assert(state.after(WorkerEvent::DeviceOpened).filled.drop_last() =~= state.filled);
}

/// A request is played on the device whose turn it is, which is stopped first if and only
/// if it has been given a sound before. From then on it has, no other device is touched,
/// and the turn goes to the next device, from the last one back to the first.
pub proof fn law_request_is_played_on_the_next_device(state: WorkerState, other: int)
    requires
        state.wf(),
        state.phase == WorkerPhase::Playing,
        0 <= other < state.filled.len(),
        other != state.next,
    ensures
        ({
            let after = state.after(WorkerEvent::Requested);
            &&& state.action(WorkerEvent::Requested) == (WorkerAction::Play {
                slot: state.next as usize,
                reset: state.filled[state.next],
            })
            &&& after.phase == WorkerPhase::Playing
            &&& after.filled.len() == state.filled.len()
            &&& after.filled[state.next]
            &&& after.filled[other] == state.filled[other]
            &&& state.next + 1 < state.filled.len() ==> after.next == state.next + 1
            &&& state.next + 1 == state.filled.len() ==> after.next == 0
        }),
{
    law_turn_goes_round(state);
}

/// The turn goes from each device to the next one, and from the last one to the first; the
/// device that played counts as given a sound, also if it is the only one.
pub proof fn law_turn_goes_round(state: WorkerState)
    requires
        state.wf(),
        state.phase == WorkerPhase::Playing,
    ensures
        state.next + 1 < state.filled.len() ==> state.after(WorkerEvent::Requested).next
            == state.next + 1,
        state.next + 1 == state.filled.len() ==> state.after(WorkerEvent::Requested).next == 0,
        state.after(WorkerEvent::Requested).filled[state.next],
        state.after(WorkerEvent::Requested).phase == WorkerPhase::Playing,
        state.action(WorkerEvent::Requested) == (WorkerAction::Play {
            slot: state.next as usize,
            reset: state.filled[state.next],
        }),
{
    let count = state.filled.len() as int;
    if state.next + 1 < count {
        vstd::arithmetic::div_mod::lemma_small_mod((state.next + 1) as nat, count as nat);
    } else {
        vstd::arithmetic::div_mod::lemma_mod_self_0(count);
    }
}

/// When no more requests come, every device is released, and the thread ends with its
/// devices as they are.
pub proof fn law_closing_releases_the_devices(state: WorkerState)
    ensures
        state.action(WorkerEvent::Closed) == WorkerAction::Release,
        state.after(WorkerEvent::Closed).phase == WorkerPhase::Finished,
        state.after(WorkerEvent::Closed).filled == state.filled,
        state.after(WorkerEvent::Closed).next == state.next,
{
}

/// Devices are opened only at the start, and requests come only after that.
pub proof fn law_events_come_in_their_phase(state: WorkerState)
    ensures
        state.expects(WorkerEvent::DeviceOpened) <==> state.phase == WorkerPhase::Opening,
        state.expects(WorkerEvent::DeviceRefused) <==> state.phase == WorkerPhase::Opening,
        state.expects(WorkerEvent::Requested) <==> state.phase == WorkerPhase::Playing,
        state.expects(WorkerEvent::Closed) <==> state.phase == WorkerPhase::Playing,
{
}

/// A device can be opened for a sound if the bytes of a second and of a frame can be held.
pub proof fn law_room_of_a_device_format(info: wave::WaveFields)
    ensures
        format_fits(info) <==> info.sample_rate * info.channels < 0x1_0000_0000 && info.sample_rate
            * info.channels * (info.bits / 8) < 0x1_0000_0000 && info.channels * (info.bits / 8)
            < 0x1_0000,
{
}

/// What is known of the thread is its phase, its devices and whose turn it is. There are at
/// most twelve devices; while they are opened there is room for one more and the first one's
/// turn, and while sounds are played it is the turn of one of them.
pub proof fn law_state_of_a_worker(worker: AudioWorker)
    ensures
        worker@.phase == worker.phase,
        worker@.filled == worker.filled@,
        worker@.next == worker.next,
        worker@.wf() <==> match worker.phase {
            WorkerPhase::Opening => worker.filled@.len() <= 11 && worker.next == 0,
            WorkerPhase::Playing => worker.filled@.len() <= 12 && worker.next
                < worker.filled@.len(),
            WorkerPhase::Finished => worker.filled@.len() <= 12,
        },
{
}

} // verus!
