//! Volume as tracked by the hotkey listener, in whole percent.

use vstd::prelude::*;

verus! {

/// Largest volume, in percent.
pub const MAX_PERCENT: u32 = 100;

/// How far one press of a volume key moves the volume, in percent.
pub const STEP_PERCENT: u32 = 5;

/// The keys that the listener reacts to.
#[derive(Clone, Copy, Debug, PartialEq, Eq, Structural)]
pub enum Hotkey {
    VolumeUp,
    VolumeDown,
    MuteToggle,
}

/// What the listener tracks: the volume, the volume saved by the last mute,
/// and whether it is muted.
pub struct VolumeModel {
    pub volume: nat,
    pub saved: nat,
    pub muted: bool,
}

pub open spec fn model_in_range(m: VolumeModel) -> bool {
    m.volume <= MAX_PERCENT && m.saved <= MAX_PERCENT
}

/// One step up, capped at the maximum.
pub open spec fn stepped_up(v: nat) -> nat {
    if v + STEP_PERCENT > MAX_PERCENT {
        MAX_PERCENT as nat
    } else {
        (v + STEP_PERCENT) as nat
    }
}

/// One step down, floored at zero.
pub open spec fn stepped_down(v: nat) -> nat {
    if v < STEP_PERCENT {
        0
    } else {
        (v - STEP_PERCENT) as nat
    }
}

/// The state after one key press.
pub open spec fn pressed(m: VolumeModel, key: Hotkey) -> VolumeModel {
    match key {
        Hotkey::VolumeUp => VolumeModel { volume: stepped_up(m.volume), saved: m.saved, muted: false },
        Hotkey::VolumeDown => VolumeModel {
            volume: stepped_down(m.volume),
            saved: m.saved,
            muted: false,
        },
        Hotkey::MuteToggle => if m.muted {
            VolumeModel { volume: m.saved, saved: m.saved, muted: false }
        } else {
            VolumeModel { volume: 0, saved: m.volume, muted: true }
        },
    }
}

/// The state after a sequence of key presses, taken in order.
pub open spec fn pressed_all(m: VolumeModel, keys: Seq<Hotkey>) -> VolumeModel
    decreases keys.len(),
{
    if keys.len() == 0 {
        m
    } else {
        pressed(pressed_all(m, keys.drop_last()), keys.last())
    }
}

/// The key that a poll acts on when several are held: volume up first, then
/// volume down, then mute.
pub open spec fn chosen_hotkey(keys: Seq<Hotkey>) -> Option<Hotkey> {
    if keys.contains(Hotkey::VolumeUp) {
        Some(Hotkey::VolumeUp)
    } else if keys.contains(Hotkey::VolumeDown) {
        Some(Hotkey::VolumeDown)
    } else if keys.contains(Hotkey::MuteToggle) {
        Some(Hotkey::MuteToggle)
    } else {
        None
    }
}

/// Volume up by one step, capped at the maximum.
pub fn step_up(volume: u32) -> (r: u32)
    requires
        volume <= MAX_PERCENT,
    ensures
        r == stepped_up(volume as nat),
{
    if volume > MAX_PERCENT - STEP_PERCENT {
        MAX_PERCENT
    } else {
        volume + STEP_PERCENT
    }
}

/// Volume down by one step, floored at zero.
pub fn step_down(volume: u32) -> (r: u32)
    ensures
        r == stepped_down(volume as nat),
{
    if volume < STEP_PERCENT {
        0
    } else {
        volume - STEP_PERCENT
    }
}

/// The key to act on among those held.
pub fn pick_hotkey(keys: &Vec<Hotkey>) -> (r: Option<Hotkey>)
    ensures
        r == chosen_hotkey(keys@),
{
    let mut up = false;
    let mut down = false;
    let mut mute = false;
    let mut i: usize = 0;
    while i < keys.len()
        invariant
            i <= keys@.len(),
            up == keys@.subrange(0, i as int).contains(Hotkey::VolumeUp),
            down == keys@.subrange(0, i as int).contains(Hotkey::VolumeDown),
            mute == keys@.subrange(0, i as int).contains(Hotkey::MuteToggle),
        decreases keys@.len() - i,
    {
        let k = keys[i];
        proof {
            let before = keys@.subrange(0, i as int);
            let after = keys@.subrange(0, i + 1);
            assert(after =~= before.push(k));
            assert forall|h: Hotkey| after.contains(h) <==> (before.contains(h) || h == k) by {
                if after.contains(h) && h != k {
                    let j = choose|j: int| 0 <= j < after.len() && after[j] == h;
                    assert(before[j] == h);
                }
                if before.contains(h) {
                    let j = choose|j: int| 0 <= j < before.len() && before[j] == h;
                    assert(after[j] == h);
                }
                if h == k {
                    assert(after[i as int] == h);
                }
            }
        }
        match k {
            Hotkey::VolumeUp => up = true,
            Hotkey::VolumeDown => down = true,
            Hotkey::MuteToggle => mute = true,
        }
        i = i + 1;
    }
    assert(keys@.subrange(0, keys@.len() as int) =~= keys@);
    if up {
        Some(Hotkey::VolumeUp)
    } else if down {
        Some(Hotkey::VolumeDown)
    } else if mute {
        Some(Hotkey::MuteToggle)
    } else {
        None
    }
}

/// The hotkey listener's state.
pub struct VolumeKeys {
    volume: u32,
    saved: u32,
    muted: bool,
}

impl View for VolumeKeys {
    type V = VolumeModel;

    closed spec fn view(&self) -> VolumeModel {
        VolumeModel { volume: self.volume as nat, saved: self.saved as nat, muted: self.muted }
    }
}

impl VolumeKeys {
    #[verifier::type_invariant]
    spec fn in_range(self) -> bool {
        self.volume <= MAX_PERCENT && self.saved <= MAX_PERCENT
    }

    /// Starts unmuted at `percent`, capped at the maximum.
    pub fn new(percent: u32) -> (r: VolumeKeys)
        ensures
            r@.volume == (if percent > MAX_PERCENT { MAX_PERCENT } else { percent }),
            r@.saved == r@.volume,
            !r@.muted,
            model_in_range(r@),
    {
        let v = if percent > MAX_PERCENT {
            MAX_PERCENT
        } else {
            percent
        };
        VolumeKeys { volume: v, saved: v, muted: false }
    }

    pub fn volume(&self) -> (r: u32)
        ensures
            r == self@.volume,
            model_in_range(self@),
    {
        proof {
            use_type_invariant(self);
        }
        self.volume
    }

    pub fn is_muted(&self) -> (r: bool)
        ensures
            r == self@.muted,
    {
        self.muted
    }

    /// Acts on one key press and returns the volume to publish.
    pub fn press(&mut self, key: Hotkey) -> (r: u32)
        ensures
            final(self)@ == pressed(old(self)@, key),
            r == final(self)@.volume,
            model_in_range(final(self)@),
    {
        proof {
            use_type_invariant(&*self);
        }
        match key {
            Hotkey::VolumeUp => {
                self.volume = step_up(self.volume);
                self.muted = false;
            },
            Hotkey::VolumeDown => {
                self.volume = step_down(self.volume);
                self.muted = false;
            },
            Hotkey::MuteToggle => {
                if self.muted {
                    self.volume = self.saved;
                    self.muted = false;
                } else {
                    self.saved = self.volume;
                    self.volume = 0;
                    self.muted = true;
                }
            },
        }
        self.volume
    }

    /// One poll of the held keys: acts on the chosen key, if any, and returns
    /// the volume to publish.
    pub fn poll(&mut self, keys: &Vec<Hotkey>) -> (r: Option<u32>)
        ensures
            chosen_hotkey(keys@) is None ==> r is None && final(self)@ == old(self)@,
            chosen_hotkey(keys@) is Some ==> final(self)@ == pressed(
                old(self)@,
                chosen_hotkey(keys@)->0,
            ) && r == Some(final(self)@.volume as u32),
    {
        match pick_hotkey(keys) {
            None => None,
            Some(k) => Some(self.press(k)),
        }
    }
}

/// A single key press keeps the volume within range.
pub proof fn lemma_press_in_range(m: VolumeModel, key: Hotkey)
    requires
        model_in_range(m),
    ensures
        model_in_range(pressed(m, key)),
{
}

/// Whatever keys are pressed, in whatever order, the tracked volume stays
/// between zero and the maximum after every press.
pub proof fn lemma_volume_stays_in_range(m: VolumeModel, keys: Seq<Hotkey>)
    requires
        model_in_range(m),
    ensures
        forall|i: int|
            0 <= i <= keys.len() ==> #[trigger] pressed_all(m, keys.take(i)).volume <= MAX_PERCENT,
{
    assert forall|i: int| 0 <= i <= keys.len() implies #[trigger] pressed_all(
        m,
        keys.take(i),
    ).volume <= MAX_PERCENT by {
        lemma_pressed_all_in_range(m, keys.take(i));
    }
}

proof fn lemma_pressed_all_in_range(m: VolumeModel, keys: Seq<Hotkey>)
    requires
        model_in_range(m),
    ensures
        model_in_range(pressed_all(m, keys)),
    decreases keys.len(),
{
    if keys.len() > 0 {
        lemma_pressed_all_in_range(m, keys.drop_last());
        lemma_press_in_range(pressed_all(m, keys.drop_last()), keys.last());
    }
}

/// Muting and then unmuting, with no other key between, gives back the
/// volume from before the mute.
pub proof fn lemma_mute_round_trip(m: VolumeModel)
    requires
        !m.muted,
    ensures
        pressed(pressed(m, Hotkey::MuteToggle), Hotkey::MuteToggle).volume == m.volume,
        !pressed(pressed(m, Hotkey::MuteToggle), Hotkey::MuteToggle).muted,
{
}

} // verus!
