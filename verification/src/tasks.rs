//! Decisions of the firmware's periodic tasks: the mode button, the CAN node
//! housekeeping and the identify strobe of the LEDs. The tasks themselves
//! sleep, sample pins and drive LEDs; each of their steps is a function here
//! from state and input to next state and action.
use vstd::prelude::*;
use crate::led::{PinLevel, spec_led_level, led_level};

verus! {

/// How long after the last confirmed press the LEDs show the currents.
pub const FLASH_ON_TIME_MS: u64 = 30_000;

/// Interval at which the button task samples the button.
pub const BUTTON_POLL_MS: u64 = 50;

/// Consecutive pressed samples that confirm a press.
pub const PRESS_CONFIRM_SAMPLES: i32 = 2;

/// Bitrate code that no configuration uses: the value of the applied bitrate
/// before any has been applied.
pub const UNAPPLIED_BITRATE: u8 = 255;

/// State of the mode button task between two samples.
#[derive(Clone, Copy, Debug, PartialEq, Eq, Structural)]
pub struct ButtonMonitor {
    /// Consecutive samples in which the button was down.
    pub down_counter: i32,
    /// Tick (ms) of the last sample at which a press was confirmed.
    pub last_press_ms: u64,
}

/// What one sample of the button asks of the other tasks.
#[derive(Clone, Copy, Debug, PartialEq, Eq, Structural)]
pub struct ButtonOutput {
    /// Start the identify strobe.
    pub strobe: bool,
    /// 1 while the LEDs show the currents, else 0.
    pub flash_mode: u8,
}

/// The counter after a sample: one more while the button stays down (held at
/// `i32::MAX`), zero once it is up.
pub open spec fn next_down_counter(counter: i32, pressed: bool) -> i32 {
    if pressed {
        if counter < i32::MAX {
            (counter + 1) as i32
        } else {
            counter
        }
    } else {
        0
    }
}

/// The state after a sample at tick `now_ms`, and what it asks.
pub open spec fn button_step(s: ButtonMonitor, pressed: bool, now_ms: u64) -> (
    ButtonMonitor,
    ButtonOutput,
) {
    let counter = next_down_counter(s.down_counter, pressed);
    let last = if counter >= PRESS_CONFIRM_SAMPLES {
        now_ms
    } else {
        s.last_press_ms
    };
    (
        ButtonMonitor { down_counter: counter, last_press_ms: last },
        ButtonOutput {
            strobe: counter == PRESS_CONFIRM_SAMPLES,
            flash_mode: if now_ms - last < FLASH_ON_TIME_MS {
                1
            } else {
                0
            },
        },
    )
}

impl ButtonMonitor {
    /// A counter never goes below zero.
    pub open spec fn wf(&self) -> bool {
        self.down_counter >= 0
    }

    /// The state when the task starts at tick `now_ms`: nothing pressed, and
    /// the start counted as a press, so the LEDs show the currents for the
    /// first thirty seconds.
    pub fn new(now_ms: u64) -> (r: ButtonMonitor)
        ensures
            r.wf(),
            r.down_counter == 0,
            r.last_press_ms == now_ms,
    {
        ButtonMonitor { down_counter: 0, last_press_ms: now_ms }
    }

    /// Takes one sample of the button at tick `now_ms`.
    pub fn step(&mut self, pressed: bool, now_ms: u64) -> (r: ButtonOutput)
        requires
            old(self).last_press_ms <= now_ms,
        ensures
            (*final(self), r) == button_step(*old(self), pressed, now_ms),
    {
        if pressed {
            if self.down_counter < i32::MAX {
                self.down_counter = self.down_counter + 1;
            }
        } else {
            self.down_counter = 0;
        }
        let strobe = self.down_counter == PRESS_CONFIRM_SAMPLES;
        if self.down_counter >= PRESS_CONFIRM_SAMPLES {
            self.last_press_ms = now_ms;
        }
        let flash_mode: u8 = if now_ms - self.last_press_ms < FLASH_ON_TIME_MS {
            1
        } else {
            0
        };
        ButtonOutput { strobe, flash_mode }
    }
}

/// What one sample does, in terms of the state before it: a pressed sample
/// counts one more consecutive press (held at `i32::MAX`), a released one
/// clears the count; the strobe is asked exactly on the second consecutive
/// pressed sample; the last press moves to this sample exactly when it is the
/// second or a later consecutive pressed sample; and the LEDs show the
/// currents exactly while less than 30 000 ms have passed since the last
/// press.
pub proof fn lemma_button_step_law(s: ButtonMonitor, pressed: bool, now_ms: u64)
    requires
        s.wf(),
        s.last_press_ms <= now_ms,
    ensures
        pressed && s.down_counter < 0x7fff_ffff ==> button_step(s, pressed, now_ms).0.down_counter
            == s.down_counter + 1,
        pressed && s.down_counter == 0x7fff_ffff ==> button_step(
            s,
            pressed,
            now_ms,
        ).0.down_counter == 0x7fff_ffff,
        !pressed ==> button_step(s, pressed, now_ms).0.down_counter == 0,
        button_step(s, pressed, now_ms).1.strobe <==> (pressed && s.down_counter == 1),
        button_step(s, pressed, now_ms).0.last_press_ms == (if pressed && s.down_counter >= 1 {
            now_ms
        } else {
            s.last_press_ms
        }),
        button_step(s, pressed, now_ms).1.flash_mode == (if now_ms - button_step(
            s,
            pressed,
            now_ms,
        ).0.last_press_ms < 30_000 {
            1u8
        } else {
            0u8
        }),
{
}

/// However long the button is held, one press asks for the strobe once: a
/// sample that follows a pressed sample which did not strobe, and whose own
/// press continues a run of at least two, never strobes; only a run that
/// starts from a released state (count 0) strobes, at its second sample.
pub proof fn lemma_held_press_strobes_once(s: ButtonMonitor, t: u64)
    requires
        s.wf(),
        s.down_counter >= 2,
        s.last_press_ms <= t,
    ensures
        !button_step(s, true, t).1.strobe,
        button_step(s, true, t).0.down_counter >= 2,
{
}

/// Every sample keeps the counter non-negative and never moves the last press
/// past the sample's tick.
pub proof fn lemma_button_step_wf(s: ButtonMonitor, pressed: bool, now_ms: u64)
    requires
        s.wf(),
        s.last_press_ms <= now_ms,
    ensures
        button_step(s, pressed, now_ms).0.wf(),
        button_step(s, pressed, now_ms).0.last_press_ms <= now_ms,
{
}

/// A press held for two consecutive samples from the released state starts
/// the strobe at the second sample, and the LEDs then show the currents.
pub proof fn lemma_two_samples_confirm_press(s: ButtonMonitor, t1: u64, t2: u64)
    requires
        s.down_counter == 0,
        s.last_press_ms <= t1 <= t2,
    ensures
        !button_step(s, true, t1).1.strobe,
        button_step(button_step(s, true, t1).0, true, t2).1.strobe,
        button_step(button_step(s, true, t1).0, true, t2).1.flash_mode == 1,
{
}

/// One held press starts the strobe once: the sample after a strobe never
/// strobes again, whether the button stays down or is released.
pub proof fn lemma_strobe_once_per_press(s: ButtonMonitor, p1: bool, t1: u64, p2: bool, t2: u64)
    requires
        s.wf(),
        button_step(s, p1, t1).1.strobe,
    ensures
        !button_step(button_step(s, p1, t1).0, p2, t2).1.strobe,
{
}

/// A sample with the button up resets the counter and never strobes.
pub proof fn lemma_release_resets(s: ButtonMonitor, now_ms: u64)
    ensures
        button_step(s, false, now_ms).0.down_counter == 0,
        !button_step(s, false, now_ms).1.strobe,
        button_step(s, false, now_ms).0.last_press_ms == s.last_press_ms,
{
}

/// The LEDs show the currents exactly while less than thirty seconds have
/// passed since the last confirmed press.
pub proof fn lemma_flash_mode_window(s: ButtonMonitor, pressed: bool, now_ms: u64)
    requires
        s.last_press_ms <= now_ms,
    ensures
        (button_step(s, pressed, now_ms).1.flash_mode == 1) <==> (now_ms - button_step(
            s,
            pressed,
            now_ms,
        ).0.last_press_ms < FLASH_ON_TIME_MS),
        button_step(s, pressed, now_ms).0.down_counter >= PRESS_CONFIRM_SAMPLES ==> button_step(
            s,
            pressed,
            now_ms,
        ).1.flash_mode == 1,
{
}

/// No sample turns the flash mode off within thirty seconds of a tick `t0`
/// at or before the last press; with `ButtonMonitor::new(t0)` this is the
/// first thirty seconds after start.
pub proof fn lemma_flash_mode_after(s: ButtonMonitor, pressed: bool, t0: u64, now_ms: u64)
    requires
        t0 <= s.last_press_ms <= now_ms,
        now_ms - t0 < FLASH_ON_TIME_MS,
    ensures
        button_step(s, pressed, now_ms).1.flash_mode == 1,
{
}

/// The applied bitrate after a check, and the bitrate to program, if any.
pub open spec fn bitrate_check(applied: u8, current: u8) -> (u8, Option<u8>) {
    (current, if current != applied {
        Some(current)
    } else {
        None
    })
}

/// Every change of the configured bitrate is programmed, whatever the old
/// and new codes; an unchanged one is not; and either way the configured code
/// is recorded as applied.
pub proof fn lemma_bitrate_change_programmed(applied: u8, current: u8)
    ensures
        current != applied ==> bitrate_check(applied, current) == (current, Some(current)),
        current == applied ==> bitrate_check(applied, current) == (current, None::<u8>),
{
}

/// Compares the configured CAN bitrate with the applied one. When they
/// differ, records the configured one as applied and returns it: the caller
/// then reprograms the controller with it.
pub fn check_can_bitrate(applied: &mut u8, current: u8) -> (r: Option<u8>)
    ensures
        (*final(applied), r) == bitrate_check(*old(applied), current),
        *final(applied) == current,
        current != *old(applied) ==> r == Some(current),
        current == *old(applied) ==> r is None,
{
    if current != *applied {
        *applied = current;
        Some(current)
    } else {
        None
    }
}

/// A bitrate is programmed once: checking the same configuration again asks
/// for nothing; and before any bitrate is applied, every configured bitrate
/// but the unused code is programmed.
pub proof fn lemma_bitrate_programmed_once(applied: u8, current: u8)
    ensures
        bitrate_check(bitrate_check(applied, current).0, current) == (current, None::<u8>),
        current != UNAPPLIED_BITRATE ==> bitrate_check(UNAPPLIED_BITRATE, current).1 == Some(
            current,
        ),
{
}

/// Handles the identify command object: a non-zero command is cleared and
/// starts the strobe; a zero one changes nothing.
pub fn check_identify_command(command: &mut u8, strobe: &mut bool)
    ensures
        *old(command) != 0 ==> *final(command) == 0 && *final(strobe),
        *old(command) == 0 ==> *final(command) == 0 && *final(strobe) == *old(strobe),
{
    if *command != 0 {
        *command = 0;
        *strobe = true;
    }
}

/// Microseconds since the CAN task's epoch, the time base of node processing.
pub fn can_process_time_us(elapsed_ms: u64) -> (r: u64)
    requires
        elapsed_ms <= u64::MAX / 1000,
    ensures
        r == elapsed_ms * 1000,
{
    elapsed_ms * 1000
}

/// The frame of the identify strobe at `step`: of `count` LEDs, only the one
/// at `step` is lit.
pub open spec fn spec_strobe_frame(count: nat, step: int) -> Seq<bool> {
    Seq::new(count, |i: int| i == step)
}

/// One frame of the identify strobe: of `count` LEDs, only the one at `step`
/// is lit.
pub fn strobe_frame(count: usize, step: usize) -> (r: Vec<bool>)
    ensures
        r@ == spec_strobe_frame(count as nat, step as int),
        r@.len() == count,
        forall|i: int| 0 <= i < count ==> (#[trigger] r@[i] <==> i == step),
{
    let mut frame: Vec<bool> = Vec::new();
    let mut i: usize = 0;
    while i < count
        invariant
            i <= count,
            frame@.len() == i,
            forall|j: int| 0 <= j < i ==> frame@[j] == (j == step),
        decreases count - i,
    {
        frame.push(i == step);
        i = i + 1;
    }
    assert(frame@ =~= spec_strobe_frame(count as nat, step as int));
    frame
}

/// The level of one LED in a pass of the LED task outside a strobe: while
/// the button's flash mode is on the LED shows its channel's current, else it
/// is dark.
pub fn led_task_level(flash_mode: u8, current_ma: u32, elapsed_ms: u64, on_ms: u32) -> (r:
    PinLevel)
    ensures
        r == (if flash_mode > 0 {
            spec_led_level(current_ma, elapsed_ms, on_ms)
        } else {
            PinLevel::High
        }),
{
    if flash_mode > 0 {
        led_level(current_ma, elapsed_ms, on_ms)
    } else {
        PinLevel::High
    }
}

/// Over the `count` frames of a strobe (steps 0 to `count - 1`), each frame
/// lights exactly one LED, and each LED is lit in exactly one frame: the one
/// whose step is its own index.
pub proof fn lemma_strobe_lights_each_once(count: nat, step: int, led: int)
    requires
        0 <= step < count,
        0 <= led < count,
    ensures
        spec_strobe_frame(count, step)[step],
        spec_strobe_frame(count, step)[led] ==> led == step,
        spec_strobe_frame(count, led)[led],
        forall|s: int| 0 <= s < count && #[trigger] spec_strobe_frame(count, s)[led] ==> s == led,
{
}

} // verus!
