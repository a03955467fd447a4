//! The firmware proper: the closed set of recurring tasks over the shared
//! state, driven by the dispatch loop.
//!
//! A tick hands in the current counter value and the raw sensor readings;
//! dispatch picks the due task, runs its handler at its static priority,
//! and hands back what the display edge must draw. Handlers touch shared
//! state only inside priority-ceiling sections and end by rescheduling
//! themselves at `scheduled + period` -- except the event-triggered ones,
//! which stay idle until they are armed again.

use vstd::prelude::*;

use crate::animator::{Animator, FramePlan, Rect, spec_bounces, spec_erase_rect};
use crate::arbiter::{Resource, ResourceArbiter};
use crate::backlight::{Backlight, MAX_BRIGHTNESS};
use crate::battery::{BatteryStatus, spec_stored_voltage};
use crate::ble::BleBridge;
use crate::clock::wrap_add;
use crate::debounce::{Debouncer, Edge, spec_edge, spec_shift};
use crate::sched::{TaskKind, TaskScheduler, coalesce, kind_priority, priority_of};
use crate::textfmt::{spec_battery_line, spec_decimal_digits};

verus! {

/// Period of the button poll task, in ticks: every two milliseconds.
pub const POLL_BUTTON_PERIOD: u32 = 2;

/// Period of the counter redraw task: once a second.
pub const WRITE_COUNTER_PERIOD: u32 = 1000;

/// Period of the animation task: twenty-five frames a second.
pub const WRITE_FERRIS_PERIOD: u32 = 40;

/// Period of the battery sampling task: once a second.
pub const UPDATE_BATTERY_PERIOD: u32 = 1000;

/// Packets either radio ring can hold.
pub const BLE_RING_CAPACITY: usize = 4;

/// Ceiling priority of every piece of state shared only among the regular
/// housekeeping tasks: they all run at the base priority.
pub const UI_CEILING: u8 = 1;

/// Raw readings taken at the edge just before a dispatch tick.
#[derive(Clone, Copy, PartialEq, Eq, Structural, Debug)]
pub struct SensorInputs {
    /// Button line level; high means pressed.
    pub button_pressed: bool,
    /// Charge-indicator line; high means a charger is connected.
    pub charging: bool,
    /// Raw ADC code of the battery voltage divider.
    pub raw_voltage: i16,
}

/// One drawing order for the display edge.
pub enum DrawOp {
    /// Draw the sprite with its top-left corner at the point.
    Sprite { x: i32, y: i32 },
    /// Fill the rectangle with the background color.
    FillRect { rect: Rect },
    /// Draw the counter text at its fixed spot.
    CounterText { text: Vec<u8> },
    /// Draw the battery status text in the top right corner.
    BatteryText { text: Vec<u8> },
}

/// What one dispatch tick did: the task that ran, its drawing orders, and
/// the protocol packets the radio worker drained.
pub struct StepRun {
    pub kind: TaskKind,
    pub draws: Vec<DrawOp>,
    pub ble_packets: Vec<Vec<u8>>,
}

/// The whole firmware state: the pending-task table, the radio handoff
/// rings, and the shared state of the housekeeping tasks, each piece behind
/// its ceiling-tagged resource.
pub struct Firmware {
    pub sched: TaskScheduler,
    pub ble: BleBridge,
    pub button: Resource<Debouncer>,
    pub backlight: Resource<Backlight>,
    pub battery: Resource<BatteryStatus>,
    pub animator: Resource<Animator>,
    pub counter: Resource<u64>,
}

/// A counter bumped by one, wrapping at the top of its range.
pub open spec fn spec_counter_next(c: u64) -> u64 {
    if c == u64::MAX {
        0
    } else {
        (c + 1) as u64
    }
}

impl Firmware {
    /// Every component is well-formed and every resource carries the
    /// ceiling computed for it: all its accessors run at the base priority.
    pub open spec fn wf(self) -> bool {
        &&& self.sched.wf()
        &&& self.ble.wf()
        &&& self.button.value.wf()
        &&& self.backlight.value.wf()
        &&& self.animator.value.wf()
        &&& self.button.ceiling == UI_CEILING
        &&& self.backlight.ceiling == UI_CEILING
        &&& self.battery.ceiling == UI_CEILING
        &&& self.animator.ceiling == UI_CEILING
        &&& self.counter.ceiling == UI_CEILING
    }

    /// Bring the system up: take the first battery readings, light the
    /// backlight at its lowest level, and schedule every periodic task to
    /// run at once. The event-triggered kinds stay idle until armed.
    pub fn init(now: u32, charging: bool, raw_voltage: i16) -> (fw: Firmware)
        ensures
            fw.wf(),
            fw.sched.pending(TaskKind::WriteCounter) == Some(now),
            fw.sched.pending(TaskKind::WriteFerris) == Some(now),
            fw.sched.pending(TaskKind::PollButton) == Some(now),
            fw.sched.pending(TaskKind::UpdateBatteryStatus) == Some(now),
            fw.sched.pending(TaskKind::ShowBatteryStatus) == Some(now),
            fw.sched.pending(TaskKind::ButtonPressed) is None,
            fw.sched.pending(TaskKind::BleWorker) is None,
            fw.counter.value == 0,
            fw.button.value.history == 0 && fw.button.value.level == false,
            fw.backlight.value.brightness == 1,
            fw.battery.value.charging == charging,
            fw.battery.value.voltage == spec_stored_voltage(raw_voltage),
            fw.battery.value.percent == 37,
            fw.animator.value == (Animator { x_offset: 10, y_offset: 80, step_size: 2 }),
            fw.ble.rx.items@.len() == 0 && fw.ble.tx.items@.len() == 0,
            fw.ble.rx.capacity == BLE_RING_CAPACITY && fw.ble.tx.capacity == BLE_RING_CAPACITY,
    {
        let mut sched = TaskScheduler::new();
        sched.schedule(TaskKind::WriteCounter, now);
        sched.schedule(TaskKind::WriteFerris, now);
        sched.schedule(TaskKind::PollButton, now);
        sched.schedule(TaskKind::ShowBatteryStatus, now);
        sched.schedule(TaskKind::UpdateBatteryStatus, now);
        Firmware {
            sched,
            ble: BleBridge::new(BLE_RING_CAPACITY),
            button: Resource::new(UI_CEILING, Debouncer::new()),
            backlight: Resource::new(UI_CEILING, Backlight::init(1)),
            battery: Resource::new(UI_CEILING, BatteryStatus::init(charging, raw_voltage)),
            animator: Resource::new(UI_CEILING, Animator::new()),
            counter: Resource::new(UI_CEILING, 0),
        }
    }

    /// Redraw the counter and bump it, then reschedule one period after
    /// the invocation this handler was due at.
    ///
    /// The handler runs at the task's static priority; whatever path it
    /// takes, it leaves no section open and restores that priority.
    pub fn write_counter_task(&mut self, arb: &mut ResourceArbiter, scheduled: u32) -> (text: Vec<
        u8,
    >)
        requires
            old(self).wf(),
            old(arb).wf(),
            old(arb).active_ceiling is None,
            old(arb).task_priority == kind_priority(TaskKind::WriteCounter),
        ensures
            final(self).wf(),
            final(arb).wf(),
            final(arb).active_ceiling is None,
            final(arb).effective == old(arb).task_priority,
            final(arb).task_priority == old(arb).task_priority,
            text@ == spec_decimal_digits(old(self).counter.value as int),
            final(self).counter.value == spec_counter_next(old(self).counter.value),
            final(self).sched.pending(TaskKind::WriteCounter) == coalesce(
                old(self).sched.pending(TaskKind::WriteCounter),
                wrap_add(scheduled, WRITE_COUNTER_PERIOD),
            ),
            forall|j: TaskKind|
                j != TaskKind::WriteCounter ==> final(self).sched.pending(j) == old(self).sched.pending(j),
            final(self).ble == old(self).ble,
            final(self).button == old(self).button,
            final(self).backlight == old(self).backlight,
            final(self).battery == old(self).battery,
            final(self).animator == old(self).animator,
            final(self).counter.ceiling == old(self).counter.ceiling,
    {
        arb.enter(UI_CEILING);
        let value = *self.counter.get(&arb);
        let text = crate::textfmt::decimal_digits(value);
        let next = if value == u64::MAX {
            0
        } else {
            value + 1
        };
        self.counter.set(&arb, next);
        arb.exit();
        let due = crate::clock::add_duration(scheduled, WRITE_COUNTER_PERIOD);
        self.sched.schedule(TaskKind::WriteCounter, due);
        text
    }

    /// Advance the animation one frame and plan its redraw, then
    /// reschedule for the next frame.
    pub fn write_ferris_task(&mut self, arb: &mut ResourceArbiter, scheduled: u32) -> (plan:
        FramePlan)
        requires
            old(self).wf(),
            old(arb).wf(),
            old(arb).active_ceiling is None,
            old(arb).task_priority == kind_priority(TaskKind::WriteFerris),
        ensures
            final(self).wf(),
            final(arb).wf(),
            final(arb).active_ceiling is None,
            final(arb).effective == old(arb).task_priority,
            final(arb).task_priority == old(arb).task_priority,
            plan.sprite_x == old(self).animator.value.x_offset,
            plan.sprite_y == old(self).animator.value.y_offset,
            plan.erase == spec_erase_rect(
                old(self).animator.value.x_offset as int,
                old(self).animator.value.y_offset as int,
                old(self).animator.value.step_size as int,
            ),
            final(self).animator.value.step_size == (if spec_bounces(
                old(self).animator.value.x_offset as int,
            ) {
                -old(self).animator.value.step_size
            } else {
                old(self).animator.value.step_size as int
            }),
            final(self).animator.value.x_offset == old(self).animator.value.x_offset + final(self).animator.value.step_size,
            final(self).animator.value.y_offset == old(self).animator.value.y_offset,
            final(self).sched.pending(TaskKind::WriteFerris) == coalesce(
                old(self).sched.pending(TaskKind::WriteFerris),
                wrap_add(scheduled, WRITE_FERRIS_PERIOD),
            ),
            forall|j: TaskKind|
                j != TaskKind::WriteFerris ==> final(self).sched.pending(j) == old(self).sched.pending(j),
            final(self).ble == old(self).ble,
            final(self).button == old(self).button,
            final(self).backlight == old(self).backlight,
            final(self).battery == old(self).battery,
            final(self).counter == old(self).counter,
            final(self).animator.ceiling == old(self).animator.ceiling,
    {
        arb.enter(UI_CEILING);
        let anim = self.animator.borrow_mut(&arb);
        let plan = anim.tick();
        arb.exit();
        let due = crate::clock::add_duration(scheduled, WRITE_FERRIS_PERIOD);
        self.sched.schedule(TaskKind::WriteFerris, due);
        plan
    }

    /// Debounce one button sample; a rising edge arms the button-press
    /// task to run now. Reschedules the next poll.
    pub fn poll_button_task(
        &mut self,
        arb: &mut ResourceArbiter,
        now: u32,
        scheduled: u32,
        pressed_raw: bool,
    ) -> (edge: Option<Edge>)
        requires
            old(self).wf(),
            old(arb).wf(),
            old(arb).active_ceiling is None,
            old(arb).task_priority == kind_priority(TaskKind::PollButton),
        ensures
            final(self).wf(),
            final(arb).wf(),
            final(arb).active_ceiling is None,
            final(arb).effective == old(arb).task_priority,
            final(arb).task_priority == old(arb).task_priority,
            final(self).button.value.history == spec_shift(
                old(self).button.value.history,
                pressed_raw,
            ),
            edge == spec_edge(
                final(self).button.value.history,
                old(self).button.value.level,
                pressed_raw,
            ),
            final(self).button.value.level == (match edge {
                Some(Edge::Rising) => true,
                Some(Edge::Falling) => false,
                None => old(self).button.value.level,
            }),
            final(self).sched.pending(TaskKind::PollButton) == coalesce(
                old(self).sched.pending(TaskKind::PollButton),
                wrap_add(scheduled, POLL_BUTTON_PERIOD),
            ),
            final(self).sched.pending(TaskKind::ButtonPressed) == (if edge == Some(Edge::Rising) {
                coalesce(old(self).sched.pending(TaskKind::ButtonPressed), now)
            } else {
                old(self).sched.pending(TaskKind::ButtonPressed)
            }),
            forall|j: TaskKind|
                j != TaskKind::PollButton && j != TaskKind::ButtonPressed ==> final(self).sched.pending(j) == old(self).sched.pending(j),
            final(self).ble == old(self).ble,
            final(self).backlight == old(self).backlight,
            final(self).battery == old(self).battery,
            final(self).animator == old(self).animator,
            final(self).counter == old(self).counter,
            final(self).button.ceiling == old(self).button.ceiling,
    {
        arb.enter(UI_CEILING);
        let deb = self.button.borrow_mut(&arb);
        let edge = deb.update(pressed_raw);
        arb.exit();
        if edge == Some(Edge::Rising) {
            self.sched.schedule(TaskKind::ButtonPressed, now);
        }
        let due = crate::clock::add_duration(scheduled, POLL_BUTTON_PERIOD);
        self.sched.schedule(TaskKind::PollButton, due);
        edge
    }

    /// React to a debounced press: step the backlight brighter, or turn it
    /// off from the top level. Event-triggered; does not reschedule.
    pub fn button_pressed_task(&mut self, arb: &mut ResourceArbiter)
        requires
            old(self).wf(),
            old(arb).wf(),
            old(arb).active_ceiling is None,
            old(arb).task_priority == kind_priority(TaskKind::ButtonPressed),
        ensures
            final(self).wf(),
            final(arb).wf(),
            final(arb).active_ceiling is None,
            final(arb).effective == old(arb).task_priority,
            final(arb).task_priority == old(arb).task_priority,
            final(self).backlight.value.brightness == (if old(self).backlight.value.brightness
                < MAX_BRIGHTNESS {
                old(self).backlight.value.brightness + 1
            } else {
                0int
            }),
            final(self).sched == old(self).sched,
            final(self).ble == old(self).ble,
            final(self).button == old(self).button,
            final(self).battery == old(self).battery,
            final(self).animator == old(self).animator,
            final(self).counter == old(self).counter,
            final(self).backlight.ceiling == old(self).backlight.ceiling,
    {
        arb.enter(UI_CEILING);
        let bl = self.backlight.borrow_mut(&arb);
        if bl.get_brightness() < MAX_BRIGHTNESS {
            bl.brighter();
        } else {
            bl.off();
        }
        arb.exit();
    }

    /// Take fresh battery readings; on any change, arm the status redraw
    /// to run now. Reschedules the next sample.
    pub fn update_battery_status_task(
        &mut self,
        arb: &mut ResourceArbiter,
        now: u32,
        scheduled: u32,
        charging: bool,
        raw_voltage: i16,
    ) -> (changed: bool)
        requires
            old(self).wf(),
            old(arb).wf(),
            old(arb).active_ceiling is None,
            old(arb).task_priority == kind_priority(TaskKind::UpdateBatteryStatus),
        ensures
            final(self).wf(),
            final(arb).wf(),
            final(arb).active_ceiling is None,
            final(arb).effective == old(arb).task_priority,
            final(arb).task_priority == old(arb).task_priority,
            final(self).battery.value.charging == charging,
            final(self).battery.value.voltage == spec_stored_voltage(raw_voltage),
            final(self).battery.value.percent == old(self).battery.value.percent,
            changed == (old(self).battery.value.charging != charging
                || old(self).battery.value.voltage != spec_stored_voltage(raw_voltage)),
            final(self).sched.pending(TaskKind::UpdateBatteryStatus) == coalesce(
                old(self).sched.pending(TaskKind::UpdateBatteryStatus),
                wrap_add(scheduled, UPDATE_BATTERY_PERIOD),
            ),
            final(self).sched.pending(TaskKind::ShowBatteryStatus) == (if changed {
                coalesce(old(self).sched.pending(TaskKind::ShowBatteryStatus), now)
            } else {
                old(self).sched.pending(TaskKind::ShowBatteryStatus)
            }),
            forall|j: TaskKind|
                j != TaskKind::UpdateBatteryStatus && j != TaskKind::ShowBatteryStatus ==> final(self).sched.pending(j) == old(self).sched.pending(j),
            final(self).ble == old(self).ble,
            final(self).button == old(self).button,
            final(self).backlight == old(self).backlight,
            final(self).animator == old(self).animator,
            final(self).counter == old(self).counter,
            final(self).battery.ceiling == old(self).battery.ceiling,
    {
        arb.enter(UI_CEILING);
        let bat = self.battery.borrow_mut(&arb);
        let changed = bat.update(charging, raw_voltage);
        arb.exit();
        if changed {
            self.sched.schedule(TaskKind::ShowBatteryStatus, now);
        }
        let due = crate::clock::add_duration(scheduled, UPDATE_BATTERY_PERIOD);
        self.sched.schedule(TaskKind::UpdateBatteryStatus, due);
        changed
    }

    /// Build the battery status text from the stored readings.
    /// Event-triggered; does not reschedule.
    pub fn show_battery_status_task(&mut self, arb: &mut ResourceArbiter) -> (text: Vec<u8>)
        requires
            old(self).wf(),
            old(arb).wf(),
            old(arb).active_ceiling is None,
            old(arb).task_priority == kind_priority(TaskKind::ShowBatteryStatus),
        ensures
            final(self).wf(),
            final(arb).wf(),
            final(arb).active_ceiling is None,
            final(arb).effective == old(arb).task_priority,
            final(arb).task_priority == old(arb).task_priority,
            text@ == spec_battery_line(
                old(self).battery.value.voltage,
                old(self).battery.value.charging,
            ),
            *final(self) == *old(self),
    {
        arb.enter(UI_CEILING);
        let voltage = self.battery.get(&arb).voltage();
        let charging = self.battery.get(&arb).is_charging();
        arb.exit();
        crate::textfmt::format_battery_line(voltage, charging)
    }

    /// Drain the queued radio protocol work to exhaustion and hand the
    /// packets on. Event-triggered: armed by the hard interrupts, never by
    /// itself.
    pub fn ble_worker_task(&mut self) -> (packets: Vec<Vec<u8>>)
        requires
            old(self).wf(),
        ensures
            final(self).wf(),
            packets@ == old(self).ble.rx.items@,
            final(self).ble.rx.items@.len() == 0,
            final(self).ble.rx.capacity == old(self).ble.rx.capacity,
            final(self).ble.tx == old(self).ble.tx,
            final(self).sched == old(self).sched,
            final(self).button == old(self).button,
            final(self).backlight == old(self).backlight,
            final(self).battery == old(self).battery,
            final(self).animator == old(self).animator,
            final(self).counter == old(self).counter,
    {
        self.ble.worker_drain()
    }

    /// One dispatch tick at counter value `now`: run the due task with the
    /// earliest due time (ties to the higher static priority) and report
    /// what it did; `None`, and no change, when nothing is due.
    pub fn step(&mut self, now: u32, inputs: SensorInputs) -> (r: Option<StepRun>)
        requires
            old(self).wf(),
        ensures
            final(self).wf(),
            match r {
                None => {
                    &&& *final(self) == *old(self)
                    &&& forall|k: TaskKind| !old(self).sched.is_due(now, k)
                },
                Some(run) => {
                    &&& old(self).sched.is_due(now, run.kind)
                    &&& forall|j: TaskKind|
                        old(self).sched.is_due(now, j) ==> old(self).sched.overdue_by(now, j)
                            <= old(self).sched.overdue_by(now, run.kind)
                    &&& forall|j: TaskKind|
                        old(self).sched.is_due(now, j) && old(self).sched.overdue_by(now, j)
                            == old(self).sched.overdue_by(now, run.kind) ==> kind_priority(j)
                            <= kind_priority(run.kind)
                    &&& step_post(*old(self), *final(self), run, now, inputs)
                },
            },
    {
        let dispatched = self.sched.dispatch_due(now);
        match dispatched {
            None => None,
            Some(h) => {
                // the handler's executing context, at the task's static
                // priority and outside any section
                let mut arb = ResourceArbiter::begin(priority_of(h.kind));
                let mut draws: Vec<DrawOp> = Vec::new();
                let mut ble_packets: Vec<Vec<u8>> = Vec::new();
                match h.kind {
                    TaskKind::WriteCounter => {
                        let text = self.write_counter_task(&mut arb, h.due_time);
                        draws.push(DrawOp::CounterText { text });
                    },
                    TaskKind::WriteFerris => {
                        let plan = self.write_ferris_task(&mut arb, h.due_time);
                        draws.push(DrawOp::Sprite { x: plan.sprite_x, y: plan.sprite_y });
                        draws.push(DrawOp::FillRect { rect: plan.erase });
                    },
                    TaskKind::PollButton => {
                        self.poll_button_task(&mut arb, now, h.due_time, inputs.button_pressed);
                    },
                    TaskKind::ButtonPressed => {
                        self.button_pressed_task(&mut arb);
                    },
                    TaskKind::UpdateBatteryStatus => {
                        self.update_battery_status_task(
                            &mut arb,
                            now,
                            h.due_time,
                            inputs.charging,
                            inputs.raw_voltage,
                        );
                    },
                    TaskKind::ShowBatteryStatus => {
                        let text = self.show_battery_status_task(&mut arb);
                        draws.push(DrawOp::BatteryText { text });
                    },
                    TaskKind::BleWorker => {
                        // the handoff rings have disjoint producer and
                        // consumer halves and need no section
                        ble_packets = self.ble_worker_task();
                    },
                }
                Some(StepRun { kind: h.kind, draws, ble_packets })
            },
        }
    }
}

/// The exact effect of one dispatched task, stated against the state the
/// tick started from. `pre.sched.pending(run.kind)` is the dispatched
/// entry, so its due time is available as the base of the reschedule.
pub open spec fn step_post(
    pre: Firmware,
    post: Firmware,
    run: StepRun,
    now: u32,
    inputs: SensorInputs,
) -> bool {
    let due = pre.sched.pending(run.kind)->0;
    match run.kind {
        TaskKind::WriteCounter => {
            &&& post.counter.value == spec_counter_next(pre.counter.value)
            &&& run.draws@.len() == 1
            &&& (run.draws@[0] matches DrawOp::CounterText { text } && text@
                == spec_decimal_digits(pre.counter.value as int))
            &&& run.ble_packets@.len() == 0
            &&& post.sched.pending(TaskKind::WriteCounter) == Some(
                wrap_add(due, WRITE_COUNTER_PERIOD),
            )
            &&& forall|j: TaskKind|
                j != TaskKind::WriteCounter ==> post.sched.pending(j) == pre.sched.pending(j)
            &&& post.ble == pre.ble
            &&& post.button == pre.button
            &&& post.backlight == pre.backlight
            &&& post.battery == pre.battery
            &&& post.animator == pre.animator
        },
        TaskKind::WriteFerris => {
            let anim = pre.animator.value;
            &&& run.draws@.len() == 2
            &&& (run.draws@[0] matches DrawOp::Sprite { x, y } && x == anim.x_offset && y
                == anim.y_offset)
            &&& (run.draws@[1] matches DrawOp::FillRect { rect } && rect == spec_erase_rect(
                anim.x_offset as int,
                anim.y_offset as int,
                anim.step_size as int,
            ))
            &&& run.ble_packets@.len() == 0
            &&& post.animator.value.step_size == (if spec_bounces(anim.x_offset as int) {
                -anim.step_size
            } else {
                anim.step_size as int
            })
            &&& post.animator.value.x_offset == anim.x_offset + post.animator.value.step_size
            &&& post.animator.value.y_offset == anim.y_offset
            &&& post.sched.pending(TaskKind::WriteFerris) == Some(
                wrap_add(due, WRITE_FERRIS_PERIOD),
            )
            &&& forall|j: TaskKind|
                j != TaskKind::WriteFerris ==> post.sched.pending(j) == pre.sched.pending(j)
            &&& post.ble == pre.ble
            &&& post.button == pre.button
            &&& post.backlight == pre.backlight
            &&& post.battery == pre.battery
            &&& post.counter == pre.counter
        },
        TaskKind::PollButton => {
            let deb = pre.button.value;
            let shifted = spec_shift(deb.history, inputs.button_pressed);
            let edge = spec_edge(shifted, deb.level, inputs.button_pressed);
            &&& run.draws@.len() == 0
            &&& run.ble_packets@.len() == 0
            &&& post.button.value.history == shifted
            &&& post.button.value.level == (match edge {
                Some(Edge::Rising) => true,
                Some(Edge::Falling) => false,
                None => deb.level,
            })
            &&& post.sched.pending(TaskKind::PollButton) == Some(
                wrap_add(due, POLL_BUTTON_PERIOD),
            )
            &&& post.sched.pending(TaskKind::ButtonPressed) == (if edge == Some(Edge::Rising) {
                coalesce(pre.sched.pending(TaskKind::ButtonPressed), now)
            } else {
                pre.sched.pending(TaskKind::ButtonPressed)
            })
            &&& forall|j: TaskKind|
                j != TaskKind::PollButton && j != TaskKind::ButtonPressed ==> post.sched.pending(j)
                    == pre.sched.pending(j)
            &&& post.ble == pre.ble
            &&& post.backlight == pre.backlight
            &&& post.battery == pre.battery
            &&& post.animator == pre.animator
            &&& post.counter == pre.counter
        },
        TaskKind::ButtonPressed => {
            &&& run.draws@.len() == 0
            &&& run.ble_packets@.len() == 0
            &&& post.backlight.value.brightness == (if pre.backlight.value.brightness
                < MAX_BRIGHTNESS {
                pre.backlight.value.brightness + 1
            } else {
                0int
            })
            &&& post.sched.pending(TaskKind::ButtonPressed) is None
            &&& forall|j: TaskKind|
                j != TaskKind::ButtonPressed ==> post.sched.pending(j) == pre.sched.pending(j)
            &&& post.ble == pre.ble
            &&& post.button == pre.button
            &&& post.battery == pre.battery
            &&& post.animator == pre.animator
            &&& post.counter == pre.counter
        },
        TaskKind::UpdateBatteryStatus => {
            let stored = spec_stored_voltage(inputs.raw_voltage);
            let changed = pre.battery.value.charging != inputs.charging
                || pre.battery.value.voltage != stored;
            &&& run.draws@.len() == 0
            &&& run.ble_packets@.len() == 0
            &&& post.battery.value.charging == inputs.charging
            &&& post.battery.value.voltage == stored
            &&& post.battery.value.percent == pre.battery.value.percent
            &&& post.sched.pending(TaskKind::UpdateBatteryStatus) == Some(
                wrap_add(due, UPDATE_BATTERY_PERIOD),
            )
            &&& post.sched.pending(TaskKind::ShowBatteryStatus) == (if changed {
                coalesce(pre.sched.pending(TaskKind::ShowBatteryStatus), now)
            } else {
                pre.sched.pending(TaskKind::ShowBatteryStatus)
            })
            &&& forall|j: TaskKind|
                j != TaskKind::UpdateBatteryStatus && j != TaskKind::ShowBatteryStatus
                    ==> post.sched.pending(j) == pre.sched.pending(j)
            &&& post.ble == pre.ble
            &&& post.button == pre.button
            &&& post.backlight == pre.backlight
            &&& post.animator == pre.animator
            &&& post.counter == pre.counter
        },
        TaskKind::ShowBatteryStatus => {
            &&& run.draws@.len() == 1
            &&& (run.draws@[0] matches DrawOp::BatteryText { text } && text@ == spec_battery_line(
                pre.battery.value.voltage,
                pre.battery.value.charging,
            ))
            &&& run.ble_packets@.len() == 0
            &&& post.sched.pending(TaskKind::ShowBatteryStatus) is None
            &&& forall|j: TaskKind|
                j != TaskKind::ShowBatteryStatus ==> post.sched.pending(j) == pre.sched.pending(j)
            &&& post.ble == pre.ble
            &&& post.button == pre.button
            &&& post.backlight == pre.backlight
            &&& post.battery == pre.battery
            &&& post.animator == pre.animator
            &&& post.counter == pre.counter
        },
        TaskKind::BleWorker => {
            &&& run.draws@.len() == 0
            &&& run.ble_packets@ == pre.ble.rx.items@
            &&& post.ble.rx.items@.len() == 0
            &&& post.ble.rx.capacity == pre.ble.rx.capacity
            &&& post.ble.tx == pre.ble.tx
            &&& post.sched.pending(TaskKind::BleWorker) is None
            &&& forall|j: TaskKind|
                j != TaskKind::BleWorker ==> post.sched.pending(j) == pre.sched.pending(j)
            &&& post.button == pre.button
            &&& post.backlight == pre.backlight
            &&& post.battery == pre.battery
            &&& post.animator == pre.animator
            &&& post.counter == pre.counter
        },
    }
}

} // verus!
