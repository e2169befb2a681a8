//! Event orchestration: the single consumer of the event bus.
//!
//! Each event updates the system state and may yield one command for the
//! display. Events are handled strictly in the order in which they arrive.

use vstd::prelude::*;
use crate::buffers::{push_evicting, CO2_BUFFER_CAPACITY};
use crate::display::DisplayCommand;
use crate::event::Event;
use crate::system_state::{SensorData, SystemState, SystemStateView};
use crate::watchdog::{report_task_success, SystemHealth, TaskId};

verus! {

/// The system state after `event` has been handled.
///
/// A sensor reading is stored and its CO2 value appended to the history; a
/// charging event sets the charging flag; a battery level clears the flag and
/// stores the percentage; a toggle switches the display mode, but only once a
/// sensor reading exists.
pub open spec fn state_after(state: SystemStateView, event: Event) -> SystemStateView {
    match event {
        Event::SensorData { temperature, humidity, co2, etoh, air_quality } => SystemStateView {
            co2_history: push_evicting(state.co2_history, CO2_BUFFER_CAPACITY as int, co2),
            last_sensor_data: Some(SensorData { temperature, humidity, co2, etoh, air_quality }),
            ..state
        },
        Event::BatteryCharging => SystemStateView { is_charging: true, ..state },
        Event::BatteryLevel(level) => SystemStateView {
            is_charging: false,
            battery_percent: level,
            ..state
        },
        Event::ToggleDisplayMode => if state.last_sensor_data is Some {
            SystemStateView { display_mode: state.display_mode.toggled(), ..state }
        } else {
            state
        },
    }
}

/// The display command that handling `event` in `state` yields, if any.
pub open spec fn command_for(state: SystemStateView, event: Event) -> Option<DisplayCommand> {
    match event {
        Event::SensorData { temperature, humidity, co2, etoh, air_quality } => Some(
            DisplayCommand::SensorData { temperature, humidity, co2, etoh, air_quality },
        ),
        Event::BatteryCharging => Some(DisplayCommand::BatteryCharging),
        Event::BatteryLevel(level) => Some(DisplayCommand::UpdateBatteryPercentage(level)),
        Event::ToggleDisplayMode => if state.last_sensor_data is Some {
            Some(DisplayCommand::ToggleMode)
        } else {
            None
        },
    }
}

/// The system state after `events` have been handled in order.
pub open spec fn state_after_all(state: SystemStateView, events: Seq<Event>) -> SystemStateView
    decreases events.len(),
{
    if events.len() == 0 {
        state
    } else {
        state_after(state_after_all(state, events.drop_last()), events.last())
    }
}

/// The display commands that handling `events` in order yields: one entry
/// per event, in the order of the events.
pub open spec fn commands_for_all(state: SystemStateView, events: Seq<Event>) -> Seq<
    Option<DisplayCommand>,
>
    decreases events.len(),
{
    if events.len() == 0 {
        Seq::empty()
    } else {
        commands_for_all(state, events.drop_last()).push(
            command_for(state_after_all(state, events.drop_last()), events.last()),
        )
    }
}

/// Handles one event: updates `state`, records the orchestrator's successful
/// iteration in `health`, and returns the command to send to the display, if
/// the event calls for one.
pub fn process_event(state: &mut SystemState, health: &mut SystemHealth, event: Event) -> (command:
    Option<DisplayCommand>)
    ensures
        final(state)@ == state_after(old(state)@, event),
        command == command_for(old(state)@, event),
        final(health)@ == old(health)@.report(TaskId::Orchestrator, true),
{
    let command = match event {
        Event::SensorData { temperature, humidity, co2, etoh, air_quality } => {
            let sensor_data = SensorData { temperature, humidity, co2, etoh, air_quality };
            state.add_co2_measurement(co2);
            state.set_last_sensor_data(sensor_data);
            Some(DisplayCommand::SensorData { temperature, humidity, co2, etoh, air_quality })
        },
        Event::BatteryCharging => {
            state.set_charging(true);
            Some(DisplayCommand::BatteryCharging)
        },
        Event::BatteryLevel(level) => {
            state.set_charging(false);
            state.set_battery_percent(level);
            Some(DisplayCommand::UpdateBatteryPercentage(level))
        },
        Event::ToggleDisplayMode => {
            if state.last_sensor_data().is_some() {
                state.toggle_display_mode();
                Some(DisplayCommand::ToggleMode)
            } else {
                None
            }
        },
    };
    report_task_success(health, TaskId::Orchestrator);
    command
}

/// A toggle that arrives before any sensor reading does nothing: the state is
/// unchanged and no command is sent.
pub proof fn lemma_toggle_without_reading_is_noop(state: SystemStateView)
    requires
        state.last_sensor_data is None,
    ensures
        state_after(state, Event::ToggleDisplayMode) == state,
        command_for(state, Event::ToggleDisplayMode) is None,
{
}

/// Once a sensor reading exists, a toggle sends exactly the mode-toggle
/// command and flips the display mode, leaving everything else as it was; a
/// second toggle flips it back.
pub proof fn lemma_toggle_with_reading_flips_mode(state: SystemStateView)
    requires
        state.last_sensor_data is Some,
    ensures
        command_for(state, Event::ToggleDisplayMode) == Some(DisplayCommand::ToggleMode),
        state_after(state, Event::ToggleDisplayMode) == (SystemStateView {
            display_mode: state.display_mode.toggled(),
            ..state
        }),
        state_after(state, Event::ToggleDisplayMode).display_mode != state.display_mode,
        state_after(state_after(state, Event::ToggleDisplayMode), Event::ToggleDisplayMode)
            == state,
{
}

/// Handling events keeps their order and drops none: there is one entry of
/// commands per event, and the entry of each event is what that event yields
/// in the state reached by the events before it.
pub proof fn lemma_commands_follow_events(state: SystemStateView, events: Seq<Event>, i: int)
    requires
        0 <= i < events.len(),
    ensures
        commands_for_all(state, events).len() == events.len(),
        commands_for_all(state, events)[i] == command_for(
            state_after_all(state, events.take(i)),
            events[i],
        ),
    decreases events.len(),
{
    lemma_commands_len(state, events);
    if i == events.len() - 1 {
        assert(events.take(i) =~= events.drop_last());
    } else {
        lemma_commands_follow_events(state, events.drop_last(), i);
        assert(events.drop_last().take(i) =~= events.take(i));
    }
}

/// There is one entry of commands per event.
proof fn lemma_commands_len(state: SystemStateView, events: Seq<Event>)
    ensures
        commands_for_all(state, events).len() == events.len(),
    decreases events.len(),
{
    if events.len() > 0 {
        lemma_commands_len(state, events.drop_last());
    }
}

/// Starting without a sensor reading, a reading exists after a run of events
/// exactly if one of them was a sensor reading.
pub proof fn lemma_reading_exists_iff_observed(state: SystemStateView, events: Seq<Event>)
    requires
        state.last_sensor_data is None,
    ensures
        state_after_all(state, events).last_sensor_data is Some <==> exists|j: int|
            0 <= j < events.len() && #[trigger] events[j] is SensorData,
    decreases events.len(),
{
    if events.len() > 0 {
        let earlier = events.drop_last();
        lemma_reading_exists_iff_observed(state, earlier);
        if state_after_all(state, events).last_sensor_data is Some {
            if events.last() is SensorData {
                assert(events[events.len() - 1] is SensorData);
            } else {
                let j = choose|j: int| 0 <= j < earlier.len() && #[trigger] earlier[j] is SensorData;
                assert(events[j] is SensorData);
            }
        }
        if exists|j: int| 0 <= j < events.len() && #[trigger] events[j] is SensorData {
            let j = choose|j: int| 0 <= j < events.len() && #[trigger] events[j] is SensorData;
            if j < earlier.len() {
                assert(earlier[j] is SensorData);
            }
        }
    }
}

/// The mode-toggle command is never sent without a sensor reading having
/// been observed before: starting without a reading, whenever the command of
/// an event is the mode toggle, an earlier event was a sensor reading.
pub proof fn lemma_toggle_mode_needs_prior_reading(
    state: SystemStateView,
    events: Seq<Event>,
    i: int,
)
    requires
        state.last_sensor_data is None,
        0 <= i < events.len(),
        commands_for_all(state, events)[i] == Some(DisplayCommand::ToggleMode),
    ensures
        events[i] is ToggleDisplayMode,
        exists|j: int| 0 <= j < i && #[trigger] events[j] is SensorData,
{
    lemma_commands_follow_events(state, events, i);
    lemma_reading_exists_iff_observed(state, events.take(i));
    let j = choose|j: int| 0 <= j < events.take(i).len() && #[trigger] events.take(i)[j] is SensorData;
    assert(events[j] is SensorData);
}

} // verus!
