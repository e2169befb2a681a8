//! Commands sent to the display, and what the display makes of them: which
//! part of the screen a command redraws, and how the CO2 history is laid out
//! as a bar chart. Putting pixels on the screen is left to the caller.

use vstd::prelude::*;
use ens160_aq::data::AirQualityIndex;
use crate::system_state::{BatteryLevel, DisplayMode};

verus! {

/// Number of commands the display's queue holds before the orchestrator has
/// to wait.
pub const DISPLAY_CHANNEL_CAPACITY: usize = 3;

/// Interval, in seconds, at which the display is asked to switch views.
pub const TOGGLE_MODE_INTERVAL_S: u64 = 10;

/// A command for the display.
#[derive(Debug, PartialEq, Copy, Clone)]
pub enum DisplayCommand {
    /// Show this sensor reading.
    SensorData {
        /// Temperature in thousandths of a degree Celsius.
        temperature: i32,
        /// Humidity in thousandths of %RH.
        humidity: i32,
        /// Equivalent CO2 in ppm.
        co2: u16,
        /// Ethanol in ppb.
        etoh: u16,
        /// Air quality index.
        air_quality: AirQualityIndex,
    },
    /// Show the charging indicator.
    BatteryCharging,
    /// Show this battery percentage.
    UpdateBatteryPercentage(u8),
    /// Redraw in the display mode that has just been switched to.
    ToggleMode,
}

/// Top of the bar chart, in pixels from the top of the screen.
pub const CHART_START_Y: i32 = 17;

/// Height of the bar chart in pixels.
pub const CHART_HEIGHT: i32 = 39;

/// Width of the bar chart in pixels.
pub const CHART_WIDTH: i32 = 128;

/// The part of the screen that is cleared before drawing.
#[derive(Debug, Clone, Copy, PartialEq, Eq, Structural)]
pub enum ClearArea {
    /// Everything but the battery icon.
    Main,
    /// The battery icon only.
    Battery,
}

/// What is drawn into the main area.
#[derive(Debug, Clone, Copy, PartialEq, Eq, Structural)]
pub enum MainContent {
    /// Nothing: the main area is left as it is.
    Unchanged,
    /// The current sensor values.
    SensorValues,
    /// The bar chart of the CO2 history.
    Co2Chart,
    /// The message shown until the first reading arrives.
    Initializing,
}

/// What the display does for one command. The battery icon is drawn after
/// every command.
#[derive(Debug, Clone, Copy, PartialEq, Eq, Structural)]
pub struct RedrawPlan {
    /// The part of the screen to clear first.
    pub clear: ClearArea,
    /// What to draw into the main area.
    pub content: MainContent,
}

/// The content that shows a sensor reading in display mode `mode`.
pub open spec fn content_for_mode(mode: DisplayMode) -> MainContent {
    match mode {
        DisplayMode::RawData => MainContent::SensorValues,
        DisplayMode::Co2History => MainContent::Co2Chart,
    }
}

/// What the display does for `command` in display mode `mode`.
///
/// A sensor reading redraws the main area in the current mode. Battery
/// commands touch the battery icon only. A mode toggle redraws the main area
/// in the current mode if a reading exists, and with the start-up message
/// otherwise.
pub open spec fn redraw_plan_for(
    command: DisplayCommand,
    mode: DisplayMode,
    has_sensor_data: bool,
) -> RedrawPlan {
    match command {
        DisplayCommand::SensorData { .. } => RedrawPlan {
            clear: ClearArea::Main,
            content: content_for_mode(mode),
        },
        DisplayCommand::BatteryCharging => RedrawPlan {
            clear: ClearArea::Battery,
            content: MainContent::Unchanged,
        },
        DisplayCommand::UpdateBatteryPercentage(_) => RedrawPlan {
            clear: ClearArea::Battery,
            content: MainContent::Unchanged,
        },
        DisplayCommand::ToggleMode => RedrawPlan {
            clear: ClearArea::Main,
            content: if has_sensor_data {
                content_for_mode(mode)
            } else {
                MainContent::Initializing
            },
        },
    }
}

/// Decides what the display does for `command`.
pub fn plan_redraw(command: &DisplayCommand, mode: DisplayMode, has_sensor_data: bool) -> (plan:
    RedrawPlan)
    ensures
        plan == redraw_plan_for(*command, mode, has_sensor_data),
{
    let by_mode = match mode {
        DisplayMode::RawData => MainContent::SensorValues,
        DisplayMode::Co2History => MainContent::Co2Chart,
    };
    match command {
        DisplayCommand::SensorData { .. } => RedrawPlan { clear: ClearArea::Main, content: by_mode },
        DisplayCommand::BatteryCharging => RedrawPlan {
            clear: ClearArea::Battery,
            content: MainContent::Unchanged,
        },
        DisplayCommand::UpdateBatteryPercentage(_) => RedrawPlan {
            clear: ClearArea::Battery,
            content: MainContent::Unchanged,
        },
        DisplayCommand::ToggleMode => RedrawPlan {
            clear: ClearArea::Main,
            content: if has_sensor_data {
                by_mode
            } else {
                MainContent::Initializing
            },
        },
    }
}

/// Position of the icon for a battery level among the six level icons;
/// `None` stands for the mains icon shown while charging.
pub fn battery_icon_index(level: BatteryLevel) -> (index: Option<usize>)
    ensures
        index == match level {
            BatteryLevel::Charging => None::<usize>,
            BatteryLevel::Bat000 => Some(0usize),
            BatteryLevel::Bat020 => Some(1usize),
            BatteryLevel::Bat040 => Some(2usize),
            BatteryLevel::Bat060 => Some(3usize),
            BatteryLevel::Bat080 => Some(4usize),
            BatteryLevel::Bat100 => Some(5usize),
        },
{
    match level {
        BatteryLevel::Charging => None,
        BatteryLevel::Bat000 => Some(0),
        BatteryLevel::Bat020 => Some(1),
        BatteryLevel::Bat040 => Some(2),
        BatteryLevel::Bat060 => Some(3),
        BatteryLevel::Bat080 => Some(4),
        BatteryLevel::Bat100 => Some(5),
    }
}

/// One bar of the chart, in pixels.
#[derive(Debug, Clone, Copy, PartialEq, Eq, Structural)]
pub struct Bar {
    /// Left edge.
    pub x: i32,
    /// Top edge.
    pub y: i32,
    /// Width.
    pub width: u32,
    /// Height.
    pub height: u32,
}

/// The bar chart of a CO2 history.
#[derive(Debug, Clone, PartialEq, Eq)]
pub struct Co2Chart {
    /// Smallest value of the history.
    pub min_co2: u16,
    /// Largest value of the history.
    pub max_co2: u16,
    /// One bar per value, in the order of the history.
    pub bars: Vec<Bar>,
}

/// Whether `low` and `high` are the smallest and the largest value of
/// `history`.
pub open spec fn is_range_of(history: Seq<u16>, low: u16, high: u16) -> bool {
    &&& exists|i: int| 0 <= i < history.len() && #[trigger] history[i] == low
    &&& exists|i: int| 0 <= i < history.len() && #[trigger] history[i] == high
    &&& forall|i: int| 0 <= i < history.len() ==> low <= #[trigger] history[i] <= high
}

/// Width of the slot of one bar when `count` values share the chart.
pub open spec fn bar_slot(count: int) -> int {
    if 0 < count <= CHART_WIDTH {
        (CHART_WIDTH as int) / count
    } else {
        0
    }
}

/// The bar for the value at position `i` of a history of `count` values
/// that range from `low` to `high`: its height is the value's share of the
/// range, scaled to the chart's height; bars stand on the chart's bottom
/// line, side by side, each one pixel narrower than its slot.
pub open spec fn bar_for(value: u16, i: int, count: int, low: u16, high: u16) -> Bar {
    let range = if high > low {
        high - low
    } else {
        1
    };
    let height = (value - low) * CHART_HEIGHT / range;
    let slot = bar_slot(count);
    Bar {
        x: (i * slot) as i32,
        y: (CHART_START_Y + CHART_HEIGHT - height) as i32,
        width: if slot >= 1 {
            (slot - 1) as u32
        } else {
            0
        },
        height: height as u32,
    }
}

/// Finds the smallest and the largest value of a non-empty history.
fn history_range(history: &[u16]) -> (range: (u16, u16))
    requires
        history@.len() > 0,
    ensures
        is_range_of(history@, range.0, range.1),
{
    let mut low: u16 = history[0];
    let mut high: u16 = history[0];
    let mut i: usize = 1;
    while i < history.len()
        invariant
            1 <= i <= history@.len(),
            exists|k: int| 0 <= k < i && #[trigger] history@[k] == low,
            exists|k: int| 0 <= k < i && #[trigger] history@[k] == high,
            forall|k: int| 0 <= k < i ==> low <= #[trigger] history@[k] <= high,
        decreases history@.len() - i,
    {
        if history[i] < low {
            low = history[i];
        }
        if history[i] > high {
            high = history[i];
        }
        i = i + 1;
    }
    (low, high)
}

/// Lays out `history` as a bar chart. There is no chart of an empty history.
pub fn co2_chart(history: &[u16]) -> (chart: Option<Co2Chart>)
    ensures
        chart is None <==> history@.len() == 0,
        chart matches Some(c) ==> {
            &&& is_range_of(history@, c.min_co2, c.max_co2)
            &&& c.bars@.len() == history@.len()
            &&& forall|i: int|
                0 <= i < history@.len() ==> #[trigger] c.bars@[i] == bar_for(
                    history@[i],
                    i,
                    history@.len() as int,
                    c.min_co2,
                    c.max_co2,
                )
            &&& forall|i: int|
                0 <= i < history@.len() ==> CHART_START_Y <= (#[trigger] c.bars@[i]).y
                    && c.bars@[i].y + c.bars@[i].height == CHART_START_Y + CHART_HEIGHT && 0
                    <= c.bars@[i].x && c.bars@[i].x + c.bars@[i].width <= CHART_WIDTH
        },
{
    let count = history.len();
    if count == 0 {
        return None;
    }
    let (min_co2, max_co2) = history_range(history);
    let range: i32 = if max_co2 > min_co2 {
        (max_co2 - min_co2) as i32
    } else {
        1
    };
    let slot: i32 = if count <= 128 {
        CHART_WIDTH / (count as i32)
    } else {
        0
    };
    let mut bars: Vec<Bar> = Vec::new();
    let mut i: usize = 0;
    while i < count
        invariant
            i <= count,
            count == history@.len(),
            count > 0,
            is_range_of(history@, min_co2, max_co2),
            range == if max_co2 > min_co2 {
                max_co2 - min_co2
            } else {
                1int
            },
            slot == bar_slot(count as int),
            0 <= slot <= CHART_WIDTH,
            bars@.len() == i,
            forall|k: int|
                0 <= k < i ==> #[trigger] bars@[k] == bar_for(
                    history@[k],
                    k,
                    count as int,
                    min_co2,
                    max_co2,
                ),
            forall|k: int|
                0 <= k < i ==> CHART_START_Y <= (#[trigger] bars@[k]).y && bars@[k].y
                    + bars@[k].height == CHART_START_Y + CHART_HEIGHT && 0 <= bars@[k].x
                    && bars@[k].x + bars@[k].width <= CHART_WIDTH,
        decreases count - i,
    {
        let value = history[i];
        let above: i32 = (value - min_co2) as i32;
        assert(0 <= (above * CHART_HEIGHT) / (range as int) <= CHART_HEIGHT && above * CHART_HEIGHT
            <= 0xffff * 39) by (nonlinear_arith)
            requires
                0 <= above <= range || (above == 0 && range == 1),
                1 <= range <= 0xffff,
                CHART_HEIGHT == 39,
        ;
        let height: i32 = above * CHART_HEIGHT / range;
        assert(0 <= (i as int) * slot <= CHART_WIDTH - slot) by (nonlinear_arith)
            requires
                0 <= i < count,
                slot == if 0 < count <= 128 {
                    128int / (count as int)
                } else {
                    0
                },
                CHART_WIDTH == 128,
        ;
        let x: i32 = if slot == 0 {
            0
        } else {
            (i as i32) * slot
        };
        let width: u32 = if slot >= 1 {
            (slot - 1) as u32
        } else {
            0
        };
        bars.push(Bar { x, y: CHART_START_Y + CHART_HEIGHT - height, width, height: height as u32 });
        i = i + 1;
    }
    Some(Co2Chart { min_co2, max_co2, bars })
}

} // verus!
