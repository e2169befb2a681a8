//! Fixed-capacity buffers backed by `heapless::Vec`.
//!
//! The buffers themselves are opaque to the verifier: what each one holds is
//! named by a specification function, and every operation on them is a thin
//! call into `heapless` whose contract is taken on trust from that crate's
//! documentation and source.

use vstd::prelude::*;
use ens160_aq::data::AirQualityIndex;

verus! {

/// Capacity of a [`Co2Buffer`].
pub const CO2_BUFFER_CAPACITY: usize = 10;

/// Capacity of a [`HumidityWindow`].
pub const HUMIDITY_WINDOW_CAPACITY: usize = 3;

/// Up to ten CO2 readings in ppm, oldest first, stored in a
/// `heapless::Vec<u16, 10>`.
#[verifier::external_body]
pub struct Co2Buffer {
    items: heapless::Vec<u16, 10>,
}

/// Up to three raw humidity readings in thousandths of %RH, oldest first,
/// stored in a `heapless::Vec<i32, 3>`.
#[verifier::external_body]
pub struct HumidityWindow {
    items: heapless::Vec<i32, 3>,
}

/// Capacity of a [`SampleBuffer`].
pub const SAMPLE_BUFFER_CAPACITY: usize = 3;

/// Up to three air-quality samples, each the CO2 value in ppm and the air
/// quality index read with it, oldest first, stored in a
/// `heapless::Vec<(u16, AirQualityIndex), 3>`.
#[verifier::external_body]
pub struct SampleBuffer {
    items: heapless::Vec<(u16, AirQualityIndex), 3>,
}

/// The samples a [`SampleBuffer`] holds, oldest first.
pub uninterp spec fn sample_buffer_items(buffer: SampleBuffer) -> Seq<(u16, AirQualityIndex)>;

/// The readings a [`Co2Buffer`] holds, oldest first.
pub uninterp spec fn co2_buffer_items(buffer: Co2Buffer) -> Seq<u16>;

/// The readings a [`HumidityWindow`] holds, oldest first.
pub uninterp spec fn humidity_window_items(window: HumidityWindow) -> Seq<i32>;

/// `heapless::Vec::new`: a new vector is empty.
#[verifier::external_body]
fn co2_buffer_new() -> (buffer: Co2Buffer)
    ensures
        co2_buffer_items(buffer) == Seq::<u16>::empty(),
{
    Co2Buffer { items: heapless::Vec::new() }
}

/// `heapless::Vec::len` (through the slice it dereferences to): the number of
/// elements held, which never exceeds the vector's fixed capacity.
#[verifier::external_body]
fn co2_buffer_len(buffer: &Co2Buffer) -> (n: usize)
    ensures
        n == co2_buffer_items(*buffer).len(),
        n <= CO2_BUFFER_CAPACITY,
{
    buffer.items.len()
}

/// `heapless::Vec::push`: appends at the back while there is room and reports
/// `Ok`; a full vector is left unchanged and the item is handed back in `Err`.
#[verifier::external_body]
fn co2_buffer_push(buffer: &mut Co2Buffer, value: u16) -> (result: Result<(), u16>)
    ensures
        result.is_ok() <==> co2_buffer_items(*old(buffer)).len() < CO2_BUFFER_CAPACITY,
        result.is_ok() ==> co2_buffer_items(*final(buffer)) == co2_buffer_items(*old(buffer)).push(
            value,
        ),
        result.is_err() ==> result.unwrap_err() == value && co2_buffer_items(*final(buffer))
            == co2_buffer_items(*old(buffer)),
{
    buffer.items.push(value)
}

/// `heapless::Vec::remove`: takes out and returns the element at `index`,
/// moving the later ones one place forward. It panics on an index out of
/// bounds, which the precondition excludes.
#[verifier::external_body]
fn co2_buffer_remove(buffer: &mut Co2Buffer, index: usize) -> (removed: u16)
    requires
        index < co2_buffer_items(*old(buffer)).len(),
    ensures
        removed == co2_buffer_items(*old(buffer))[index as int],
        co2_buffer_items(*final(buffer)) == co2_buffer_items(*old(buffer)).remove(index as int),
{
    buffer.items.remove(index)
}

/// `heapless::Vec::as_slice`: the elements held, in order; there are never
/// more of them than the vector's fixed capacity.
#[verifier::external_body]
fn co2_buffer_as_slice(buffer: &Co2Buffer) -> (slice: &[u16])
    ensures
        slice@ == co2_buffer_items(*buffer),
        slice@.len() <= CO2_BUFFER_CAPACITY,
{
    buffer.items.as_slice()
}

/// `heapless::Vec::new`: a new vector is empty.
#[verifier::external_body]
fn humidity_window_new() -> (window: HumidityWindow)
    ensures
        humidity_window_items(window) == Seq::<i32>::empty(),
{
    HumidityWindow { items: heapless::Vec::new() }
}

/// `heapless::Vec::len` (through the slice it dereferences to): the number of
/// elements held, which never exceeds the vector's fixed capacity.
#[verifier::external_body]
fn humidity_window_len(window: &HumidityWindow) -> (n: usize)
    ensures
        n == humidity_window_items(*window).len(),
        n <= HUMIDITY_WINDOW_CAPACITY,
{
    window.items.len()
}

/// `heapless::Vec::push`: appends at the back while there is room and reports
/// `Ok`; a full vector is left unchanged and the item is handed back in `Err`.
#[verifier::external_body]
fn humidity_window_push(window: &mut HumidityWindow, value: i32) -> (result: Result<
    (),
    i32,
>)
    ensures
        result.is_ok() <==> humidity_window_items(*old(window)).len() < HUMIDITY_WINDOW_CAPACITY,
        result.is_ok() ==> humidity_window_items(*final(window)) == humidity_window_items(
            *old(window),
        ).push(value),
        result.is_err() ==> result.unwrap_err() == value && humidity_window_items(*final(window))
            == humidity_window_items(*old(window)),
{
    window.items.push(value)
}

/// `heapless::Vec::remove`: takes out and returns the element at `index`,
/// moving the later ones one place forward. It panics on an index out of
/// bounds, which the precondition excludes.
#[verifier::external_body]
fn humidity_window_remove(window: &mut HumidityWindow, index: usize) -> (removed: i32)
    requires
        index < humidity_window_items(*old(window)).len(),
    ensures
        removed == humidity_window_items(*old(window))[index as int],
        humidity_window_items(*final(window)) == humidity_window_items(*old(window)).remove(
            index as int,
        ),
{
    window.items.remove(index)
}

/// `heapless::Vec::as_slice`: the elements held, in order.
#[verifier::external_body]
fn humidity_window_as_slice(window: &HumidityWindow) -> (slice: &[i32])
    ensures
        slice@ == humidity_window_items(*window),
{
    window.items.as_slice()
}

/// `heapless::Vec::new`: a new vector is empty.
#[verifier::external_body]
fn sample_buffer_new() -> (buffer: SampleBuffer)
    ensures
        sample_buffer_items(buffer) == Seq::<(u16, AirQualityIndex)>::empty(),
{
    SampleBuffer { items: heapless::Vec::new() }
}

/// `heapless::Vec::len` (through the slice it dereferences to): the number of
/// elements held, which never exceeds the vector's fixed capacity.
#[verifier::external_body]
fn sample_buffer_len(buffer: &SampleBuffer) -> (n: usize)
    ensures
        n == sample_buffer_items(*buffer).len(),
        n <= SAMPLE_BUFFER_CAPACITY,
{
    buffer.items.len()
}

/// `heapless::Vec::push`: appends at the back while there is room and reports
/// `Ok`; a full vector is left unchanged and the item is handed back in `Err`.
#[verifier::external_body]
fn sample_buffer_push(buffer: &mut SampleBuffer, sample: (u16, AirQualityIndex)) -> (result:
    Result<(), (u16, AirQualityIndex)>)
    ensures
        result.is_ok() <==> sample_buffer_items(*old(buffer)).len() < SAMPLE_BUFFER_CAPACITY,
        result.is_ok() ==> sample_buffer_items(*final(buffer)) == sample_buffer_items(
            *old(buffer),
        ).push(sample),
        result.is_err() ==> result.unwrap_err() == sample && sample_buffer_items(*final(buffer))
            == sample_buffer_items(*old(buffer)),
{
    buffer.items.push(sample)
}

/// `heapless::Vec::as_slice`: the elements held, in order.
#[verifier::external_body]
fn sample_buffer_as_slice(buffer: &SampleBuffer) -> (slice: &[(u16, AirQualityIndex)])
    ensures
        slice@ == sample_buffer_items(*buffer),
{
    buffer.items.as_slice()
}

/// The contents of a bounded buffer after `value` arrives: the oldest element
/// makes room once `capacity` elements are held.
pub open spec fn push_evicting<T>(items: Seq<T>, capacity: int, value: T) -> Seq<T> {
    if items.len() >= capacity && items.len() > 0 {
        items.subrange(1, items.len() as int).push(value)
    } else {
        items.push(value)
    }
}

impl Co2Buffer {
    /// The readings held, oldest first.
    pub open spec fn view(&self) -> Seq<u16> {
        co2_buffer_items(*self)
    }

    /// An empty buffer.
    pub fn new() -> (buffer: Self)
        ensures
            buffer@ == Seq::<u16>::empty(),
    {
        co2_buffer_new()
    }

    /// Number of readings held.
    pub fn len(&self) -> (n: usize)
        ensures
            n == self@.len(),
            n <= CO2_BUFFER_CAPACITY,
    {
        co2_buffer_len(self)
    }

    /// Appends `value`, dropping the oldest reading first when the buffer
    /// already holds ten.
    pub fn push_evicting(&mut self, value: u16)
        ensures
            final(self)@ == push_evicting(old(self)@, CO2_BUFFER_CAPACITY as int, value),
            final(self)@.len() <= CO2_BUFFER_CAPACITY,
    {
        if co2_buffer_len(self) >= CO2_BUFFER_CAPACITY {
            let _ = co2_buffer_remove(self, 0);
            assert(self@ == old(self)@.subrange(1, old(self)@.len() as int));
        }
        let _ = co2_buffer_push(self, value);
    }

    /// The readings held, oldest first.
    pub fn as_slice(&self) -> (slice: &[u16])
        ensures
            slice@ == self@,
            slice@.len() <= CO2_BUFFER_CAPACITY,
    {
        co2_buffer_as_slice(self)
    }
}

impl HumidityWindow {
    /// The readings held, oldest first.
    pub open spec fn view(&self) -> Seq<i32> {
        humidity_window_items(*self)
    }

    /// An empty window.
    pub fn new() -> (window: Self)
        ensures
            window@ == Seq::<i32>::empty(),
    {
        humidity_window_new()
    }

    /// Number of readings held.
    pub fn len(&self) -> (n: usize)
        ensures
            n == self@.len(),
            n <= HUMIDITY_WINDOW_CAPACITY,
    {
        humidity_window_len(self)
    }

    /// Appends `value`, dropping the oldest reading first when the window
    /// already holds three.
    pub fn push_evicting(&mut self, value: i32)
        ensures
            final(self)@ == push_evicting(old(self)@, HUMIDITY_WINDOW_CAPACITY as int, value),
            final(self)@.len() <= HUMIDITY_WINDOW_CAPACITY,
    {
        if humidity_window_len(self) >= HUMIDITY_WINDOW_CAPACITY {
            let _ = humidity_window_remove(self, 0);
            assert(self@ == old(self)@.subrange(1, old(self)@.len() as int));
        }
        let _ = humidity_window_push(self, value);
    }

    /// The readings held, oldest first.
    pub fn as_slice(&self) -> (slice: &[i32])
        ensures
            slice@ == self@,
    {
        humidity_window_as_slice(self)
    }
}

impl SampleBuffer {
    /// The samples held, oldest first.
    pub open spec fn view(&self) -> Seq<(u16, AirQualityIndex)> {
        sample_buffer_items(*self)
    }

    /// An empty buffer.
    pub fn new() -> (buffer: Self)
        ensures
            buffer@ == Seq::<(u16, AirQualityIndex)>::empty(),
    {
        sample_buffer_new()
    }

    /// Number of samples held.
    pub fn len(&self) -> (n: usize)
        ensures
            n == self@.len(),
            n <= SAMPLE_BUFFER_CAPACITY,
    {
        sample_buffer_len(self)
    }

    /// Appends a sample while fewer than three are held; a full buffer stays
    /// as it is. Returns whether the sample went in.
    pub fn push(&mut self, co2: u16, air_quality: AirQualityIndex) -> (stored: bool)
        ensures
            stored == (old(self)@.len() < SAMPLE_BUFFER_CAPACITY),
            stored ==> final(self)@ == old(self)@.push((co2, air_quality)),
            !stored ==> final(self)@ == old(self)@,
    {
        sample_buffer_push(self, (co2, air_quality)).is_ok()
    }

    /// The samples held, oldest first.
    pub fn as_slice(&self) -> (slice: &[(u16, AirQualityIndex)])
        ensures
            slice@ == self@,
    {
        sample_buffer_as_slice(self)
    }
}

} // verus!
