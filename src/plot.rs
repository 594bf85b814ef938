use vstd::prelude::*;

use crate::property::PlotProperty;

verus! {

/// Why a property could not be read or written.
#[derive(Debug, Clone, Copy, PartialEq, Eq, Structural)]
pub enum PropertyError {
    /// No property is exposed under the given name.
    Unsupported,
    /// The value lies outside the property's declared range; nothing changed.
    OutOfRange(PlotProperty),
}

/// The state of a Gaussian surface plot: viewing angles, the distribution's
/// means and standard deviations, and whether a repaint has been requested.
///
/// The value type is left to the host; a plot on screen uses `f64`.
#[derive(Debug)]
pub struct GaussianPlot<T> {
    pitch: T,
    yaw: T,
    mean_x: T,
    mean_y: T,
    std_x: T,
    std_y: T,
    redraw: bool,
}

/// What one paint pass works from: the target size in pixels and the
/// parameters read at the moment the pass began.
#[derive(Debug)]
pub struct PaintJob<T> {
    pub width: u32,
    pub height: u32,
    pub pitch: T,
    pub yaw: T,
    pub mean_x: T,
    pub mean_y: T,
    pub std_x: T,
    pub std_y: T,
}

impl<T> GaussianPlot<T> {
    /// The current value of property `p`.
    pub closed spec fn value_of(self, p: PlotProperty) -> T {
        match p {
            PlotProperty::Pitch => self.pitch,
            PlotProperty::Yaw => self.yaw,
            PlotProperty::MeanX => self.mean_x,
            PlotProperty::MeanY => self.mean_y,
            PlotProperty::StdX => self.std_x,
            PlotProperty::StdY => self.std_y,
        }
    }

    /// Whether a change since the last paint asks for a repaint.
    pub closed spec fn pending_redraw(self) -> bool {
        self.redraw
    }

    /// The plot after `p` has been given the value `v`: that one property
    /// replaced and a repaint requested.
    pub closed spec fn with_value(self, p: PlotProperty, v: T) -> Self {
        let s = GaussianPlot { redraw: true, ..self };
        match p {
            PlotProperty::Pitch => GaussianPlot { pitch: v, ..s },
            PlotProperty::Yaw => GaussianPlot { yaw: v, ..s },
            PlotProperty::MeanX => GaussianPlot { mean_x: v, ..s },
            PlotProperty::MeanY => GaussianPlot { mean_y: v, ..s },
            PlotProperty::StdX => GaussianPlot { std_x: v, ..s },
            PlotProperty::StdY => GaussianPlot { std_y: v, ..s },
        }
    }
}

/// Giving a property a value and then reading it returns that exact value;
/// every other property keeps its value, and a repaint is requested.
pub proof fn lemma_set_then_get<T>(plot: GaussianPlot<T>, p: PlotProperty, v: T, q: PlotProperty)
    ensures
        plot.with_value(p, v).value_of(p) == v,
        q != p ==> plot.with_value(p, v).value_of(q) == plot.value_of(q),
        plot.with_value(p, v).pending_redraw(),
{
}

impl<T: Copy> GaussianPlot<T> {
    /// A plot with the given parameters and no repaint requested.
    pub fn new(pitch: T, yaw: T, mean_x: T, mean_y: T, std_x: T, std_y: T) -> (r: Self)
        ensures
            r.value_of(PlotProperty::Pitch) == pitch,
            r.value_of(PlotProperty::Yaw) == yaw,
            r.value_of(PlotProperty::MeanX) == mean_x,
            r.value_of(PlotProperty::MeanY) == mean_y,
            r.value_of(PlotProperty::StdX) == std_x,
            r.value_of(PlotProperty::StdY) == std_y,
            !r.pending_redraw(),
    {
        GaussianPlot { pitch, yaw, mean_x, mean_y, std_x, std_y, redraw: false }
    }

    /// The current value of property `p`.
    pub fn get(&self, p: PlotProperty) -> (r: T)
        ensures
            r == self.value_of(p),
    {
        match p {
            PlotProperty::Pitch => self.pitch,
            PlotProperty::Yaw => self.yaw,
            PlotProperty::MeanX => self.mean_x,
            PlotProperty::MeanY => self.mean_y,
            PlotProperty::StdX => self.std_x,
            PlotProperty::StdY => self.std_y,
        }
    }

    /// Gives property `p` the value `value` if `in_range` says that it lies in
    /// `p.range()`, and requests a repaint. A value out of range is rejected
    /// and the plot is left as it was.
    pub fn set(&mut self, p: PlotProperty, value: T, in_range: bool) -> (r: Result<(), PropertyError>)
        ensures
            in_range ==> r == Ok::<(), PropertyError>(()) && *final(self) == old(self).with_value(p, value),
            !in_range ==> r == Err::<(), PropertyError>(PropertyError::OutOfRange(p)) && *final(self) == *old(self),
    {
        if !in_range {
            return Err(PropertyError::OutOfRange(p));
        }
        match p {
            PlotProperty::Pitch => self.pitch = value,
            PlotProperty::Yaw => self.yaw = value,
            PlotProperty::MeanX => self.mean_x = value,
            PlotProperty::MeanY => self.mean_y = value,
            PlotProperty::StdX => self.std_x = value,
            PlotProperty::StdY => self.std_y = value,
        }
        self.redraw = true;
        Ok(())
    }

    /// The value of the property exposed under `name`.
    pub fn property(&self, name: &str) -> (r: Result<T, PropertyError>)
        ensures
            match PlotProperty::spec_from_name(name@) {
                Some(p) => r == Ok::<T, PropertyError>(self.value_of(p)),
                None => r == Err::<T, PropertyError>(PropertyError::Unsupported),
            },
    {
        match PlotProperty::from_name(name) {
            Some(p) => Ok(self.get(p)),
            None => Err(PropertyError::Unsupported),
        }
    }

    /// Sets the property exposed under `name`, as `set` does; an unknown
    /// name is rejected whatever the value, and leaves the plot as it was.
    pub fn set_property(&mut self, name: &str, value: T, in_range: bool) -> (r: Result<
        (),
        PropertyError,
    >)
        ensures
            match PlotProperty::spec_from_name(name@) {
                Some(p) => {
                    &&& in_range ==> r == Ok::<(), PropertyError>(()) && *final(self) == old(
                        self,
                    ).with_value(p, value)
                    &&& !in_range ==> r == Err::<(), PropertyError>(PropertyError::OutOfRange(p))
                        && *final(self) == *old(self)
                },
                None => r == Err::<(), PropertyError>(PropertyError::Unsupported) && *final(self)
                    == *old(self),
            },
    {
        match PlotProperty::from_name(name) {
            Some(p) => self.set(p, value, in_range),
            None => Err(PropertyError::Unsupported),
        }
    }

    /// Whether a repaint has been requested since the last paint.
    pub fn needs_redraw(&self) -> (r: bool)
        ensures
            r == self.pending_redraw(),
    {
        self.redraw
    }

    /// Starts a paint pass on a target of `width` by `height` pixels: clears
    /// the repaint request and returns what the pass draws from. A target
    /// with no area (a side of zero or less) is drawn on not at all: the
    /// result is then `None`.
    pub fn paint_job(&mut self, width: i32, height: i32) -> (r: Option<PaintJob<T>>)
        ensures
            forall|q: PlotProperty| final(self).value_of(q) == old(self).value_of(q),
            !final(self).pending_redraw(),
            r is None <==> (width <= 0 || height <= 0),
            r matches Some(job) ==> {
                &&& job.width == width as u32
                &&& job.height == height as u32
                &&& job.pitch == old(self).value_of(PlotProperty::Pitch)
                &&& job.yaw == old(self).value_of(PlotProperty::Yaw)
                &&& job.mean_x == old(self).value_of(PlotProperty::MeanX)
                &&& job.mean_y == old(self).value_of(PlotProperty::MeanY)
                &&& job.std_x == old(self).value_of(PlotProperty::StdX)
                &&& job.std_y == old(self).value_of(PlotProperty::StdY)
            },
    {
        self.redraw = false;
        if width <= 0 || height <= 0 {
            return None;
        }
        Some(
            PaintJob {
                width: width as u32,
                height: height as u32,
                pitch: self.pitch,
                yaw: self.yaw,
                mean_x: self.mean_x,
                mean_y: self.mean_y,
                std_x: self.std_x,
                std_y: self.std_y,
            },
        )
    }
}

} // verus!
