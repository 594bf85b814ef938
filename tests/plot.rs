use gaussian_plot::plot::{GaussianPlot, PropertyError};
use gaussian_plot::property::{Bound, PlotProperty, PropertyRange};
use gaussian_plot::render::{sample_steps, AXIS_EXTENT, GRID_HALF_STEPS, SAMPLES_PER_AXIS, STEPS_PER_UNIT};

fn default_plot() -> GaussianPlot<f64> {
    GaussianPlot::new(0.0, 0.0, 0.0, 0.0, 1.0, 1.0)
}

#[test]
fn names_round_trip() {
    for p in PlotProperty::all() {
        assert_eq!(PlotProperty::from_name(p.name()), Some(p));
    }
}

#[test]
fn declared_order_and_names() {
    let names: Vec<&str> = PlotProperty::all().into_iter().map(|p| p.name()).collect();
    assert_eq!(names, vec!["pitch", "yaw", "mean-x", "mean-y", "std-x", "std-y"]);
}

#[test]
fn unknown_names_are_not_properties() {
    assert_eq!(PlotProperty::from_name(""), None);
    assert_eq!(PlotProperty::from_name("mean_x"), None);
    assert_eq!(PlotProperty::from_name("Pitch"), None);
    assert_eq!(PlotProperty::from_name("pitch "), None);
    assert_eq!(PlotProperty::from_name("std-z"), None);
}

#[test]
fn declared_ranges() {
    assert_eq!(
        PlotProperty::Pitch.range(),
        PropertyRange { min: Bound::HalfTurns(-1), max: Bound::HalfTurns(1) }
    );
    assert_eq!(
        PlotProperty::Yaw.range(),
        PropertyRange { min: Bound::Units(0), max: Bound::HalfTurns(1) }
    );
    for p in [PlotProperty::MeanX, PlotProperty::MeanY] {
        assert_eq!(p.range(), PropertyRange { min: Bound::Units(-10), max: Bound::Units(10) });
    }
    for p in [PlotProperty::StdX, PlotProperty::StdY] {
        assert_eq!(p.range(), PropertyRange { min: Bound::Units(0), max: Bound::Units(10) });
    }
}

#[test]
fn new_plot_holds_its_parameters() {
    let plot = GaussianPlot::new(0.5, 1.5, -2.0, 3.0, 4.0, 5.0);
    assert_eq!(plot.get(PlotProperty::Pitch), 0.5);
    assert_eq!(plot.get(PlotProperty::Yaw), 1.5);
    assert_eq!(plot.get(PlotProperty::MeanX), -2.0);
    assert_eq!(plot.get(PlotProperty::MeanY), 3.0);
    assert_eq!(plot.get(PlotProperty::StdX), 4.0);
    assert_eq!(plot.get(PlotProperty::StdY), 5.0);
    assert!(!plot.needs_redraw());
}

#[test]
fn set_in_range_then_get_returns_value() {
    let mut plot = default_plot();
    assert_eq!(plot.set_property("mean-x", 2.5, true), Ok(()));
    assert_eq!(plot.property("mean-x"), Ok(2.5));
    assert_eq!(plot.get(PlotProperty::MeanX), 2.5);
    assert_eq!(plot.property("mean-y"), Ok(0.0));
    assert!(plot.needs_redraw());
}

#[test]
fn set_each_property_by_name() {
    let mut plot = default_plot();
    let values = [-3.0, 3.0, -10.0, 10.0, 0.25, 9.75];
    for (p, v) in PlotProperty::all().into_iter().zip(values) {
        assert_eq!(plot.set_property(p.name(), v, true), Ok(()));
    }
    for (p, v) in PlotProperty::all().into_iter().zip(values) {
        assert_eq!(plot.property(p.name()), Ok(v));
    }
}

#[test]
fn set_out_of_range_is_rejected() {
    let mut plot = default_plot();
    assert_eq!(plot.set_property("std-x", 11.0, false), Err(PropertyError::OutOfRange(PlotProperty::StdX)));
    assert_eq!(plot.get(PlotProperty::StdX), 1.0);
    assert!(!plot.needs_redraw());
    assert_eq!(plot.set(PlotProperty::Yaw, -1.0, false), Err(PropertyError::OutOfRange(PlotProperty::Yaw)));
    assert_eq!(plot.get(PlotProperty::Yaw), 0.0);
    assert!(!plot.needs_redraw());
}

#[test]
fn unknown_property_is_unsupported() {
    let mut plot = default_plot();
    assert_eq!(plot.property("zoom"), Err(PropertyError::Unsupported));
    assert_eq!(plot.set_property("zoom", 1.0, true), Err(PropertyError::Unsupported));
    assert!(!plot.needs_redraw());
}

#[test]
fn paint_with_zero_size_draws_nothing() {
    let mut plot = default_plot();
    plot.set(PlotProperty::Pitch, 0.3, true).unwrap();
    assert!(plot.paint_job(0, 480).is_none());
    assert!(plot.paint_job(640, 0).is_none());
    assert!(plot.paint_job(0, 0).is_none());
    assert!(!plot.needs_redraw());
    assert_eq!(plot.get(PlotProperty::Pitch), 0.3);
}

#[test]
fn paint_with_default_parameters() {
    let mut plot = default_plot();
    let job = plot.paint_job(640, 480).unwrap();
    assert_eq!((job.width, job.height), (640, 480));
    assert_eq!((job.pitch, job.yaw), (0.0, 0.0));
    assert_eq!((job.mean_x, job.mean_y), (0.0, 0.0));
    assert_eq!((job.std_x, job.std_y), (1.0, 1.0));
}

#[test]
fn paint_clears_redraw_request() {
    let mut plot = default_plot();
    plot.set(PlotProperty::StdY, 2.0, true).unwrap();
    assert!(plot.needs_redraw());
    let job = plot.paint_job(1, 1).unwrap();
    assert_eq!(job.std_y, 2.0);
    assert!(!plot.needs_redraw());
}

#[test]
fn sample_grid_spans_axis() {
    let steps = sample_steps();
    assert_eq!(steps.len(), SAMPLES_PER_AXIS);
    assert_eq!(steps.len(), 101);
    assert_eq!(steps[0], -50);
    assert_eq!(steps[50], 0);
    assert_eq!(steps[100], 50);
    assert_eq!(GRID_HALF_STEPS, AXIS_EXTENT * STEPS_PER_UNIT);
    let coords: Vec<f64> = steps.iter().map(|&s| s as f64 / STEPS_PER_UNIT as f64).collect();
    assert_eq!(coords[0], -10.0);
    assert_eq!(coords[1], -9.8);
    assert_eq!(coords[100], 10.0);
    for k in 0..steps.len() {
        assert_eq!(steps[k], -steps[steps.len() - 1 - k]);
    }
}
