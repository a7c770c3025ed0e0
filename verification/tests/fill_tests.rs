use frame_handoff::fill::SetFill;
use frame_handoff::fill::DEFAULT_TOLERANCE_BITS;
use lyon::tessellation::FillOptions;
use lyon::tessellation::FillRule;
use lyon::tessellation::OnError;

struct Shape {
    fill: FillOptions,
    sides: u32,
}

impl SetFill for Shape {
    fn fill_options_mut(&mut self) -> &mut FillOptions {
        &mut self.fill
    }
}

#[test]
fn missing_options_start_from_the_default() {
    let mut none: Option<FillOptions> = None;
    let opts = *none.fill_options_mut();
    assert_eq!(opts, FillOptions::default());
    assert_eq!(none, Some(FillOptions::default()));
    assert_eq!(opts.tolerance.to_bits(), DEFAULT_TOLERANCE_BITS);
    assert_eq!(opts.tolerance, 0.1);
    assert_eq!(opts.fill_rule, FillRule::EvenOdd);
    assert!(opts.compute_normals);
    assert!(!opts.assume_no_intersections);
    assert_eq!(opts.on_error, OnError::Stop);
}

#[test]
fn present_options_are_lent_as_they_are() {
    let mut some: Option<FillOptions> = Some(FillOptions::tolerance(0.5).with_normals(false));
    let opts = some.fill_options_mut();
    assert_eq!(opts.tolerance, 0.5);
    assert!(!opts.compute_normals);
    opts.tolerance = 0.25;
    assert_eq!(some.unwrap().tolerance, 0.25);
}

#[test]
fn fill_rule_sets_the_rule_and_nothing_else() {
    let none: Option<FillOptions> = None;
    let set = none.fill_rule(FillRule::NonZero).unwrap();
    assert_eq!(set.fill_rule, FillRule::NonZero);
    assert_eq!(set, FillOptions::non_zero());
    let back = Some(set).fill_rule(FillRule::EvenOdd).unwrap();
    assert_eq!(back, FillOptions::default());
    let custom = FillOptions::tolerance(2.0).with_normals(false).on_error(OnError::Recover);
    let ruled = Some(custom).fill_rule(FillRule::NonZero).unwrap();
    assert_eq!(ruled.fill_rule, FillRule::NonZero);
    assert_eq!(ruled.tolerance, 2.0);
    assert!(!ruled.compute_normals);
    assert!(!ruled.assume_no_intersections);
    assert_eq!(ruled.on_error, OnError::Recover);
}

#[test]
fn assume_no_intersections_sets_the_flag_and_nothing_else() {
    let none: Option<FillOptions> = None;
    let set = none.assume_no_intersections(true).unwrap();
    assert!(set.assume_no_intersections);
    assert_eq!(set, FillOptions::default().assume_no_intersections());
    let cleared = Some(set).assume_no_intersections(false).unwrap();
    assert_eq!(cleared, FillOptions::default());
    let custom = FillOptions::non_zero().with_tolerance(3.0);
    let flagged = Some(custom).assume_no_intersections(true).unwrap();
    assert!(flagged.assume_no_intersections);
    assert_eq!(flagged.fill_rule, FillRule::NonZero);
    assert_eq!(flagged.tolerance, 3.0);
}

#[test]
fn fill_opts_replaces_everything() {
    let custom = FillOptions::non_zero().with_tolerance(0.01).assume_no_intersections();
    let none: Option<FillOptions> = None;
    assert_eq!(none.fill_opts(custom), Some(custom));
    let some: Option<FillOptions> = Some(FillOptions::default());
    assert_eq!(some.fill_opts(custom), Some(custom));
}

#[test]
fn the_builders_chain() {
    let none: Option<FillOptions> = None;
    let opts = none.fill_rule(FillRule::NonZero).assume_no_intersections(true).unwrap();
    assert_eq!(opts, FillOptions::non_zero().assume_no_intersections());
}

#[test]
fn any_carrier_of_options_gets_the_builders() {
    let shape = Shape { fill: FillOptions::default(), sides: 5 };
    let shape = shape.fill_rule(FillRule::NonZero).assume_no_intersections(true);
    assert_eq!(shape.fill, FillOptions::non_zero().assume_no_intersections());
    assert_eq!(shape.sides, 5);
    let shape = shape.fill_opts(FillOptions::tolerance(0.75));
    assert_eq!(shape.fill, FillOptions::tolerance(0.75));
    assert_eq!(shape.sides, 5);
}
