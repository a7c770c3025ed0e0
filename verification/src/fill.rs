//! Builder methods for anything that carries fill tessellation options.
//!
//! The options are `lyon`'s own. Verus is told what they hold through
//! `settings`, and the few stores into them are trusted.

use lyon::tessellation::FillOptions;
use lyon::tessellation::FillRule;
use lyon::tessellation::OnError;
use vstd::prelude::*;

verus! {

/// `lyon::tessellation::FillOptions`, opaque here: it has a private field.
#[verifier::external_type_specification]
#[verifier::external_body]
pub struct ExFillOptions(FillOptions);

/// `lyon::tessellation::FillRule`, an enum without fields. Verus reads its
/// variants, `EvenOdd` and `NonZero`, from `lyon` itself.
#[verifier::external_type_specification]
pub struct ExFillRule(FillRule);

/// `lyon::tessellation::OnError`, an enum without fields. Verus reads its
/// variants, `Panic`, `Stop` and `Recover`, from `lyon` itself.
#[verifier::external_type_specification]
pub struct ExOnError(OnError);

/// What a `FillOptions` holds, field by field. The tolerance, a 32-bit float,
/// stands here as its bits.
pub struct FillSettings {
    pub tolerance_bits: u32,
    pub fill_rule: FillRule,
    pub compute_normals: bool,
    pub assume_no_intersections: bool,
    pub on_error: OnError,
}

/// The values of the five public fields of `opts`. Nothing is known of it
/// but what the three trusted functions below say.
pub uninterp spec fn settings(opts: FillOptions) -> FillSettings;

/// The bits of the float `0.1`, the default tolerance.
pub const DEFAULT_TOLERANCE_BITS: u32 = 0x3dcc_cccd;

/// What `FillOptions::default()` holds.
pub open spec fn default_settings() -> FillSettings {
    FillSettings {
        tolerance_bits: DEFAULT_TOLERANCE_BITS,
        fill_rule: FillRule::EvenOdd,
        compute_normals: true,
        assume_no_intersections: false,
        on_error: OnError::Stop,
    }
}

/// Stores `rule` in the public field `fill_rule` of `opts`; the other fields
/// keep their values.
#[verifier::external_body]
fn set_fill_rule(opts: &mut FillOptions, rule: FillRule)
    ensures
        settings(*final(opts)) == (FillSettings { fill_rule: rule, ..settings(*old(opts)) }),
{
    opts.fill_rule = rule;
}

/// Stores `b` in the public field `assume_no_intersections` of `opts`; the
/// other fields keep their values.
#[verifier::external_body]
fn set_assume_no_intersections(opts: &mut FillOptions, b: bool)
    ensures
        settings(*final(opts)) == (FillSettings {
            assume_no_intersections: b,
            ..settings(*old(opts))
        }),
{
    opts.assume_no_intersections = b;
}

/// `FillOptions::default()`, which returns the constant
/// `FillOptions::DEFAULT`: a tolerance of 0.1, the even-odd rule, normals
/// computed, intersections not ruled out, and `OnError::DEFAULT`, which is
/// `Stop` wherever `lyon` is not built for its own tests.
#[verifier::external_body]
fn default_fill_options() -> (opts: FillOptions)
    ensures
        settings(opts) == default_settings(),
{
    FillOptions::default()
}

/// Nodes that support fill tessellation.
///
/// A type that can lend out its fill options gets the builder methods below.
pub trait SetFill: Sized {
    /// The fill options that the value carries, as contracts see them. A
    /// verified implementation says here where its options are.
    open spec fn fill_settings(&self) -> FillSettings {
        arbitrary()
    }

    /// Whether `after` is this value with, at most, other fill options. A
    /// verified implementation says here what else it holds.
    open spec fn same_but_fill(&self, after: &Self) -> bool {
        true
    }

    /// Provide a mutable reference to the `FillOptions` field.
    fn fill_options_mut(&mut self) -> (opts: &mut FillOptions)
        ensures
            settings(*opts) == old(self).fill_settings(),
            final(self).fill_settings() == settings(*final(opts)),
            old(self).same_but_fill(final(self)),
    ;

    /// Specify the whole set of fill tessellation options.
    fn fill_opts(self, opts: FillOptions) -> (r: Self)
        ensures
            r.fill_settings() == settings(opts),
            self.same_but_fill(&r),
    {
        let mut this = self;
        *this.fill_options_mut() = opts;
        this
    }

    /// Specify the rule used to determine what is inside and what is outside
    /// of the shape.
    fn fill_rule(self, rule: FillRule) -> (r: Self)
        ensures
            r.fill_settings() == (FillSettings { fill_rule: rule, ..self.fill_settings() }),
            self.same_but_fill(&r),
    {
        let mut this = self;
        set_fill_rule(this.fill_options_mut(), rule);
        this
    }

    /// A fast path to avoid some expensive operations if the path is known to
    /// not have any self-intersections.
    ///
    /// Do not set this to `true` if the path may have intersecting edges, or
    /// the tessellator may panic or produce incorrect results. In doubt, do
    /// not change the default value, which is `false`.
    fn assume_no_intersections(self, b: bool) -> (r: Self)
        ensures
            r.fill_settings() == (FillSettings {
                assume_no_intersections: b,
                ..self.fill_settings()
            }),
            self.same_but_fill(&r),
    {
        let mut this = self;
        set_assume_no_intersections(this.fill_options_mut(), b);
        this
    }
}

impl SetFill for Option<FillOptions> {
    /// Options that are not there yet stand for the default ones.
    open spec fn fill_settings(&self) -> FillSettings {
        match self {
            Some(opts) => settings(*opts),
            None => default_settings(),
        }
    }

    /// Once the options have been lent out they are there.
    open spec fn same_but_fill(&self, after: &Self) -> bool {
        after.is_some()
    }

    /// The options, put there first with their default values if there were
    /// none.
    fn fill_options_mut(&mut self) -> (opts: &mut FillOptions)
        ensures
            *old(self) matches Some(before) ==> *opts == before,
            *final(self) == Some(*final(opts)),
    {
        if self.is_none() {
            *self = Some(default_fill_options());
        }
        self.as_mut().unwrap()
    }
}

} // verus!
