//! Density shapes, their builders, and the acceptance test of rejection
//! sampling.
//!
//! A shape's parameters live here; evaluating its density takes arithmetic on
//! the numbers and is supplied by whoever implements [`Distribution`].
use vstd::prelude::*;
use crate::point::Point2D;
use crate::scalar::{Scalar, MINUS_ONE_BITS, ONE_BITS, QUARTER_BITS, TENTH_BITS, ZERO_BITS};

verus! {

/// A density over the plane. Evaluation is pure: what `probability_at`
/// returns depends on the shape and the point alone, and `density` is the
/// name of that value in contracts. Nothing bounds the value: it may exceed
/// 1 and it may be not-a-number.
pub trait Distribution {
    /// The value of the density at `p`.
    spec fn density(&self, p: Point2D) -> Scalar;

    /// Evaluates the density at `p`.
    fn probability_at(&self, p: &Point2D) -> (r: Scalar)
        ensures
            r == self.density(*p),
    ;
}

/// The outcome of one acceptance test: the candidate when the draw is
/// strictly below the density, nothing otherwise. A density or a draw that
/// is not-a-number is below nothing and above nothing, so it rejects.
pub open spec fn decide(p: Point2D, density: Scalar, draw: Scalar) -> Option<Point2D> {
    if draw.lt(density) {
        Some(p)
    } else {
        None
    }
}

/// Tests the candidate `p` against a density that was already evaluated at
/// it, with `draw` as the uniform random number of the test.
pub fn accept(p: Point2D, density: Scalar, draw: Scalar) -> (r: Option<Point2D>)
    ensures
        r == decide(p, density, draw),
{
    if draw.less_than(&density) {
        Some(p)
    } else {
        None
    }
}

/// One step of rejection sampling: evaluates `distribution` at the candidate
/// `p` and accepts `p` when `draw`, a uniform random number from 0 up to and
/// not reaching 1, is strictly below the density. Never retries.
pub fn sample<D: Distribution + ?Sized>(p: Point2D, distribution: &D, draw: Scalar) -> (r: Option<
    Point2D,
>)
    ensures
        r == decide(p, distribution.density(p), draw),
{
    let density = distribution.probability_at(&p);
    accept(p, density, draw)
}

/// How the acceptance test treats densities outside the unit interval: with
/// a draw from 0 up to and not reaching 1, a density of 1 or more always
/// accepts, a density of 0 or less never does, and so does not-a-number on
/// either side.
pub proof fn lemma_acceptance_policy(p: Point2D, density: Scalar, draw: Scalar)
    ensures
        density.nan() || draw.nan() ==> decide(p, density, draw) is None,
        (Scalar { bits: ZERO_BITS }).le(draw) && density.le(Scalar { bits: ZERO_BITS }) ==> decide(
            p,
            density,
            draw,
        ) is None,
        draw.lt(Scalar { bits: ONE_BITS }) && (Scalar { bits: ONE_BITS }).le(density) ==> decide(
            p,
            density,
            draw,
        ) == Some(p),
        decide(p, density, draw) is Some ==> decide(p, density, draw) == Some(p),
{
}

/// A density that decays exponentially with the distance from a center, at
/// the rate that `sigma` sets.
#[derive(Clone, Copy, Debug)]
pub struct NormalDistribution {
    pub center: Point2D,
    pub sigma: Scalar,
}

/// Collects the parameters of a [`NormalDistribution`].
#[derive(Clone, Copy, Debug)]
pub struct NormalDistributionBuilder {
    pub center: Option<Point2D>,
    pub sigma: Option<Scalar>,
}

impl NormalDistributionBuilder {
    /// What the builder describes: the center defaults to the origin, sigma
    /// to 1.
    pub open spec fn shape(self) -> NormalDistribution {
        NormalDistribution {
            center: match self.center {
                Some(c) => c,
                None => Point2D::origin(),
            },
            sigma: match self.sigma {
                Some(s) => s,
                None => Scalar { bits: ONE_BITS },
            },
        }
    }

    /// A builder with nothing set.
    pub fn new() -> (r: Self)
        ensures
            r.center is None,
            r.sigma is None,
    {
        NormalDistributionBuilder { center: None, sigma: None }
    }

    /// Sets the center by its coordinates.
    pub fn with_center_coordinates(self, center_x: Scalar, center_y: Scalar) -> (r: Self)
        ensures
            r.center == Some(Point2D { x: center_x, y: center_y }),
            r.sigma == self.sigma,
    {
        NormalDistributionBuilder {
            center: Some(Point2D::new(center_x, center_y)),
            sigma: self.sigma,
        }
    }

    /// Sets the center.
    pub fn with_center_point(self, center_point: Point2D) -> (r: Self)
        ensures
            r.center == Some(center_point),
            r.sigma == self.sigma,
    {
        NormalDistributionBuilder { center: Some(center_point), sigma: self.sigma }
    }

    /// Sets sigma.
    pub fn with_sigma(self, sigma: Scalar) -> (r: Self)
        ensures
            r.center == self.center,
            r.sigma == Some(sigma),
    {
        NormalDistributionBuilder { center: self.center, sigma: Some(sigma) }
    }

    /// The shape, with its defaults filled in.
    pub fn build(self) -> (r: NormalDistribution)
        ensures
            r == self.shape(),
    {
        let center = match self.center {
            Some(c) => c,
            None => Point2D::default(),
        };
        let sigma = match self.sigma {
            Some(s) => s,
            None => Scalar::from_bits(ONE_BITS),
        };
        NormalDistribution { center, sigma }
    }
}

/// A density that peaks on the circle of the given radius round a center and
/// decays away from that circle, at the rate that `radial_sigma` sets.
#[derive(Clone, Copy, Debug)]
pub struct RingNormalDistribution {
    pub center: Point2D,
    pub radius: Scalar,
    pub radial_sigma: Scalar,
}

/// Collects the parameters of a [`RingNormalDistribution`].
#[derive(Clone, Copy, Debug)]
pub struct RingNormalDistributionBuilder {
    pub center: Option<Point2D>,
    pub radius: Option<Scalar>,
    pub radial_sigma: Option<Scalar>,
}

impl RingNormalDistributionBuilder {
    /// What the builder describes: the center defaults to the origin, the
    /// radius to 1, the radial sigma to 0.1.
    pub open spec fn shape(self) -> RingNormalDistribution {
        RingNormalDistribution {
            center: match self.center {
                Some(c) => c,
                None => Point2D::origin(),
            },
            radius: match self.radius {
                Some(r) => r,
                None => Scalar { bits: ONE_BITS },
            },
            radial_sigma: match self.radial_sigma {
                Some(s) => s,
                None => Scalar { bits: TENTH_BITS },
            },
        }
    }

    /// A builder with nothing set.
    pub fn new() -> (r: Self)
        ensures
            r.center is None,
            r.radius is None,
            r.radial_sigma is None,
    {
        RingNormalDistributionBuilder { center: None, radius: None, radial_sigma: None }
    }

    /// Sets the center by its coordinates.
    pub fn with_center_coordinates(self, center_x: Scalar, center_y: Scalar) -> (r: Self)
        ensures
            r.center == Some(Point2D { x: center_x, y: center_y }),
            r.radius == self.radius,
            r.radial_sigma == self.radial_sigma,
    {
        RingNormalDistributionBuilder {
            center: Some(Point2D::new(center_x, center_y)),
            radius: self.radius,
            radial_sigma: self.radial_sigma,
        }
    }

    /// Sets the center.
    pub fn with_center_point(self, center_point: Point2D) -> (r: Self)
        ensures
            r.center == Some(center_point),
            r.radius == self.radius,
            r.radial_sigma == self.radial_sigma,
    {
        RingNormalDistributionBuilder {
            center: Some(center_point),
            radius: self.radius,
            radial_sigma: self.radial_sigma,
        }
    }

    /// Sets the radius.
    pub fn with_radius(self, radius: Scalar) -> (r: Self)
        ensures
            r.center == self.center,
            r.radius == Some(radius),
            r.radial_sigma == self.radial_sigma,
    {
        RingNormalDistributionBuilder {
            center: self.center,
            radius: Some(radius),
            radial_sigma: self.radial_sigma,
        }
    }

    /// Sets the radial sigma.
    pub fn with_radial_sigma(self, radial_sigma: Scalar) -> (r: Self)
        ensures
            r.center == self.center,
            r.radius == self.radius,
            r.radial_sigma == Some(radial_sigma),
    {
        RingNormalDistributionBuilder {
            center: self.center,
            radius: self.radius,
            radial_sigma: Some(radial_sigma),
        }
    }

    /// The shape, with its defaults filled in.
    pub fn build(self) -> (r: RingNormalDistribution)
        ensures
            r == self.shape(),
    {
        let center = match self.center {
            Some(c) => c,
            None => Point2D::default(),
        };
        let radius = match self.radius {
            Some(r) => r,
            None => Scalar::from_bits(ONE_BITS),
        };
        let radial_sigma = match self.radial_sigma {
            Some(s) => s,
            None => Scalar::from_bits(TENTH_BITS),
        };
        RingNormalDistribution { center, radius, radial_sigma }
    }
}

/// A band round the segment between two points, of the half-width that
/// `sigma` sets.
#[derive(Clone, Copy, Debug)]
pub struct LineDistribution {
    pub start_point: Point2D,
    pub end_point: Point2D,
    pub sigma: Scalar,
}

/// How a line builder was last told to describe its segment.
#[derive(Clone, Copy, Debug, PartialEq, Eq, Structural)]
pub enum LineDistributionBuilderMethod {
    Unset,
    TwoPoints,
    MiddleSeparationAngle,
}

/// The description that a line builder settles on, every gap filled with its
/// default. Turning a middle point, a separation and an angle into the two
/// end points takes trigonometry, which is left to the caller.
#[derive(Clone, Copy, Debug)]
pub enum LineGeometry {
    TwoPoints { line: LineDistribution },
    MiddleSeparationAngle { middle_point: Point2D, separation: Scalar, angle: Scalar, sigma: Scalar },
}

/// Collects the description of a [`LineDistribution`], in one of two ways: by
/// the two end points, or by middle point, separation and angle. The way of
/// the setter that was called last is the one that counts.
#[derive(Clone, Copy, Debug)]
pub struct LineDistributionBuilder {
    pub build_method: LineDistributionBuilderMethod,
    pub start_point: Option<Point2D>,
    pub end_point: Option<Point2D>,
    pub middle_point: Option<Point2D>,
    pub separation: Option<Scalar>,
    pub angle: Option<Scalar>,
    pub sigma: Option<Scalar>,
}

impl LineDistributionBuilder {
    /// The builder that nothing was set on.
    pub open spec fn empty() -> Self {
        LineDistributionBuilder {
            build_method: LineDistributionBuilderMethod::Unset,
            start_point: None,
            end_point: None,
            middle_point: None,
            separation: None,
            angle: None,
            sigma: None,
        }
    }

    /// The sigma that was set, or its default, 0.25.
    pub open spec fn chosen_sigma(self) -> Scalar {
        match self.sigma {
            Some(s) => s,
            None => Scalar { bits: QUARTER_BITS },
        }
    }

    /// What the builder describes. By end points, which is also the way of a
    /// builder that nothing was set on: the segment defaults to the one from
    /// (-1, 0) to (1, 0). By middle point, separation and angle: the middle
    /// defaults to the origin, the separation to 1, the angle to 0.
    pub open spec fn geometry(self) -> LineGeometry {
        match self.build_method {
            LineDistributionBuilderMethod::Unset | LineDistributionBuilderMethod::TwoPoints => {
                LineGeometry::TwoPoints {
                    line: LineDistribution {
                        start_point: match self.start_point {
                            Some(p) => p,
                            None => Point2D {
                                x: Scalar { bits: MINUS_ONE_BITS },
                                y: Scalar { bits: ZERO_BITS },
                            },
                        },
                        end_point: match self.end_point {
                            Some(p) => p,
                            None => Point2D {
                                x: Scalar { bits: ONE_BITS },
                                y: Scalar { bits: ZERO_BITS },
                            },
                        },
                        sigma: self.chosen_sigma(),
                    },
                }
            },
            LineDistributionBuilderMethod::MiddleSeparationAngle => {
                LineGeometry::MiddleSeparationAngle {
                    middle_point: match self.middle_point {
                        Some(p) => p,
                        None => Point2D::origin(),
                    },
                    separation: match self.separation {
                        Some(s) => s,
                        None => Scalar { bits: ONE_BITS },
                    },
                    angle: match self.angle {
                        Some(a) => a,
                        None => Scalar { bits: ZERO_BITS },
                    },
                    sigma: self.chosen_sigma(),
                }
            },
        }
    }

    /// A builder with nothing set.
    pub fn new() -> (r: Self)
        ensures
            r == Self::empty(),
    {
        LineDistributionBuilder {
            build_method: LineDistributionBuilderMethod::Unset,
            start_point: None,
            end_point: None,
            middle_point: None,
            separation: None,
            angle: None,
            sigma: None,
        }
    }

    /// Sets the two end points, and the way to end points.
    pub fn from_points(self, start_point: Point2D, end_point: Point2D) -> (r: Self)
        ensures
            r == (LineDistributionBuilder {
                build_method: LineDistributionBuilderMethod::TwoPoints,
                start_point: Some(start_point),
                end_point: Some(end_point),
                ..self
            }),
    {
        let mut b = self;
        b.build_method = LineDistributionBuilderMethod::TwoPoints;
        b.start_point = Some(start_point);
        b.end_point = Some(end_point);
        b
    }

    /// Sets middle point, separation and angle, and the way to those three.
    pub fn from_middle_distance_angle(
        self,
        middle_point: Point2D,
        separation: Scalar,
        angle: Scalar,
    ) -> (r: Self)
        ensures
            r == (LineDistributionBuilder {
                build_method: LineDistributionBuilderMethod::MiddleSeparationAngle,
                middle_point: Some(middle_point),
                separation: Some(separation),
                angle: Some(angle),
                ..self
            }),
    {
        let mut b = self;
        b.build_method = LineDistributionBuilderMethod::MiddleSeparationAngle;
        b.middle_point = Some(middle_point);
        b.separation = Some(separation);
        b.angle = Some(angle);
        b
    }

    /// Sets sigma. The way stays as it was.
    pub fn with_sigma(self, sigma: Scalar) -> (r: Self)
        ensures
            r == (LineDistributionBuilder { sigma: Some(sigma), ..self }),
    {
        let mut b = self;
        b.sigma = Some(sigma);
        b
    }

    /// Settles the description, filling what was not set with its default.
    pub fn build(self) -> (r: LineGeometry)
        ensures
            r == self.geometry(),
    {
        let sigma = match self.sigma {
            Some(s) => s,
            None => Scalar::from_bits(QUARTER_BITS),
        };
        match self.build_method {
            LineDistributionBuilderMethod::Unset | LineDistributionBuilderMethod::TwoPoints => {
                let start_point = match self.start_point {
                    Some(p) => p,
                    None => Point2D::new(
                        Scalar::from_bits(MINUS_ONE_BITS),
                        Scalar::from_bits(ZERO_BITS),
                    ),
                };
                let end_point = match self.end_point {
                    Some(p) => p,
                    None => Point2D::new(Scalar::from_bits(ONE_BITS), Scalar::from_bits(ZERO_BITS)),
                };
                LineGeometry::TwoPoints { line: LineDistribution { start_point, end_point, sigma } }
            },
            LineDistributionBuilderMethod::MiddleSeparationAngle => {
                let middle_point = match self.middle_point {
                    Some(p) => p,
                    None => Point2D::default(),
                };
                let separation = match self.separation {
                    Some(s) => s,
                    None => Scalar::from_bits(ONE_BITS),
                };
                let angle = match self.angle {
                    Some(a) => a,
                    None => Scalar::from_bits(ZERO_BITS),
                };
                LineGeometry::MiddleSeparationAngle { middle_point, separation, angle, sigma }
            },
        }
    }
}

} // verus!
