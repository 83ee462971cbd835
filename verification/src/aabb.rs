//! The axis-aligned rectangle that candidate points are drawn from, and its
//! builder.
use vstd::prelude::*;
use crate::point::Point2D;
use crate::scalar::{Scalar, MINUS_ONE_BITS, ONE_BITS};

verus! {

/// A rectangle with sides parallel to the axes, by its four bounds. A point
/// belongs to it when each coordinate lies in the half-open range from the
/// lower bound up to, and not reaching, the upper bound.
#[derive(Clone, Copy, Debug)]
pub struct AxisAlignedBoundingBox {
    pub min_x: Scalar,
    pub max_x: Scalar,
    pub min_y: Scalar,
    pub max_y: Scalar,
}

/// Why a rectangle cannot serve as a sampling region.
#[derive(Clone, Copy, Debug, PartialEq, Eq, Structural)]
pub enum RegionError {
    /// A bound is an infinity or not-a-number.
    NonFiniteBound,
    /// On some axis the lower bound is not strictly below the upper bound,
    /// so the half-open range between them holds no number.
    EmptyRange,
}

impl AxisAlignedBoundingBox {
    /// Whether `p` lies in the rectangle: `min_x <= p.x < max_x` and
    /// `min_y <= p.y < max_y`.
    pub open spec fn covers(self, p: Point2D) -> bool {
        &&& self.min_x.le(p.x)
        &&& p.x.lt(self.max_x)
        &&& self.min_y.le(p.y)
        &&& p.y.lt(self.max_y)
    }

    /// Whether no upper bound lies below its lower bound.
    pub open spec fn ordered(self) -> bool {
        self.min_x.le(self.max_x) && self.min_y.le(self.max_y)
    }

    /// Whether all four bounds are finite.
    pub open spec fn bounded(self) -> bool {
        self.min_x.finite() && self.max_x.finite() && self.min_y.finite() && self.max_y.finite()
    }

    /// Whether the rectangle can be sampled from: its bounds are finite and
    /// on each axis the lower one is strictly below the upper one.
    pub open spec fn samplable(self) -> bool {
        self.bounded() && self.min_x.lt(self.max_x) && self.min_y.lt(self.max_y)
    }

    /// What [`AxisAlignedBoundingBox::check`] answers.
    pub open spec fn verdict(self) -> Result<(), RegionError> {
        if !self.bounded() {
            Err(RegionError::NonFiniteBound)
        } else if !(self.min_x.lt(self.max_x) && self.min_y.lt(self.max_y)) {
            Err(RegionError::EmptyRange)
        } else {
            Ok(())
        }
    }

    /// Whether `p` lies in the rectangle.
    pub fn contains(&self, p: &Point2D) -> (r: bool)
        ensures
            r == self.covers(*p),
    {
        self.min_x.less_or_equal(&p.x) && p.x.less_than(&self.max_x) && self.min_y.less_or_equal(
            &p.y,
        ) && p.y.less_than(&self.max_y)
    }

    /// Decides whether the rectangle can serve as a sampling region, and says
    /// what is wrong with it when it cannot.
    pub fn check(&self) -> (r: Result<(), RegionError>)
        ensures
            r == self.verdict(),
            r is Ok <==> self.samplable(),
    {
        if !(self.min_x.is_finite() && self.max_x.is_finite() && self.min_y.is_finite()
            && self.max_y.is_finite()) {
            Err(RegionError::NonFiniteBound)
        } else if !(self.min_x.less_than(&self.max_x) && self.min_y.less_than(&self.max_y)) {
            Err(RegionError::EmptyRange)
        } else {
            Ok(())
        }
    }
}

/// A rectangle that can be sampled from has a point: its lower corner. It is
/// also ordered.
pub proof fn lemma_samplable_is_inhabited(region: AxisAlignedBoundingBox)
    requires
        region.samplable(),
    ensures
        region.ordered(),
        region.covers(Point2D { x: region.min_x, y: region.min_y }),
{
}

/// How a builder was last told to describe its rectangle.
#[derive(Clone, Copy, Debug, PartialEq, Eq, Structural)]
pub enum BoxBuilderMethod {
    Unset,
    CenterWidthHeight,
    MinAndMaxCoordinates,
}

/// The description that a builder settles on, every gap filled with its
/// default. Turning a center and a size into bounds takes arithmetic on the
/// numbers, which is left to the caller: the lower bound on an axis is the
/// center's coordinate minus half the size, the upper bound the coordinate
/// plus half the size.
#[derive(Clone, Copy, Debug)]
pub enum BoxGeometry {
    CenterAndSize { center: Point2D, width: Scalar, height: Scalar },
    MinAndMax { bounds: AxisAlignedBoundingBox },
}

/// Collects the description of a rectangle, in one of two ways: by center,
/// width and height, or by the four bounds. The way of the setter that was
/// called last is the one that counts.
#[derive(Clone, Copy, Debug)]
pub struct AxisAlignedBoundingBoxBuilder {
    pub method: BoxBuilderMethod,
    pub center: Option<Point2D>,
    pub width: Option<Scalar>,
    pub height: Option<Scalar>,
    pub min_x: Option<Scalar>,
    pub max_x: Option<Scalar>,
    pub min_y: Option<Scalar>,
    pub max_y: Option<Scalar>,
}

impl AxisAlignedBoundingBoxBuilder {
    /// The builder that nothing was set on.
    pub open spec fn empty() -> Self {
        AxisAlignedBoundingBoxBuilder {
            method: BoxBuilderMethod::Unset,
            center: None,
            width: None,
            height: None,
            min_x: None,
            max_x: None,
            min_y: None,
            max_y: None,
        }
    }

    /// This builder with the center set.
    pub open spec fn centered_at(self, center: Point2D) -> Self {
        AxisAlignedBoundingBoxBuilder {
            method: BoxBuilderMethod::CenterWidthHeight,
            center: Some(center),
            ..self
        }
    }

    /// This builder with width and height set.
    pub open spec fn sized(self, width: Scalar, height: Scalar) -> Self {
        AxisAlignedBoundingBoxBuilder {
            method: BoxBuilderMethod::CenterWidthHeight,
            width: Some(width),
            height: Some(height),
            ..self
        }
    }

    /// This builder with the four bounds set.
    pub open spec fn bounded_by(self, bounds: AxisAlignedBoundingBox) -> Self {
        AxisAlignedBoundingBoxBuilder {
            method: BoxBuilderMethod::MinAndMaxCoordinates,
            min_x: Some(bounds.min_x),
            max_x: Some(bounds.max_x),
            min_y: Some(bounds.min_y),
            max_y: Some(bounds.max_y),
            ..self
        }
    }

    /// What the builder describes. By center and size, which is also the way
    /// of a builder that nothing was set on: the center defaults to the
    /// origin, width and height to 1. By bounds: a lower bound defaults to
    /// -1, an upper bound to 1.
    pub open spec fn geometry(self) -> BoxGeometry {
        match self.method {
            BoxBuilderMethod::Unset | BoxBuilderMethod::CenterWidthHeight => {
                BoxGeometry::CenterAndSize {
                    center: match self.center {
                        Some(c) => c,
                        None => Point2D::origin(),
                    },
                    width: match self.width {
                        Some(w) => w,
                        None => Scalar { bits: ONE_BITS },
                    },
                    height: match self.height {
                        Some(h) => h,
                        None => Scalar { bits: ONE_BITS },
                    },
                }
            },
            BoxBuilderMethod::MinAndMaxCoordinates => BoxGeometry::MinAndMax {
                bounds: AxisAlignedBoundingBox {
                    min_x: match self.min_x {
                        Some(v) => v,
                        None => Scalar { bits: MINUS_ONE_BITS },
                    },
                    max_x: match self.max_x {
                        Some(v) => v,
                        None => Scalar { bits: ONE_BITS },
                    },
                    min_y: match self.min_y {
                        Some(v) => v,
                        None => Scalar { bits: MINUS_ONE_BITS },
                    },
                    max_y: match self.max_y {
                        Some(v) => v,
                        None => Scalar { bits: ONE_BITS },
                    },
                },
            },
        }
    }

    /// A builder with nothing set.
    pub fn new() -> (r: Self)
        ensures
            r == Self::empty(),
    {
        AxisAlignedBoundingBoxBuilder {
            method: BoxBuilderMethod::Unset,
            center: None,
            width: None,
            height: None,
            min_x: None,
            max_x: None,
            min_y: None,
            max_y: None,
        }
    }

    /// Sets the center by its coordinates, and the way to center and size.
    pub fn with_center_coordinates(self, center_x: Scalar, center_y: Scalar) -> (r: Self)
        ensures
            r == self.centered_at(Point2D { x: center_x, y: center_y }),
    {
        let mut b = self;
        b.method = BoxBuilderMethod::CenterWidthHeight;
        b.center = Some(Point2D::new(center_x, center_y));
        b
    }

    /// Sets the center, and the way to center and size.
    pub fn with_center_point(self, center_point: Point2D) -> (r: Self)
        ensures
            r == self.centered_at(center_point),
    {
        let mut b = self;
        b.method = BoxBuilderMethod::CenterWidthHeight;
        b.center = Some(center_point);
        b
    }

    /// Sets width and height, and the way to center and size.
    pub fn with_width_and_height(self, width: Scalar, height: Scalar) -> (r: Self)
        ensures
            r == self.sized(width, height),
    {
        let mut b = self;
        b.method = BoxBuilderMethod::CenterWidthHeight;
        b.width = Some(width);
        b.height = Some(height);
        b
    }

    /// Sets the four bounds, and the way to bounds.
    pub fn with_min_and_max_coordinates(
        self,
        min_x: Scalar,
        max_x: Scalar,
        min_y: Scalar,
        max_y: Scalar,
    ) -> (r: Self)
        ensures
            r == self.bounded_by(AxisAlignedBoundingBox { min_x, max_x, min_y, max_y }),
    {
        let mut b = self;
        b.method = BoxBuilderMethod::MinAndMaxCoordinates;
        b.min_x = Some(min_x);
        b.max_x = Some(max_x);
        b.min_y = Some(min_y);
        b.max_y = Some(max_y);
        b
    }

    /// Settles the description, filling what was not set with its default.
    pub fn build(self) -> (r: BoxGeometry)
        ensures
            r == self.geometry(),
    {
        match self.method {
            BoxBuilderMethod::Unset | BoxBuilderMethod::CenterWidthHeight => {
                let center = match self.center {
                    Some(c) => c,
                    None => Point2D::default(),
                };
                let width = match self.width {
                    Some(w) => w,
                    None => Scalar::from_bits(ONE_BITS),
                };
                let height = match self.height {
                    Some(h) => h,
                    None => Scalar::from_bits(ONE_BITS),
                };
                BoxGeometry::CenterAndSize { center, width, height }
            },
            BoxBuilderMethod::MinAndMaxCoordinates => {
                let min_x = match self.min_x {
                    Some(v) => v,
                    None => Scalar::from_bits(MINUS_ONE_BITS),
                };
                let max_x = match self.max_x {
                    Some(v) => v,
                    None => Scalar::from_bits(ONE_BITS),
                };
                let min_y = match self.min_y {
                    Some(v) => v,
                    None => Scalar::from_bits(MINUS_ONE_BITS),
                };
                let max_y = match self.max_y {
                    Some(v) => v,
                    None => Scalar::from_bits(ONE_BITS),
                };
                BoxGeometry::MinAndMax {
                    bounds: AxisAlignedBoundingBox { min_x, max_x, min_y, max_y },
                }
            },
        }
    }
}

/// A builder that was given a center and a size describes exactly that
/// center and that size, in whichever order the two were given and whatever
/// was set before.
pub proof fn lemma_center_and_size_are_kept(
    b: AxisAlignedBoundingBoxBuilder,
    center: Point2D,
    width: Scalar,
    height: Scalar,
)
    ensures
        b.centered_at(center).sized(width, height).geometry() == (BoxGeometry::CenterAndSize {
            center,
            width,
            height,
        }),
        b.sized(width, height).centered_at(center).geometry() == (BoxGeometry::CenterAndSize {
            center,
            width,
            height,
        }),
{
}

/// The setter that was called last decides the way: bounds given after a
/// center describe those bounds, and a center given after bounds describes a
/// rectangle round that center.
pub proof fn lemma_last_setter_decides(
    b: AxisAlignedBoundingBoxBuilder,
    center: Point2D,
    bounds: AxisAlignedBoundingBox,
)
    ensures
        b.centered_at(center).bounded_by(bounds).geometry() == (BoxGeometry::MinAndMax { bounds }),
        b.bounded_by(bounds).centered_at(center).geometry() is CenterAndSize,
        b.bounded_by(bounds).centered_at(center).geometry()->center == center,
{
}

} // verus!
