use point_cloud::distribution::{
    accept, sample, Distribution, NormalDistribution, NormalDistributionBuilder,
    RingNormalDistribution, RingNormalDistributionBuilder,
};
use point_cloud::point::Point2D;
use point_cloud::sampling_task::SamplingTask;
use point_cloud::scalar::Scalar;

fn s(v: f64) -> Scalar {
    Scalar::from_bits(v.to_bits())
}

fn f(v: Scalar) -> f64 {
    f64::from_bits(v.to_bits())
}

fn p(x: f64, y: f64) -> Point2D {
    Point2D::new(s(x), s(y))
}

fn distance(a: &Point2D, b: &Point2D) -> f64 {
    ((f(a.x) - f(b.x)).powi(2) + (f(a.y) - f(b.y)).powi(2)).sqrt()
}

struct Normal(NormalDistribution);

impl Distribution for Normal {
    fn density(&self, p: Point2D) -> Scalar {
        self.probability_at(&p)
    }

    fn probability_at(&self, p: &Point2D) -> Scalar {
        s((-distance(p, &self.0.center) / f(self.0.sigma)).exp())
    }
}

struct Ring(RingNormalDistribution);

impl Distribution for Ring {
    fn density(&self, p: Point2D) -> Scalar {
        self.probability_at(&p)
    }

    fn probability_at(&self, p: &Point2D) -> Scalar {
        let d = distance(p, &self.0.center);
        s((-((d - f(self.0.radius)) / f(self.0.radial_sigma)).powi(2)).exp())
    }
}

struct Flat(f64);

impl Distribution for Flat {
    fn density(&self, p: Point2D) -> Scalar {
        self.probability_at(&p)
    }

    fn probability_at(&self, _p: &Point2D) -> Scalar {
        s(self.0)
    }
}

fn same(a: Option<Point2D>, b: Option<(f64, f64)>) -> bool {
    match (a, b) {
        (Some(q), Some((x, y))) => q.x.to_bits() == x.to_bits() && q.y.to_bits() == y.to_bits(),
        (None, None) => true,
        _ => false,
    }
}

#[test]
fn accept_returns_the_candidate_when_the_draw_is_below_the_density() {
    assert!(same(accept(p(1.0, 2.0), s(0.5), s(0.25)), Some((1.0, 2.0))));
    assert!(same(accept(p(-3.0, 0.0), s(1.0), s(0.0)), Some((-3.0, 0.0))));
    assert!(same(accept(p(1.0, 2.0), s(0.5), s(0.49999999999999994)), Some((1.0, 2.0))));
}

#[test]
fn accept_rejects_when_the_draw_is_not_below_the_density() {
    assert!(same(accept(p(1.0, 2.0), s(0.5), s(0.5)), None));
    assert!(same(accept(p(1.0, 2.0), s(0.5), s(0.75)), None));
    assert!(same(accept(p(1.0, 2.0), s(0.0), s(0.0)), None));
    assert!(same(accept(p(1.0, 2.0), s(-0.0), s(0.0)), None));
    assert!(same(accept(p(1.0, 2.0), s(-1.0), s(0.0)), None));
}

#[test]
fn accept_rejects_not_a_number() {
    assert!(same(accept(p(1.0, 2.0), s(f64::NAN), s(0.0)), None));
    assert!(same(accept(p(1.0, 2.0), s(0.5), s(f64::NAN)), None));
    assert!(same(accept(p(1.0, 2.0), s(f64::NAN), s(f64::NAN)), None));
}

#[test]
fn accept_takes_every_draw_when_the_density_is_one_or_more() {
    let largest_draw = f64::from_bits(1.0f64.to_bits() - 1);
    assert!(same(accept(p(0.0, 0.0), s(1.0), s(largest_draw)), Some((0.0, 0.0))));
    assert!(same(accept(p(0.0, 0.0), s(54.0), s(largest_draw)), Some((0.0, 0.0))));
    assert!(same(accept(p(0.0, 0.0), s(f64::INFINITY), s(largest_draw)), Some((0.0, 0.0))));
}

#[test]
fn accept_agrees_with_the_hardware_comparison() {
    let values = [0.0, 1.0e-300, 0.1, 0.25, 0.5, 0.75, 1.0, 2.0, -0.5, f64::NAN, f64::INFINITY];
    for density in values {
        for draw in values {
            let expected = if draw < density { Some((3.0, 4.0)) } else { None };
            assert!(same(accept(p(3.0, 4.0), s(density), s(draw)), expected), "{} < {}", draw, density);
        }
    }
}

#[test]
fn sample_evaluates_the_density_at_the_candidate() {
    let normal = Normal(NormalDistributionBuilder::new().with_sigma(s(0.25)).build());
    // At distance 0.25 the density is exp(-1), about 0.3679.
    assert!(same(sample(p(0.25, 0.0), &normal, s(0.36)), Some((0.25, 0.0))));
    assert!(same(sample(p(0.25, 0.0), &normal, s(0.37)), None));
    // At distance 5 it is exp(-20), about 2.06e-9.
    assert!(same(sample(p(3.0, 4.0), &normal, s(2.0e-9)), Some((3.0, 4.0))));
    assert!(same(sample(p(3.0, 4.0), &normal, s(2.1e-9)), None));
}

#[test]
fn sample_through_a_trait_object() {
    let flat = Flat(0.5);
    let d: &dyn Distribution = &flat;
    assert!(same(sample(p(1.0, 1.0), d, s(0.25)), Some((1.0, 1.0))));
    assert!(same(sample(p(1.0, 1.0), d, s(0.5)), None));
}

#[test]
fn sample_with_non_positive_sigma_follows_the_comparison() {
    // Sigma 0 at the center divides zero by zero: the density is not a
    // number, and the candidate is rejected.
    let degenerate = Normal(NormalDistributionBuilder::new().with_sigma(s(0.0)).build());
    assert!(f(degenerate.probability_at(&p(0.0, 0.0))).is_nan());
    assert!(same(sample(p(0.0, 0.0), &degenerate, s(0.0)), None));
    // A negative sigma makes the density grow with the distance, beyond 1.
    let growing = Normal(NormalDistributionBuilder::new().with_sigma(s(-1.0)).build());
    assert!(same(sample(p(3.0, 4.0), &growing, s(0.999)), Some((3.0, 4.0))));
}

#[test]
fn normal_density_is_one_at_the_center() {
    for (cx, cy, sigma) in [(0.0, 0.0, 0.25), (3.5, -2.0, 1.0), (-1.0e3, 7.0, 40.0)] {
        let d = Normal(
            NormalDistributionBuilder::new()
                .with_center_coordinates(s(cx), s(cy))
                .with_sigma(s(sigma))
                .build(),
        );
        assert_eq!(f(d.probability_at(&p(cx, cy))), 1.0);
    }
}

#[test]
fn normal_density_follows_the_exponential_law() {
    let d = Normal(NormalDistributionBuilder::new().with_sigma(s(0.25)).build());
    assert_eq!(f(d.probability_at(&p(0.25, 0.0))), (-1.0f64).exp());
    assert_eq!(f(d.probability_at(&p(3.0, 4.0))), (-20.0f64).exp());
    let e = Normal(NormalDistributionBuilder::new().build());
    assert_eq!(f(e.probability_at(&p(0.0, -2.0))), (-2.0f64).exp());
}

#[test]
fn normal_density_decreases_with_distance() {
    let d = Normal(NormalDistributionBuilder::new().with_sigma(s(0.25)).build());
    let mut last = f(d.probability_at(&p(0.0, 0.0)));
    for step in 1..200 {
        let here = f(d.probability_at(&p(0.05 * step as f64, 0.0)));
        assert!(here < last, "at step {}", step);
        last = here;
    }
}

#[test]
fn ring_density_is_one_on_the_ring() {
    let d = Ring(
        RingNormalDistributionBuilder::new()
            .with_center_coordinates(s(0.0), s(0.0))
            .with_radius(s(2.0))
            .with_radial_sigma(s(0.4))
            .build(),
    );
    assert_eq!(f(d.probability_at(&p(2.0, 0.0))), 1.0);
    assert_eq!(f(d.probability_at(&p(0.0, -2.0))), 1.0);
    let e = Ring(
        RingNormalDistributionBuilder::new()
            .with_center_coordinates(s(1.0), s(1.0))
            .with_radius(s(5.0))
            .build(),
    );
    assert_eq!(f(e.probability_at(&p(4.0, 5.0))), 1.0);
}

#[test]
fn ring_density_follows_the_squared_law() {
    let d = Ring(
        RingNormalDistributionBuilder::new().with_radius(s(2.0)).with_radial_sigma(s(0.5)).build(),
    );
    // One radial sigma off the ring, inside and outside.
    assert_eq!(f(d.probability_at(&p(1.5, 0.0))), (-1.0f64).exp());
    assert_eq!(f(d.probability_at(&p(0.0, 2.5))), (-1.0f64).exp());
    // At the center the distance to the ring is the radius: four sigmas.
    assert_eq!(f(d.probability_at(&p(0.0, 0.0))), (-16.0f64).exp());
}

#[test]
fn task_hands_back_what_it_was_given() {
    let flat = Flat(0.5);
    let task = SamplingTask::new(&flat, 200000, "1");
    assert_eq!(task.get_label(), "1");
    assert_eq!(task.get_num_sampling_attempts(), 200000);
    assert_eq!(f(task.get_distribution().probability_at(&p(0.0, 0.0))), 0.5);
    let boundless = SamplingTask::new(&flat, u64::MAX, "");
    assert_eq!(boundless.get_label(), "");
    assert_eq!(boundless.get_num_sampling_attempts(), u64::MAX);
}

#[test]
fn tasks_of_different_shapes_share_a_list() {
    let normal = Normal(NormalDistributionBuilder::new().build());
    let ring = Ring(RingNormalDistributionBuilder::new().build());
    let tasks: [SamplingTask<'_, dyn Distribution>; 2] =
        [SamplingTask::new(&normal, 1, "n"), SamplingTask::new(&ring, 2, "r")];
    assert_eq!(f(tasks[0].get_distribution().probability_at(&p(0.0, 0.0))), 1.0);
    assert_eq!(f(tasks[1].get_distribution().probability_at(&p(1.0, 0.0))), 1.0);
    assert_eq!(tasks[1].get_label(), "r");
}
