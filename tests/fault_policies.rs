use fault_transport::delay::{deferred_send, DelayMillisDist, MessageDelayPolicy};
use fault_transport::drop::{decision_for, ConfigError, DropProbability, MessageDropPolicy, SendDecision};
use fault_transport::rng::fresh_rng;
use rand::Rng;

#[derive(Clone)]
struct FixedDelay(u64);

impl DelayMillisDist for FixedDelay {
    fn sample_millis(&self, _rng: &mut rand::rngs::SmallRng) -> u64 {
        self.0
    }
}

#[derive(Clone)]
struct UniformDelay(u64, u64);

impl DelayMillisDist for UniformDelay {
    fn sample_millis(&self, rng: &mut rand::rngs::SmallRng) -> u64 {
        rng.gen_range(self.0..=self.1)
    }
}

fn forwarded_in(policy: &mut MessageDropPolicy, sends: usize) -> usize {
    let mut forwarded = 0;
    for _ in 0..sends {
        if policy.decide() == SendDecision::Forward {
            forwarded += 1;
        }
    }
    forwarded
}

#[test]
fn probability_in_range_is_accepted() {
    let p = DropProbability::from_ratio(3, 10).unwrap();
    assert_eq!(p.numerator(), 3);
    assert_eq!(p.denominator(), 10);
    assert!(DropProbability::from_ratio(0, 1).is_ok());
    assert!(DropProbability::from_ratio(7, 7).is_ok());
    assert!(DropProbability::from_ratio(u32::MAX, u32::MAX).is_ok());
}

#[test]
fn probability_above_one_is_refused() {
    assert_eq!(DropProbability::from_ratio(11, 10).err(), Some(ConfigError::ProbabilityOutOfRange));
}

#[test]
fn zero_denominator_is_refused() {
    assert_eq!(DropProbability::from_ratio(0, 0).err(), Some(ConfigError::ProbabilityOutOfRange));
    assert_eq!(DropProbability::from_ratio(1, 0).err(), Some(ConfigError::ProbabilityOutOfRange));
}

#[test]
fn one_draw_decides_the_message() {
    assert_eq!(decision_for(true), SendDecision::Drop);
    assert_eq!(decision_for(false), SendDecision::Forward);
}

#[test]
fn zero_probability_forwards_every_message() {
    let mut policy = MessageDropPolicy::open(DropProbability::from_ratio(0, 1).unwrap()).unwrap();
    assert_eq!(forwarded_in(&mut policy, 1000), 1000);
    assert_eq!(policy.probability().numerator(), 0);
}

#[test]
fn certain_drop_of_a_hundred_messages_forwards_none() {
    let mut policy = MessageDropPolicy::open(DropProbability::from_ratio(1, 1).unwrap()).unwrap();
    assert_eq!(forwarded_in(&mut policy, 100), 0);
}

#[test]
fn half_probability_drops_about_half() {
    let mut policy = MessageDropPolicy::open(DropProbability::from_ratio(1, 2).unwrap()).unwrap();
    let dropped = 10_000 - forwarded_in(&mut policy, 10_000);
    // Four standard deviations of a binomial(10000, 1/2) count are 200.
    assert!((4_800..=5_200).contains(&dropped), "dropped {}", dropped);
}

#[test]
fn tenth_probability_drops_about_a_tenth() {
    let mut policy = MessageDropPolicy::open(DropProbability::from_ratio(1, 10).unwrap()).unwrap();
    let dropped = 10_000 - forwarded_in(&mut policy, 10_000);
    // Four standard deviations of a binomial(10000, 1/10) count are 120.
    assert!((880..=1_120).contains(&dropped), "dropped {}", dropped);
}

#[test]
fn generator_can_be_seeded() {
    assert!(fresh_rng().is_ok());
}

#[test]
fn deferred_send_keeps_its_parts() {
    let d = deferred_send(40, "10.0.0.2:7000", vec![1u8, 2, 3]);
    assert_eq!(d.delay_millis, 40);
    assert_eq!(d.to, "10.0.0.2:7000");
    assert_eq!(d.message, vec![1u8, 2, 3]);
}

#[test]
fn zero_delay_delivers_the_same_message_at_once() {
    let mut policy = MessageDelayPolicy::open(FixedDelay(0)).unwrap();
    let d = policy.schedule("b:7001", String::from("M"));
    assert_eq!(d.delay_millis, 0);
    assert_eq!(d.to, "b:7001");
    assert_eq!(d.message, "M");
}

#[test]
fn fixed_delay_is_sampled_for_each_message() {
    let mut policy = MessageDelayPolicy::open(FixedDelay(250)).unwrap();
    for i in 0..5u32 {
        let d = policy.schedule(i, i * 10);
        assert_eq!(d.delay_millis, 250);
        assert_eq!(d.to, i);
        assert_eq!(d.message, i * 10);
    }
}

#[test]
fn uniform_delay_stays_in_its_range() {
    let mut policy = MessageDelayPolicy::open(UniformDelay(10, 20)).unwrap();
    let mut seen_low = false;
    let mut seen_high = false;
    for _ in 0..1000 {
        let d = policy.schedule((), ());
        assert!((10..=20).contains(&d.delay_millis));
        seen_low |= d.delay_millis < 15;
        seen_high |= d.delay_millis > 15;
    }
    assert!(seen_low && seen_high);
}
