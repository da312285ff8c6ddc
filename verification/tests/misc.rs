use snek::bar::{Bar, Barstool, Bartab, Foo};
use snek::datapoint::DataPointBuilder;
use snek::dimensions::Dimensions;
use snek::game::settings::Config;
use snek::jobs::{Job, Person, Student, Teacher};
use snek::meal::Meal;
use snek::pixel::Pixel;
use snek::primes::Optimus;
use snek::resolution::Resolution;
use snek::rng::{ChaChaSource, RandomSource, UNIT};
use snek::simple::{add_one, do_this, times_two};

#[test]
fn simple_function_pointers() {
    let mut v = 1;

    v = add_one(v);
    assert_eq!(v, 2);

    v = times_two(v);
    assert_eq!(v, 4);

    v = do_this(v, add_one);
    assert_eq!(v, 5);

    v = do_this(v, times_two);
    assert_eq!(v, 10);

    v = do_this(v, |i| i * 10); // a closure passes just as well
    assert_eq!(v, 100);
}

#[test]
fn meal_builder() {
    let meal = Meal::builder().build();
    assert!(meal.starter.is_none());
    assert_eq!(meal.main, "");
    assert!(meal.dessert.is_none());

    let meal = snek::meal::MealBuilder::new("Roast")
        .starter("Soup")
        .dessert("Tart")
        .build();
    assert_eq!(meal.starter.as_deref(), Some("Soup"));
    assert_eq!(meal.main, "Roast");
    assert_eq!(meal.dessert.as_deref(), Some("Tart"));

    let meal = Meal::default();
    assert_eq!(meal.main, "Beef Short Rib");
}

#[test]
fn datapoint_builder() {
    let dp = DataPointBuilder::new()
        .epoch(1617275437)
        .name("Alice")
        .details("Did a thing!")
        .value(8)
        .flag(true)
        .build();

    assert_eq!(dp.epoch, 1617275437);
    assert_eq!(dp.name, "Alice");
    assert_eq!(dp.details, "Did a thing!");
    assert_eq!(dp.value, 8);
    assert!(dp.flag);
}

#[test]
fn dimensions_and_pixels() {
    let dimensions = Dimensions::new(100, 200);
    assert_eq!(dimensions.width(), 100);
    assert_eq!(dimensions.height(), 200);
    assert_eq!(dimensions.pixel_count(), 20_000);

    let resolution = Resolution::new(800, 600);
    assert_eq!(resolution.width(), 800);
    assert_eq!(resolution.height(), 600);
    assert_eq!(resolution.pixel_count(), 480_000);

    let pixel = Pixel::new(25, 175);
    assert_eq!(pixel.x, 25);
    assert_eq!(pixel.y, 175);
}

#[test]
fn dimensions_from_text() {
    let d = Dimensions::parse("800x600").unwrap();
    assert_eq!(d.width(), 800);
    assert_eq!(d.height(), 600);

    // The standard number grammar allows a leading plus sign.
    let d = Dimensions::parse("+1000x750").unwrap();
    assert_eq!(d.width(), 1000);
    assert_eq!(d.height(), 750);

    // The first `x` splits; the rest must be one clean number each.
    assert!(Dimensions::parse("800").is_err());
    assert!(Dimensions::parse("x600").is_err());
    assert!(Dimensions::parse("800x").is_err());
    assert!(Dimensions::parse("800x600x400").is_err());
    assert!(Dimensions::parse("80a0x600").is_err());
    assert!(Dimensions::parse("-800x600").is_err());
    assert!(Dimensions::parse("").is_err());
    assert!(Dimensions::parse("99999999999999999999999999x1").is_err());

    let r = Resolution::parse("1920x1080").unwrap();
    assert_eq!(r.width(), 1920);
    assert_eq!(r.height(), 1080);

    // A side beyond `u32` is refused even though it reads as a number.
    assert!(Resolution::parse("4294967296x100").is_err());
    assert!(Resolution::parse("4294967295x100").is_ok());
}

#[test]
fn prime_generation() {
    let mut optimus = Optimus::default();

    assert_eq!(optimus.next_prime(), 2);
    assert_eq!(optimus.next_prime(), 3);
    assert_eq!(optimus.next_prime(), 5);
    assert_eq!(optimus.next_prime(), 7);
    assert_eq!(optimus.next_prime(), 11);
    assert_eq!(optimus.next_prime(), 13);
}

#[test]
fn primality() {
    assert!(!Optimus::is_prime(0));
    assert!(!Optimus::is_prime(1));
    assert!(Optimus::is_prime(2));
    assert!(Optimus::is_prime(3));
    assert!(!Optimus::is_prime(4));
    assert!(Optimus::is_prime(97));
    assert!(!Optimus::is_prime(91)); // 7 * 13, caught by the wheel
    assert!(Optimus::is_prime(7919));
    assert!(!Optimus::is_prime(7917));
}

#[test]
fn stock_config() {
    let config = Config::default();

    assert_eq!(config.eye_photoreceptors, 5);
    assert_eq!(config.brain_neurons, 15);
    assert_eq!(config.outputs, 1);
    assert_eq!(config.generation_length, 10);
    assert_eq!(config.population_size, 100);
}

#[test]
fn bars_and_jobs() {
    let foostool = Foo::new(Barstool {});
    assert_eq!(foostool.use_bar(), 6);

    let footab = Foo::new(Bartab {});
    assert_eq!(footab.use_bar(), 4);

    let alice = Person {
        name: String::from("Alice"),
        job: Student { job_title: String::from("History Student") },
    };
    let bob = Person {
        name: String::from("Bob"),
        job: Teacher { job_title: String::from("English Teacher") },
    };
    assert_eq!(alice.job.salary(), 0);
    assert_eq!(bob.job.salary(), 100);
}

#[test]
fn seeded_draws_stay_below_their_bound() {
    // If the generator handed anything outside `[0, bound)` back, the
    // engine's contracts would be built on sand; watch it over many draws.
    let mut prng = ChaChaSource::from_seed(3);
    for bound in 1..200u128 {
        for _ in 0..20 {
            assert!(prng.next_below(bound) < bound);
        }
    }

    // The degenerate coins are certain.
    for _ in 0..100 {
        assert!(!prng.coin(0));
        assert!(prng.coin(UNIT));
    }

    // A fair coin lands on both sides over a thousand throws.
    let mut heads = 0;
    for _ in 0..1000 {
        if prng.coin(UNIT / 2) {
            heads += 1;
        }
    }
    assert!(heads > 350 && heads < 650, "heads: {}", heads);

    // Two sources with one seed draw one stream; a different seed departs.
    let mut a = ChaChaSource::from_seed(11);
    let mut b = ChaChaSource::from_seed(11);
    let mut c = ChaChaSource::from_seed(12);
    let from_a: Vec<u128> = (0..32).map(|_| a.next_below(1_000_000)).collect();
    let from_b: Vec<u128> = (0..32).map(|_| b.next_below(1_000_000)).collect();
    let from_c: Vec<u128> = (0..32).map(|_| c.next_below(1_000_000)).collect();
    assert_eq!(from_a, from_b);
    assert_ne!(from_a, from_c);
}
