use euro_rate_exporter::cache::{FetchOutcome, RateCache};
use euro_rate_exporter::metrics::{metrics_body, LISTEN_PORT, METRICS_PATH};
use euro_rate_exporter::rate::Rate;

fn rate_of(value: f64) -> Rate {
    Rate::from_bits(value.to_bits())
}

fn shown(rate: Rate) -> String {
    format!("{}", f64::from_bits(rate.to_bits()))
}

#[test]
fn rate_keeps_its_bits() {
    for bits in [0u64, 1, 0x3ff1_6666_6666_6666, 0x8000_0000_0000_0000, u64::MAX] {
        assert_eq!(Rate::from_bits(bits).to_bits(), bits);
        assert_eq!(Rate::from_bits(bits).bits, bits);
    }
    assert_eq!(Rate::zero().to_bits(), 0);
    assert_eq!(f64::from_bits(Rate::zero().to_bits()), 0.0);
    assert!(f64::from_bits(Rate::zero().to_bits()).is_sign_positive());
    assert_eq!(Rate::from_bits(5), Rate::from_bits(5));
    assert_ne!(Rate::from_bits(5), Rate::from_bits(6));
}

#[test]
fn new_cache_holds_zero() {
    let cache = RateCache::new();
    assert_eq!(cache.rate(), Rate::zero());
    assert_eq!(cache.rate().to_bits(), 0);
}

#[test]
fn metrics_before_any_fetch() {
    let cache = RateCache::new();
    assert_eq!(metrics_body(&shown(cache.rate())), "euro_usd_rate 0");
}

#[test]
fn metrics_after_a_successful_fetch() {
    let mut cache = RateCache::new();
    cache.record(&FetchOutcome::Refreshed(rate_of(1.0875)));
    assert_eq!(metrics_body(&shown(cache.rate())), "euro_usd_rate 1.0875");
}

#[test]
fn metrics_body_is_name_blank_value() {
    assert_eq!(metrics_body("1.0875"), "euro_usd_rate 1.0875");
    assert_eq!(metrics_body(""), "euro_usd_rate ");
    assert_eq!(metrics_body("NaN"), "euro_usd_rate NaN");
    assert_eq!(metrics_body("-0"), "euro_usd_rate -0");
}

#[test]
fn metrics_while_fetches_fail() {
    let mut cache = RateCache::new();
    cache.record(&FetchOutcome::TransportFailure);
    cache.record(&FetchOutcome::DecodeFailure);
    assert_eq!(metrics_body(&shown(cache.rate())), "euro_usd_rate 0");
    cache.record(&FetchOutcome::Refreshed(rate_of(0.92)));
    cache.record(&FetchOutcome::TransportFailure);
    cache.record(&FetchOutcome::DecodeFailure);
    assert_eq!(metrics_body(&shown(cache.rate())), "euro_usd_rate 0.92");
}

#[test]
fn server_constants() {
    assert_eq!(LISTEN_PORT, 8080);
    assert_eq!(METRICS_PATH, "metrics");
}

#[test]
fn refreshed_rate_replaces_the_cached_one() {
    let mut cache = RateCache::new();
    cache.record(&FetchOutcome::Refreshed(rate_of(1.0875)));
    assert_eq!(cache.rate(), rate_of(1.0875));
    cache.record(&FetchOutcome::Refreshed(rate_of(1.09)));
    assert_eq!(cache.rate(), rate_of(1.09));
}

#[test]
fn failure_leaves_the_cache_alone() {
    let mut cache = RateCache::new();
    cache.record(&FetchOutcome::TransportFailure);
    assert_eq!(cache.rate(), Rate::zero());
    cache.record(&FetchOutcome::DecodeFailure);
    assert_eq!(cache.rate(), Rate::zero());
    cache.record(&FetchOutcome::Refreshed(rate_of(1.0875)));
    cache.record(&FetchOutcome::TransportFailure);
    assert_eq!(cache.rate(), rate_of(1.0875));
    cache.record(&FetchOutcome::DecodeFailure);
    assert_eq!(cache.rate(), rate_of(1.0875));
}

#[test]
fn every_cycle_of_a_run() {
    let run = [
        FetchOutcome::TransportFailure,
        FetchOutcome::Refreshed(rate_of(1.0875)),
        FetchOutcome::DecodeFailure,
        FetchOutcome::DecodeFailure,
        FetchOutcome::Refreshed(rate_of(1.1)),
        FetchOutcome::Refreshed(rate_of(0.0)),
        FetchOutcome::TransportFailure,
        FetchOutcome::Refreshed(rate_of(-0.0)),
        FetchOutcome::Refreshed(rate_of(f64::NAN)),
        FetchOutcome::TransportFailure,
        FetchOutcome::Refreshed(rate_of(f64::INFINITY)),
        FetchOutcome::DecodeFailure,
    ];
    let mut cache = RateCache::new();
    let mut latest = Rate::zero();
    for outcome in run.iter() {
        let before = cache.rate();
        cache.record(outcome);
        match outcome {
            FetchOutcome::Refreshed(rate) => {
                assert_eq!(cache.rate(), *rate);
                latest = *rate;
            }
            _ => assert_eq!(cache.rate(), before),
        }
        assert_eq!(cache.rate(), latest);
    }
    assert_eq!(cache.rate().to_bits(), f64::INFINITY.to_bits());
}

#[test]
fn bit_patterns_are_kept_apart() {
    let mut cache = RateCache::new();
    cache.record(&FetchOutcome::Refreshed(rate_of(-0.0)));
    assert_ne!(cache.rate(), Rate::zero());
    assert_eq!(cache.rate().to_bits(), 0x8000_0000_0000_0000);
    assert_eq!(shown(cache.rate()), "-0");
    cache.record(&FetchOutcome::Refreshed(rate_of(f64::NAN)));
    assert_eq!(cache.rate().to_bits(), f64::NAN.to_bits());
}

#[test]
fn copies_of_a_cache_part_ways() {
    let mut cache = RateCache::new();
    let copy = cache;
    cache.record(&FetchOutcome::Refreshed(rate_of(2.5)));
    assert_eq!(copy.rate(), Rate::zero());
    assert_eq!(cache.rate(), rate_of(2.5));
}
