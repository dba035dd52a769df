use tracing_honeycomb::{sample, should_report, TraceId};

fn pseudo_random_ids(n: usize) -> Vec<TraceId> {
    // distinct ids spread over the value space: an odd multiplier is
    // invertible modulo a power of two, so the mapping is injective
    let mut ids = Vec::with_capacity(n);
    for i in 0..n {
        let x = (i as u128).wrapping_mul(0x9e3779b97f4a7c15).wrapping_add(0x243f6a8885a308d3);
        ids.push(TraceId(x));
    }
    ids
}

#[test]
fn repeated_calls_agree() {
    for rate in [1u32, 2, 3, 7, 100] {
        for id in pseudo_random_ids(200) {
            let first = should_report(Some(rate), &id);
            let second = should_report(Some(rate), &id);
            assert_eq!(first, second);
            assert_eq!(sample(rate, &id), first);
        }
    }
}

#[test]
fn absent_rate_keeps_everything() {
    for id in pseudo_random_ids(500) {
        assert!(should_report(None, &id));
    }
}

#[test]
fn rate_one_keeps_everything() {
    for id in pseudo_random_ids(500) {
        assert!(should_report(Some(1), &id));
    }
}

#[test]
fn rate_two_keeps_about_half() {
    let ids = pseudo_random_ids(10_000);
    let first_pass: Vec<bool> = ids.iter().map(|id| should_report(Some(2), id)).collect();
    let kept = first_pass.iter().filter(|&&keep| keep).count();
    assert!(
        (4500..=5500).contains(&kept),
        "kept {} of 10000 at a rate of 2",
        kept
    );
    // re-querying the same identifiers yields the identical keep/drop set
    let second_pass: Vec<bool> = ids.iter().map(|id| should_report(Some(2), id)).collect();
    assert_eq!(first_pass, second_pass);
}

#[test]
fn rate_ten_keeps_about_a_tenth() {
    let ids = pseudo_random_ids(10_000);
    let kept = ids.iter().filter(|id| should_report(Some(10), id)).count();
    assert!(
        (700..=1300).contains(&kept),
        "kept {} of 10000 at a rate of 10",
        kept
    );
}
