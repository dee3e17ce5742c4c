use kadena_signer::coverage::{CapCountData, CapabilityCoverage};

fn merged(a: CapabilityCoverage, b: CapabilityCoverage) -> CapabilityCoverage {
    let mut acc = a;
    acc.add_and_set(&b);
    acc
}

#[test]
fn merge_identity_is_full() {
    assert_eq!(CapabilityCoverage::zero(), CapabilityCoverage::Full);
    assert_eq!(
        merged(CapabilityCoverage::Full, CapabilityCoverage::Full),
        CapabilityCoverage::Full
    );
}

#[test]
fn merge_has_fallback_raises_only_full() {
    assert_eq!(
        merged(CapabilityCoverage::Full, CapabilityCoverage::HasFallback),
        CapabilityCoverage::HasFallback
    );
    assert_eq!(
        merged(CapabilityCoverage::NoCaps, CapabilityCoverage::HasFallback),
        CapabilityCoverage::NoCaps
    );
}

#[test]
fn merge_no_caps_dominates() {
    assert_eq!(
        merged(CapabilityCoverage::Full, CapabilityCoverage::NoCaps),
        CapabilityCoverage::NoCaps
    );
    assert_eq!(
        merged(CapabilityCoverage::HasFallback, CapabilityCoverage::NoCaps),
        CapabilityCoverage::NoCaps
    );
    assert_eq!(
        merged(CapabilityCoverage::NoCaps, CapabilityCoverage::Full),
        CapabilityCoverage::NoCaps
    );
}

#[test]
fn merge_is_commutative_on_all_pairs() {
    let all = [
        CapabilityCoverage::Full,
        CapabilityCoverage::HasFallback,
        CapabilityCoverage::NoCaps,
    ];
    for a in all {
        for b in all {
            assert_eq!(merged(a, b), merged(b, a));
        }
    }
}

#[test]
fn merge_is_associative_on_all_triples() {
    let all = [
        CapabilityCoverage::Full,
        CapabilityCoverage::HasFallback,
        CapabilityCoverage::NoCaps,
    ];
    for a in all {
        for b in all {
            for c in all {
                assert_eq!(merged(merged(a, b), c), merged(a, merged(b, c)));
            }
        }
    }
}

#[test]
fn cap_count_tallies_each_kind() {
    let mut acc = CapCountData::zero();
    acc.add_and_set(&CapCountData::IsTransfer);
    acc.add_and_set(&CapCountData::IsUnknownCap);
    acc.add_and_set(&CapCountData::zero());
    match acc {
        CapCountData::CapCount { total_caps, total_transfers, total_unknown } => {
            assert_eq!(total_caps, 3);
            assert_eq!(total_transfers, 1);
            assert_eq!(total_unknown, 1);
        }
        _ => panic!("accumulator must stay a tally"),
    }
}
