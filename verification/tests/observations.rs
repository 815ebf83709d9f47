use gst_plugin_ndi::observations::Observations;

#[test]
fn first_observation_returns_local_time() {
    let mut o = Observations::new();
    assert_eq!(
        o.process((Some(1_000_000_000), 5_000_000_000), Some(40)),
        (5_000_000_000, Some(40))
    );
}

#[test]
fn without_remote_time_local_time_passes_through() {
    let mut o = Observations::new();
    assert_eq!(o.process((None, 123), None), (123, None));
    // The estimator did not take a base from it.
    assert_eq!(o.process((Some(7), 900), None), (900, None));
}

#[test]
fn skew_is_smoothed_while_filling() {
    let mut o = Observations::new();
    o.process((Some(1_000_000_000), 5_000_000_000), None);
    // drift 500 us, 5 % filled: skew 250 ns
    assert_eq!(o.process((Some(1_100_000_000), 5_100_500_000), None).0, 5_100_000_250);
    // drift -1 ms, 10 % filled: skew (10 * -1e6 + 9990 * 250) / 10000 = -750 (rounded towards zero)
    assert_eq!(o.process((Some(1_200_000_000), 5_199_000_000), None).0, 5_199_999_250);
    assert_eq!(o.process((Some(1_300_000_000), 5_300_000_000), None).0, 5_299_997_752);
}

#[test]
fn slope_out_of_range_restarts() {
    let mut o = Observations::new();
    o.process((Some(1_000_000_000), 5_000_000_000), None);
    o.process((Some(1_100_000_000), 5_100_500_000), None);
    // remote advanced 1.3 s, local only 0.4 s: slope below 0.8, restart on this observation
    assert_eq!(o.process((Some(2_300_000_000), 5_400_000_000), None).0, 5_400_000_000);
    // the new base is this observation: lockstep afterwards gives the local time
    assert_eq!(o.process((Some(2_400_000_000), 5_500_000_000), None).0, 5_500_000_000);
}

#[test]
fn drift_far_from_skew_restarts() {
    let mut o = Observations::new();
    o.process((Some(1_000_000_000), 1_000_000_000), None);
    // local progress 3 s against remote 2.5 s: slope exactly 1.2 is kept; the
    // window closes (over 2 s) with skew 0.5 s
    assert_eq!(o.process((Some(3_500_000_000), 4_000_000_000), None).0, 4_000_000_000);
    // drift 1.6 s is 1.1 s away from the skew: restart on this observation
    assert_eq!(o.process((Some(10_000_000_000), 11_600_000_000), None).0, 11_600_000_000);
    assert_eq!(o.process((Some(10_100_000_000), 11_700_000_000), None).0, 11_700_000_000);
}

#[test]
fn window_closes_after_two_seconds_and_follows_minimum() {
    let mut o = Observations::new();
    assert_eq!(o.process((Some(10_000_000_000), 20_000_000_000), None).0, 20_000_000_000);
    assert_eq!(o.process((Some(10_500_000_000), 20_500_004_000), None).0, 20_500_000_010);
    // more than 2 s of remote time: the window closes, skew = minimum drift 3000
    assert_eq!(o.process((Some(12_100_000_000), 22_100_003_000), None).0, 22_100_003_000);
    assert_eq!(o.process((Some(12_200_000_000), 22_200_010_000), None).0, 22_200_003_000);
    // the oldest drift (the minimum) leaves, the new one is lower: minimum 1000
    assert_eq!(o.process((Some(12_300_000_000), 22_300_001_000), None).0, 22_300_002_984);
    assert_eq!(o.process((Some(12_400_000_000), 22_400_005_000), None).0, 22_400_002_968);
    // the minimum leaves and the new drift is higher: the minimum is found again (5000)
    assert_eq!(o.process((Some(12_500_000_000), 22_500_007_000), None).0, 22_500_002_984);
}

#[test]
fn lockstep_clocks_give_local_time() {
    let mut o = Observations::new();
    for i in 0..600u64 {
        let remote = 1_000_000_000 + i * 10_000_000;
        let local = 3_000_000_000 + i * 10_000_000;
        assert_eq!(o.process((Some(remote), local), Some(1)), (local, Some(1)));
    }
}

#[test]
fn large_times_are_handled() {
    let mut o = Observations::new();
    // Without a remote time any local time passes through.
    assert_eq!(o.process((None, u64::MAX), None), (u64::MAX, None));
    // Times beyond 2^62 ns in both clocks.
    let base: u64 = 0x7000_0000_0000_0000;
    assert_eq!(o.process((Some(base), base + 5), None).0, base + 5);
    // drift 500 us after 100 ms, 5 % filled: skew 250 ns
    assert_eq!(o.process((Some(base + 100_000_000), base + 100_500_005), None).0, base + 100_000_255);
}
