use crypto_bench::operands::{
    all_ones_words, is_valid_hex_2048, mod_exp_operands, words_from_be_hex, BASE_HEX,
    EXPONENT_HEX, MODULUS_HEX, M_PRIME, WORDS_2048,
};
use crypto_bench::sweep::{iterations_of, measure_metric, Action, Metric, Report, Style, Sweep};
use crypto_bench::timing::{
    aes_block_count, clamp_size, elapsed_micros, heartbeat_due, throughput_bytes_per_sec,
    AES_ITERATIONS, MAX_BUFFER_SIZE, WARMUP_SIZE,
};

fn run(sizes: Vec<usize>, style: Style, samples: &[u64]) -> (Vec<Action>, Vec<Report>) {
    let mut sweep = Sweep::new(sizes, style);
    let mut actions = Vec::new();
    let mut reports = Vec::new();
    for &s in samples {
        actions.push(sweep.next_action());
        if let Some(r) = sweep.record(s) {
            reports.push(r);
        }
    }
    actions.push(sweep.next_action());
    (actions, reports)
}

#[test]
fn clamp_keeps_sizes_within_buffer() {
    let sizes = [0usize, 64, 128, 4096, 16384, 32768, 32769, 65536, usize::MAX];
    for s in sizes {
        let c = clamp_size(s);
        assert_eq!(c, s.min(32768));
        assert!(c <= MAX_BUFFER_SIZE);
    }
    assert_eq!(clamp_size(40000), 32768);
}

#[test]
fn block_count_of_clamped_size() {
    assert_eq!(aes_block_count(4096), 256);
    assert_eq!(aes_block_count(64), 4);
    assert_eq!(aes_block_count(40000), 2048);
    assert_eq!(aes_block_count(20), 1);
}

#[test]
fn throughput_of_one_second_batch() {
    assert_eq!(throughput_bytes_per_sec(100, 4096, 1_000_000), Some(409600));
}

#[test]
fn throughput_rounds_down() {
    assert_eq!(throughput_bytes_per_sec(100, 128, 900), Some(14222222));
    assert_eq!(throughput_bytes_per_sec(100, 64, 500), Some(12800000));
    assert_eq!(throughput_bytes_per_sec(1, 1, 3), Some(333333));
}

#[test]
fn throughput_without_elapsed_time() {
    assert_eq!(throughput_bytes_per_sec(100, 4096, 0), None);
}

#[test]
fn throughput_too_large() {
    assert_eq!(throughput_bytes_per_sec(u64::MAX, usize::MAX, 1), None);
    assert_eq!(throughput_bytes_per_sec(u64::MAX, 1, 1_000_000), Some(u64::MAX));
    assert_eq!(throughput_bytes_per_sec(u64::MAX, 2, 1_000_000), None);
}

#[test]
fn elapsed_and_heartbeat() {
    assert_eq!(elapsed_micros(1000, 1750), 750);
    assert_eq!(elapsed_micros(5, 5), 0);
    assert!(!heartbeat_due(0, 499_999));
    assert!(heartbeat_due(0, 500_000));
    assert!(heartbeat_due(100, 700_000));
}

#[test]
fn sweep_end_to_end_two_sizes() {
    let style = Style::Throughput { iterations: AES_ITERATIONS };
    let (actions, reports) = run(vec![64, 128], style, &[42, 500, 900]);
    assert_eq!(
        actions,
        vec![
            Action::Warmup { size: WARMUP_SIZE, iterations: 100 },
            Action::Measure { index: 0, size: 64, iterations: 100 },
            Action::Measure { index: 1, size: 128, iterations: 100 },
            Action::Finished,
        ]
    );
    assert_eq!(
        reports,
        vec![
            Report { data_size: 64, processed: 64, metric: Metric::BytesPerSecond(12_800_000) },
            Report { data_size: 128, processed: 128, metric: Metric::BytesPerSecond(14_222_222) },
        ]
    );
}

#[test]
fn warmup_runs_once_and_is_not_reported() {
    let style = Style::Throughput { iterations: 100 };
    let (a1, r1) = run(vec![64, 128], style, &[1, 500, 900]);
    let (a2, r2) = run(vec![64, 128], style, &[999_999, 500, 900]);
    assert_eq!(r1, r2);
    assert_eq!(a1, a2);
    let warmups = a1.iter().filter(|a| matches!(a, Action::Warmup { .. })).count();
    assert_eq!(warmups, 1);
    assert!(matches!(a1[0], Action::Warmup { .. }));
    let mut sweep = Sweep::new(vec![64], style);
    assert_eq!(sweep.record(123), None);
    assert!(!sweep.is_finished());
}

#[test]
fn sweep_keeps_order_one_report_each() {
    let sizes = vec![1024, 64, 65536, 256];
    let style = Style::Latency;
    let (actions, reports) = run(sizes.clone(), style, &[9, 10, 20, 30, 40, 50, 60]);
    assert_eq!(reports.len(), sizes.len());
    for (i, r) in reports.iter().enumerate() {
        assert_eq!(r.data_size, sizes[i]);
        assert_eq!(r.processed, sizes[i].min(32768));
        assert_eq!(r.metric, Metric::Micros(10 * (i as u64 + 1)));
    }
    assert_eq!(actions[3], Action::Measure { index: 2, size: 32768, iterations: 1 });
    assert_eq!(*actions.last().unwrap(), Action::Finished);
    assert_eq!(actions[5], Action::Finished);
}

#[test]
fn latency_is_raw_elapsed() {
    assert_eq!(measure_metric(Style::Latency, 4096, 1234), Metric::Micros(1234));
    assert_eq!(measure_metric(Style::Latency, 64, 0), Metric::Micros(0));
    assert_eq!(iterations_of(Style::Latency), 1);
    assert_eq!(iterations_of(Style::Throughput { iterations: 100 }), 100);
}

#[test]
fn throughput_metric_uses_clamped_size() {
    let style = Style::Throughput { iterations: 100 };
    assert_eq!(measure_metric(style, 65536, 1_000_000), Metric::BytesPerSecond(3_276_800));
    assert_eq!(measure_metric(style, 4096, 0), Metric::Unmeasured);
}

#[test]
fn empty_sweep_finishes_after_warmup() {
    let (actions, reports) = run(vec![], Style::Latency, &[5, 6]);
    assert!(reports.is_empty());
    assert_eq!(actions[1], Action::Finished);
}

#[test]
fn hex_words_least_significant_first() {
    let mut hex = String::new();
    for _ in 0..63 {
        hex.push_str("00000000");
    }
    hex.push_str("a1B2c3D4");
    let w = words_from_be_hex(&hex).unwrap();
    assert_eq!(w.len(), WORDS_2048);
    assert_eq!(w[0], 0xa1b2c3d4);
    assert!(w[1..].iter().all(|&x| x == 0));

    let mut hex = String::from("0123456f");
    for _ in 0..63 {
        hex.push_str("00000000");
    }
    let w = words_from_be_hex(&hex).unwrap();
    assert_eq!(w[63], 0x0123456f);
    assert_eq!(w[0], 0);
}

#[test]
fn hex_rejects_bad_input() {
    let short = "ab".repeat(255);
    assert!(words_from_be_hex(&short).is_none());
    assert!(!is_valid_hex_2048(&short));
    let mut bad = "0".repeat(511);
    bad.push('g');
    assert!(words_from_be_hex(&bad).is_none());
    let long = "0".repeat(513);
    assert!(words_from_be_hex(&long).is_none());
    assert!(is_valid_hex_2048(&"F".repeat(512)));
}

#[test]
fn fixed_operands_decode() {
    let ops = mod_exp_operands().unwrap();
    assert_eq!(ops.base[0], 0xf73fa878);
    assert_eq!(ops.base[63], 0xc7f61058);
    assert_eq!(ops.exponent[0], 0x91b73f51);
    assert_eq!(ops.exponent[63], 0x1763db33);
    assert_eq!(ops.modulus[0], 0x9af1c361);
    assert_eq!(ops.modulus[63], 0x6b6bb3d2);
    assert_eq!(ops.r, vec![u32::MAX; 64]);
    assert_eq!(ops.m_prime, M_PRIME);
    assert_eq!(M_PRIME, u32::MAX - 1);
    assert_eq!(BASE_HEX.len(), 512);
    assert_eq!(EXPONENT_HEX.len(), 512);
    assert_eq!(MODULUS_HEX.len(), 512);
    assert_eq!(all_ones_words().len(), 64);
}
