use seris::benchmarks::{average_duration, measure, measure_memory, parse_rss_kb, TimingSample};

#[test]
fn measures_iterations() {
    let sample = measure(4, || {});

    assert_eq!(sample.iterations, 4);
}

#[test]
fn average_duration_handles_zero_iterations() {
    assert_eq!(
        average_duration(TimingSample {
            elapsed_nanos: 1_000_000_000,
            iterations: 0
        }),
        0
    );
}

#[test]
fn parses_rss_kb_from_proc_status() {
    let status = "Name:\tseris\nVmRSS:\t1234 kB\n";

    assert_eq!(parse_rss_kb(status), Some(1234));
}

#[test]
fn average_duration_divides_elapsed_time() {
    let sample = TimingSample {
        elapsed_nanos: 1_000,
        iterations: 4,
    };

    assert_eq!(average_duration(sample), 250);
}

#[test]
fn average_duration_keeps_low_sixty_four_bits() {
    let sample = TimingSample {
        elapsed_nanos: (1u128 << 64) + 10,
        iterations: 5,
    };

    assert_eq!(average_duration(sample), 2);
}

#[test]
fn rss_parse_handles_crlf_and_plus_sign() {
    assert_eq!(parse_rss_kb("Name:\tx\r\nVmRSS:\t+77 kB\r\n"), Some(77));
}

#[test]
fn rss_parse_rejects_missing_or_bad_values() {
    assert_eq!(parse_rss_kb("Name:\tseris\n"), None);
    assert_eq!(parse_rss_kb("VmRSS:\n"), None);
    assert_eq!(parse_rss_kb("VmRSS:\t12a kB\n"), None);
    assert_eq!(parse_rss_kb("VmRSS:\t18446744073709551616 kB\n"), None);
    assert_eq!(parse_rss_kb("VmRSS:\t18446744073709551615 kB"), Some(u64::MAX));
    assert_eq!(parse_rss_kb("  VmRSS:\t5 kB\n"), None);
}

#[test]
fn rss_parse_uses_first_matching_line() {
    assert_eq!(parse_rss_kb("VmRSS:\t1 kB\nVmRSS:\t2 kB\n"), Some(1));
}

#[test]
fn measures_memory_with_the_given_reader() {
    let sample = measure_memory(3, || {}, || Some(42));

    assert_eq!(sample.iterations, 3);
    assert_eq!(sample.rss_before, Some(42));
    assert_eq!(sample.rss_after, Some(42));
}
