use monerod_exporter::client::{
    BlockHeader, BlockHeadersRangeRequest, BlockHeadersRangeResponse, ClientError, InfoResponse,
    TransactionPoolStats, TransactionPoolStatsResponse,
};
use monerod_exporter::config::Period;
use monerod_exporter::metrics::{BlocksMetrics, Export, ExportError, Exporter, Publisher, Statistic};
use monerod_exporter::prometheus::{Metric, Number, RenderError};

fn header(num_txes: u64, reward: u64, block_size: u64, orphan_status: bool) -> BlockHeader {
    BlockHeader { block_size, num_txes, orphan_status, reward }
}

fn info(height: u64, synchronized: bool, untrusted: bool) -> InfoResponse {
    InfoResponse {
        block_size_limit: 600000,
        block_size_median: 300000,
        block_weight_limit: 600001,
        block_weight_median: 300001,
        cumulative_difficulty: 18446744073709551615,
        database_size: 95000000000,
        difficulty: 350000000000,
        free_space: 120000000000,
        grey_peerlist_size: 5000,
        height,
        incoming_connections_count: 12,
        offline: false,
        outgoing_connections_count: 8,
        rpc_connections_count: 1,
        synchronized,
        target: 120,
        target_height: 2500000,
        tx_count: 20000000,
        tx_pool_size: 17,
        untrusted,
        white_peerlist_size: 1000,
    }
}

fn pool_stats() -> TransactionPoolStats {
    TransactionPoolStats {
        bytes_max: 101,
        bytes_med: 102,
        bytes_min: 103,
        bytes_total: 104,
        num_10m: 105,
        num_double_spends: 106,
        num_failing: 107,
        num_not_relayed: 108,
        oldest: 109,
        txs_total: 110,
    }
}

fn numeral(number: &Number) -> String {
    format!("{}", number.numerator as f64 / number.denominator as f64)
}

fn numerals(metrics: &Vec<Metric>) -> Vec<Vec<String>> {
    metrics.iter().map(|m| m.numbers().iter().map(numeral).collect()).collect()
}

fn names(metrics: &Vec<Metric>) -> Vec<String> {
    metrics.iter().map(|m| m.name().to_string()).collect()
}

const NODE_NAMES: [&str; 9] = [
    "monero_node_database_size",
    "monero_node_free_space",
    "monero_node_grey_peerlist_size",
    "monero_node_incoming_connections_count",
    "monero_node_offline",
    "monero_node_outgoing_connections_count",
    "monero_node_rpc_connections_count",
    "monero_node_synchronized",
    "monero_node_white_peerlist_size",
];

#[test]
fn stats_are_mean_and_maximum_of_the_window() {
    let headers = vec![header(1, 10, 100, false), header(4, 30, 50, false), header(2, 20, 300, false)];
    let stats = Exporter::get_blocks_metrics(&headers, 3);
    assert_eq!(
        stats,
        BlocksMetrics {
            avg_txes: Number { numerator: 7, denominator: 3 },
            max_txes: Number { numerator: 4, denominator: 1 },
            avg_reward: Number { numerator: 60, denominator: 3 },
            max_reward: Number { numerator: 30, denominator: 1 },
            avg_size: Number { numerator: 450, denominator: 3 },
            max_size: Number { numerator: 300, denominator: 1 },
        }
    );
}

#[test]
fn stats_leave_orphans_out() {
    let headers = vec![header(1, 10, 100, false), header(900, 900, 900, true), header(3, 20, 300, false)];
    let stats = Exporter::get_blocks_metrics(&headers, 3);
    assert_eq!(stats.avg_txes, Number::mean(4, 2));
    assert_eq!(stats.max_txes, Number::integer(3));
    assert_eq!(stats.avg_reward, Number::mean(30, 2));
    assert_eq!(stats.max_reward, Number::integer(20));
    assert_eq!(stats.avg_size, Number::mean(400, 2));
    assert_eq!(stats.max_size, Number::integer(300));
}

#[test]
fn stats_take_the_first_headers_of_the_window() {
    let headers = vec![header(1, 1, 1, false), header(2, 2, 2, false), header(30, 30, 30, false)];
    let stats = Exporter::get_blocks_metrics(&headers, 2);
    assert_eq!(stats.avg_txes, Number::mean(3, 2));
    assert_eq!(stats.max_txes, Number::integer(2));
    let stats = Exporter::get_blocks_metrics(&headers, 1);
    assert_eq!(stats.avg_size, Number::mean(1, 1));
    assert_eq!(stats.max_reward, Number::integer(1));
}

#[test]
fn stats_of_no_header_have_no_mean() {
    let stats = Exporter::get_blocks_metrics(&[], 30);
    assert_eq!(stats.avg_txes, Number { numerator: 0, denominator: 0 });
    assert_eq!(stats.avg_reward, Number { numerator: 0, denominator: 0 });
    assert_eq!(stats.avg_size, Number { numerator: 0, denominator: 0 });
    assert_eq!(stats.max_txes, Number::integer(0));
    assert_eq!(stats.max_reward, Number::integer(0));
    assert_eq!(stats.max_size, Number::integer(0));
    assert_eq!(numeral(&stats.avg_txes), "NaN");
}

#[test]
fn stats_of_orphans_only_have_no_mean() {
    let headers = vec![header(5, 5, 5, true), header(6, 6, 6, true)];
    let stats = Exporter::get_blocks_metrics(&headers, 2);
    assert_eq!(stats.avg_txes, Number::mean(0, 0));
    assert_eq!(stats.max_txes, Number::integer(0));
}

#[test]
fn stats_of_a_span_of_zero_blocks_have_no_mean() {
    let headers = vec![header(5, 5, 5, false)];
    let stats = Exporter::get_blocks_metrics(&headers, 0);
    assert_eq!(stats.avg_reward, Number::mean(0, 0));
    assert_eq!(stats.max_reward, Number::integer(0));
}

#[test]
fn stats_add_up_the_largest_values_exactly() {
    let headers = vec![header(u64::MAX, u64::MAX, u64::MAX, false); 3];
    let stats = Exporter::get_blocks_metrics(&headers, 3);
    assert_eq!(stats.avg_txes, Number { numerator: 3 * (u64::MAX as u128), denominator: 3 });
    assert_eq!(stats.max_txes, Number::integer(u64::MAX));
}

#[test]
fn spans_clamp_to_a_window_of_fifty_headers() {
    let headers: Vec<BlockHeader> = (1..=50).map(|i| header(i, 2 * i, 3 * i, i % 10 == 0)).collect();
    let kept: Vec<u64> = (1..=50).filter(|i| i % 10 != 0).collect();
    let sum: u64 = kept.iter().sum();
    for span in [30u32, 180, 720] {
        let stats = Exporter::get_blocks_metrics(&headers, span);
        if span == 30 {
            let sum30: u64 = (1..=30).filter(|i| i % 10 != 0).sum();
            assert_eq!(stats.avg_txes, Number::mean(sum30 as u128, 27));
            assert_eq!(stats.max_txes, Number::integer(29));
        } else {
            assert_eq!(stats.avg_txes, Number::mean(sum as u128, 45));
            assert_eq!(stats.avg_reward, Number::mean(2 * sum as u128, 45));
            assert_eq!(stats.avg_size, Number::mean(3 * sum as u128, 45));
            assert_eq!(stats.max_txes, Number::integer(49));
            assert_eq!(stats.max_reward, Number::integer(98));
            assert_eq!(stats.max_size, Number::integer(147));
        }
    }
    assert_eq!(
        Exporter::get_blocks_metrics(&headers, 180),
        Exporter::get_blocks_metrics(&headers, 720)
    );
    assert_eq!(Exporter::get_blocks_metrics(&headers, 50), Exporter::get_blocks_metrics(&headers, 720));
}

#[test]
fn statistic_selects_its_field() {
    let stats = Exporter::get_blocks_metrics(&[header(1, 2, 3, false), header(3, 6, 9, false)], 2);
    assert_eq!(stats.get(Statistic::AvgTxes), Number::mean(4, 2));
    assert_eq!(stats.get(Statistic::MaxTxes), Number::integer(3));
    assert_eq!(stats.get(Statistic::AvgReward), Number::mean(8, 2));
    assert_eq!(stats.get(Statistic::MaxReward), Number::integer(6));
    assert_eq!(stats.get(Statistic::AvgSize), Number::mean(12, 2));
    assert_eq!(stats.get(Statistic::MaxSize), Number::integer(9));
}

#[test]
fn exporter_without_spans_has_the_span_of_one_block() {
    let exporter = Exporter::new(Vec::new());
    assert_eq!(exporter.block_spans(), &vec![1]);
    assert_eq!(exporter.max_block_span(), 1);
}

#[test]
fn exporter_keeps_its_spans_and_knows_the_largest() {
    let exporter = Exporter::new(vec![30, 720, 180]);
    assert_eq!(exporter.block_spans(), &vec![30, 720, 180]);
    assert_eq!(exporter.max_block_span(), 720);
    let exporter = Exporter::new(vec![0]);
    assert_eq!(exporter.block_spans(), &vec![0]);
    assert_eq!(exporter.max_block_span(), 0);
}

#[test]
fn failed_info_fails_the_cycle() {
    let exporter = Exporter::new(vec![30]);
    match exporter.export(Err(ClientError::HttpClient("connection refused".to_string()))) {
        Export::Done(Err(ExportError::Client(ClientError::HttpClient(e)))) => {
            assert_eq!(e, "connection refused")
        }
        other => panic!("unexpected step: {:?}", other),
    }
    match exporter.export(Err(ClientError::NoResult)) {
        Export::Done(Err(ExportError::Client(ClientError::NoResult))) => {}
        other => panic!("unexpected step: {:?}", other),
    }
}

#[test]
fn untrusted_info_fails_the_cycle() {
    let exporter = Exporter::new(vec![30]);
    assert!(matches!(
        exporter.export(Ok(info(1000, true, true))),
        Export::Done(Err(ExportError::Untrusted))
    ));
    assert!(matches!(
        exporter.export(Ok(info(1000, false, true))),
        Export::Done(Err(ExportError::Untrusted))
    ));
}

#[test]
fn unsynchronized_node_exports_its_own_gauges_only() {
    let exporter = Exporter::new(vec![30, 180, 720]);
    let metrics = match exporter.export(Ok(info(1000, false, false))) {
        Export::Done(Ok(metrics)) => metrics,
        other => panic!("unexpected step: {:?}", other),
    };
    assert_eq!(names(&metrics), NODE_NAMES);
    let text = Exporter::render(&metrics, &numerals(&metrics)).unwrap();
    assert_eq!(
        text,
        "# HELP monero_node_database_size\n# TYPE monero_node_database_size gauge\n\
         monero_node_database_size 95000000000\n\
         # HELP monero_node_free_space\n# TYPE monero_node_free_space gauge\n\
         monero_node_free_space 120000000000\n\
         # HELP monero_node_grey_peerlist_size\n# TYPE monero_node_grey_peerlist_size gauge\n\
         monero_node_grey_peerlist_size 5000\n\
         # HELP monero_node_incoming_connections_count\n\
         # TYPE monero_node_incoming_connections_count gauge\n\
         monero_node_incoming_connections_count 12\n\
         # HELP monero_node_offline\n# TYPE monero_node_offline gauge\n\
         monero_node_offline 0\n\
         # HELP monero_node_outgoing_connections_count\n\
         # TYPE monero_node_outgoing_connections_count gauge\n\
         monero_node_outgoing_connections_count 8\n\
         # HELP monero_node_rpc_connections_count\n# TYPE monero_node_rpc_connections_count gauge\n\
         monero_node_rpc_connections_count 1\n\
         # HELP monero_node_synchronized\n# TYPE monero_node_synchronized gauge\n\
         monero_node_synchronized 0\n\
         # HELP monero_node_white_peerlist_size\n# TYPE monero_node_white_peerlist_size gauge\n\
         monero_node_white_peerlist_size 1000\n"
    );
    assert!(!text.contains("monero_txpool"));
    assert!(!text.contains("monero_network"));
    assert!(!text.contains("monero_blocks"));
}

#[test]
fn synchronized_node_asks_for_the_headers_below_its_height() {
    let exporter = Exporter::new(vec![30, 180, 720]);
    match exporter.export(Ok(info(1000, true, false))) {
        Export::Fetch(held, request) => {
            assert_eq!(held.height, 1000);
            assert_eq!(request, BlockHeadersRangeRequest { start_height: 280, end_height: 999 });
        }
        other => panic!("unexpected step: {:?}", other),
    }
    match exporter.export(Ok(info(720, true, false))) {
        Export::Fetch(_, request) => {
            assert_eq!(request, BlockHeadersRangeRequest { start_height: 0, end_height: 719 });
        }
        other => panic!("unexpected step: {:?}", other),
    }
}

#[test]
fn short_chain_is_asked_for_from_height_zero() {
    let exporter = Exporter::new(vec![30, 180, 720]);
    match exporter.export(Ok(info(5, true, false))) {
        Export::Fetch(_, request) => {
            assert_eq!(request, BlockHeadersRangeRequest { start_height: 0, end_height: 4 });
        }
        other => panic!("unexpected step: {:?}", other),
    }
    match exporter.export(Ok(info(0, true, false))) {
        Export::Fetch(_, request) => {
            assert_eq!(request, BlockHeadersRangeRequest { start_height: 0, end_height: 0 });
        }
        other => panic!("unexpected step: {:?}", other),
    }
}

#[test]
fn failed_fetch_fails_the_cycle() {
    let exporter = Exporter::new(vec![30]);
    let outcome = exporter.resume(&info(1000, true, false), Err(ClientError::UnexpectedStatus));
    assert!(matches!(outcome, Err(ExportError::Client(ClientError::UnexpectedStatus))));
    let outcome = exporter.resume(
        &info(1000, true, false),
        Err(ClientError::ResponseDeserialization("missing field".to_string())),
    );
    match outcome {
        Err(ExportError::Client(ClientError::ResponseDeserialization(e))) => {
            assert_eq!(e, "missing field")
        }
        other => panic!("unexpected outcome: {:?}", other),
    }
}

#[test]
fn synchronized_node_exports_all_gauges_in_their_order() {
    let exporter = Exporter::new(vec![2, 1, 720]);
    let headers = vec![header(4, 600, 1000, false), header(1, 601, 3000, false), header(9, 9, 9, true)];
    let fetched = Ok((
        TransactionPoolStatsResponse { pool_stats: pool_stats(), untrusted: false },
        BlockHeadersRangeResponse { headers, untrusted: false },
    ));
    let metrics = exporter.resume(&info(1000, true, false), fetched).unwrap();
    let mut expected: Vec<&str> = NODE_NAMES.to_vec();
    expected.extend([
        "monero_txpool_bytes_max",
        "monero_txpool_bytes_med",
        "monero_txpool_bytes_min",
        "monero_txpool_bytes_total",
        "monero_txpool_double_spends",
        "monero_txpool_txs_failing",
        "monero_txpool_txs_not_relayed",
        "monero_txpool_oldest_tx",
        "monero_txpool_txs_above_10min",
        "monero_txpool_txs_total",
        "monero_network_block_size_limit",
        "monero_network_block_size_median",
        "monero_network_block_weight_limit",
        "monero_network_block_weight_median",
        "monero_network_cumulative_difficulty",
        "monero_network_difficulty",
        "monero_network_height",
        "monero_network_target",
        "monero_network_target_height",
        "monero_network_tx_count",
        "monero_blocks_avg_txes",
        "monero_blocks_max_txes",
        "monero_blocks_avg_reward",
        "monero_blocks_max_reward",
        "monero_blocks_avg_size",
        "monero_blocks_max_size",
    ]);
    assert_eq!(names(&metrics), expected);

    let numbers: Vec<Vec<Number>> = metrics.iter().map(|m| m.numbers()).collect();
    let whole = |values: &[u64]| -> Vec<Vec<Number>> {
        values.iter().map(|v| vec![Number::integer(*v)]).collect()
    };
    assert_eq!(numbers[0..9], whole(&[95000000000, 120000000000, 5000, 12, 0, 8, 1, 1, 1000]));
    assert_eq!(numbers[9..19], whole(&[101, 102, 103, 104, 106, 107, 108, 109, 105, 110]));
    assert_eq!(
        numbers[19..29],
        whole(&[
            600000,
            300000,
            600001,
            300001,
            18446744073709551615,
            350000000000,
            1000,
            120,
            2500000,
            20000000
        ])
    );
    assert_eq!(numbers[29], vec![Number::mean(5, 2), Number::mean(4, 1), Number::mean(5, 2)]);
    assert_eq!(numbers[30], vec![Number::integer(4), Number::integer(4), Number::integer(4)]);
    assert_eq!(numbers[31], vec![Number::mean(1201, 2), Number::mean(600, 1), Number::mean(1201, 2)]);
    assert_eq!(numbers[32], vec![Number::integer(601), Number::integer(600), Number::integer(601)]);
    assert_eq!(numbers[33], vec![Number::mean(4000, 2), Number::mean(1000, 1), Number::mean(4000, 2)]);
    assert_eq!(numbers[34], vec![Number::integer(3000), Number::integer(1000), Number::integer(3000)]);

    let text = Exporter::render(&metrics, &numerals(&metrics)).unwrap();
    assert!(text.starts_with(
        "# HELP monero_node_database_size\n# TYPE monero_node_database_size gauge\n\
         monero_node_database_size 95000000000\n"
    ));
    assert!(text.contains(
        "# HELP monero_network_cumulative_difficulty\n\
         # TYPE monero_network_cumulative_difficulty gauge\n\
         monero_network_cumulative_difficulty 18446744073709552000\n"
    ));
    assert!(text.ends_with(
        "# HELP monero_blocks_avg_size\n# TYPE monero_blocks_avg_size gauge\n\
         monero_blocks_avg_size{block_count=\"2\"} 2000\n\
         monero_blocks_avg_size{block_count=\"1\"} 1000\n\
         monero_blocks_avg_size{block_count=\"720\"} 2000\n\
         # HELP monero_blocks_max_size\n# TYPE monero_blocks_max_size gauge\n\
         monero_blocks_max_size{block_count=\"2\"} 3000\n\
         monero_blocks_max_size{block_count=\"1\"} 1000\n\
         monero_blocks_max_size{block_count=\"720\"} 3000\n"
    ));
    assert!(text.contains(
        "monero_blocks_avg_txes{block_count=\"2\"} 2.5\n\
         monero_blocks_avg_txes{block_count=\"1\"} 4\n\
         monero_blocks_avg_txes{block_count=\"720\"} 2.5\n"
    ));
}

#[test]
fn synchronized_node_without_headers_still_renders() {
    let exporter = Exporter::new(vec![30]);
    let fetched = Ok((
        TransactionPoolStatsResponse { pool_stats: pool_stats(), untrusted: false },
        BlockHeadersRangeResponse { headers: Vec::new(), untrusted: false },
    ));
    let metrics = exporter.resume(&info(0, true, false), fetched).unwrap();
    let text = Exporter::render(&metrics, &numerals(&metrics)).unwrap();
    assert!(text.contains("monero_blocks_avg_txes{block_count=\"30\"} NaN\n"));
    assert!(text.contains("monero_blocks_max_txes{block_count=\"30\"} 0\n"));
}

#[test]
fn untrusted_flags_of_the_fetches_are_not_looked_at() {
    let exporter = Exporter::new(vec![1]);
    let fetched = Ok((
        TransactionPoolStatsResponse { pool_stats: pool_stats(), untrusted: true },
        BlockHeadersRangeResponse { headers: vec![header(1, 1, 1, false)], untrusted: true },
    ));
    assert_eq!(exporter.resume(&info(10, true, false), fetched).unwrap().len(), 35);
}

#[test]
fn gauges_without_numerals_are_a_rendering_error() {
    let metrics = vec![Metric::new_gauge("a", Number::integer(1))];
    assert!(matches!(
        Exporter::render(&metrics, &Vec::new()),
        Err(ExportError::Renderer(RenderError))
    ));
    assert_eq!(Exporter::render(&Vec::new(), &Vec::new()).unwrap(), "");
}

#[test]
fn publisher_holds_nothing_before_the_first_cycle() {
    let publisher = Publisher::new(Exporter::new(vec![30]), Period::from_secs(15));
    assert_eq!(publisher.get_metrics(), None);
    assert_eq!(publisher.respond(), (503, String::new()));
    assert_eq!(publisher.refresh_interval(), Period { secs: 15, nanos: 0 });
    assert_eq!(publisher.exporter().block_spans(), &vec![30]);
}

#[test]
fn publisher_holds_the_text_of_a_cycle_that_succeeded() {
    let mut publisher = Publisher::new(Exporter::new(vec![30]), Period::from_secs(15));
    publisher.run(Ok("# HELP a\n".to_string()));
    assert_eq!(publisher.get_metrics(), Some("# HELP a\n".to_string()));
    assert_eq!(publisher.respond(), (200, "# HELP a\n".to_string()));
    publisher.run(Ok("# HELP b\n".to_string()));
    assert_eq!(publisher.get_metrics(), Some("# HELP b\n".to_string()));
    assert_eq!(publisher.get_metrics(), Some("# HELP b\n".to_string()));
}

#[test]
fn untrusted_cycle_leaves_no_snapshot() {
    let mut publisher = Publisher::new(Exporter::new(vec![30]), Period::from_secs(15));
    let outcome = match publisher.exporter().export(Ok(info(1000, true, true))) {
        Export::Done(Err(e)) => Err(e),
        other => panic!("unexpected step: {:?}", other),
    };
    assert!(matches!(outcome, Err(ExportError::Untrusted)));
    publisher.run(outcome);
    assert_eq!(publisher.get_metrics(), None);
    assert_eq!(publisher.respond(), (503, String::new()));
}

#[test]
fn failed_cycle_after_a_good_one_leaves_no_stale_text() {
    let mut publisher = Publisher::new(Exporter::new(vec![30]), Period::from_secs(15));
    let metrics = match publisher.exporter().export(Ok(info(1000, false, false))) {
        Export::Done(Ok(metrics)) => metrics,
        other => panic!("unexpected step: {:?}", other),
    };
    publisher.run(Exporter::render(&metrics, &numerals(&metrics)));
    assert!(publisher.get_metrics().unwrap().starts_with("# HELP monero_node_database_size\n"));
    assert_eq!(publisher.respond().0, 200);

    let outcome =
        match publisher.exporter().export(Err(ClientError::HttpClient("timed out".to_string()))) {
            Export::Done(Err(e)) => Err(e),
            other => panic!("unexpected step: {:?}", other),
        };
    publisher.run(outcome);
    assert_eq!(publisher.get_metrics(), None);
    assert_eq!(publisher.respond(), (503, String::new()));
}

#[test]
fn export_errors_describe_themselves() {
    assert_eq!(
        ExportError::Client(ClientError::NoResult).message(),
        "monero RPC client error: result not found in the response"
    );
    assert_eq!(
        ExportError::Renderer(RenderError).message(),
        "rendering error: an error occurred when formatting an argument"
    );
    assert_eq!(ExportError::Untrusted.message(), "received an untrusted response from node");
}
