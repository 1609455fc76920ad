//! The export cycle: block statistics over the configured spans, the ordered
//! list of gauges, and the published snapshot.

use vstd::prelude::*;
use crate::client::{
    BlockHeader, BlockHeadersRangeRequest, BlockHeadersRangeResponse, ClientError, InfoResponse,
    TransactionPoolStats, TransactionPoolStatsResponse,
};
use crate::config::Period;
use crate::decimal::{decimal, to_decimal};
use crate::prometheus::{
    gauge, labeled_gauge, metrics_text, numerals_fit, render_metrics, Metric, MetricView, Number,
    RenderError,
};

verus! {

/// A quantity that a block header carries.
#[derive(Clone, Copy, Debug, PartialEq, Eq, Structural)]
pub enum Measure {
    Txes,
    Reward,
    Size,
}

/// The value of a measure in a header.
pub open spec fn measure(header: BlockHeader, m: Measure) -> nat {
    match m {
        Measure::Txes => header.num_txes as nat,
        Measure::Reward => header.reward as nat,
        Measure::Size => header.block_size as nat,
    }
}

/// The headers that count: those not flagged orphan.
pub open spec fn settled() -> spec_fn(BlockHeader) -> bool {
    |header: BlockHeader| !header.orphan_status
}

/// How many headers a span of `count` blocks takes from a window of `len`.
pub open spec fn taken(len: nat, count: nat) -> nat {
    if count <= len {
        count
    } else {
        len
    }
}

/// The headers that a span of `count` blocks aggregates: of the first `count`
/// headers, or of all where there are fewer, those not flagged orphan.
pub open spec fn window(headers: Seq<BlockHeader>, count: nat) -> Seq<BlockHeader> {
    headers.take(taken(headers.len(), count) as int).filter(settled())
}

/// The sum of a measure over headers.
pub open spec fn total(headers: Seq<BlockHeader>, m: Measure) -> nat
    decreases headers.len(),
{
    if headers.len() == 0 {
        0
    } else {
        total(headers.drop_last(), m) + measure(headers.last(), m)
    }
}

/// The largest value of a measure over headers; zero over none.
pub open spec fn peak(headers: Seq<BlockHeader>, m: Measure) -> nat
    decreases headers.len(),
{
    if headers.len() == 0 {
        0
    } else {
        let rest = peak(headers.drop_last(), m);
        if measure(headers.last(), m) > rest {
            measure(headers.last(), m)
        } else {
            rest
        }
    }
}

/// The statistics of one span: mean and maximum of the transaction count, the
/// reward and the size.
#[derive(Clone, Copy, Debug, PartialEq, Eq, Structural)]
pub struct BlocksMetrics {
    pub avg_txes: Number,
    pub max_txes: Number,
    pub avg_reward: Number,
    pub max_reward: Number,
    pub avg_size: Number,
    pub max_size: Number,
}

/// The statistics of a span of `count` blocks over a window of headers: each
/// mean is the sum over the headers of [`window`] with their number as its
/// denominator, each maximum a whole number.
pub open spec fn block_stats(headers: Seq<BlockHeader>, count: nat) -> BlocksMetrics {
    let kept = window(headers, count);
    BlocksMetrics {
        avg_txes: Number::ratio(total(kept, Measure::Txes), kept.len()),
        max_txes: Number::whole(peak(kept, Measure::Txes)),
        avg_reward: Number::ratio(total(kept, Measure::Reward), kept.len()),
        max_reward: Number::whole(peak(kept, Measure::Reward)),
        avg_size: Number::ratio(total(kept, Measure::Size), kept.len()),
        max_size: Number::whole(peak(kept, Measure::Size)),
    }
}

/// A sum over headers is at most their number times the largest `u64`, and a
/// maximum is at most the largest `u64`.
pub proof fn lemma_total_and_peak_bounded(headers: Seq<BlockHeader>, m: Measure)
    ensures
        total(headers, m) <= headers.len() * u64::MAX,
        peak(headers, m) <= u64::MAX,
    decreases headers.len(),
{
    if headers.len() > 0 {
        lemma_total_and_peak_bounded(headers.drop_last(), m);
        assert(headers.drop_last().len() * u64::MAX + u64::MAX == headers.len() * u64::MAX)
            by (nonlinear_arith)
            requires
                headers.drop_last().len() + 1 == headers.len(),
        ;
    }
}

/// Taking one header more either leaves the kept headers as they were, where
/// that header is an orphan, or adds it at their end.
proof fn lemma_window_step(headers: Seq<BlockHeader>, i: int)
    requires
        0 <= i < headers.len(),
    ensures
        headers.take(i + 1).filter(settled()) == if headers[i].orphan_status {
            headers.take(i).filter(settled())
        } else {
            headers.take(i).filter(settled()).push(headers[i])
        },
{
    reveal(Seq::filter);
    assert(headers.take(i + 1).drop_last() =~= headers.take(i));
}

proof fn lemma_push_stats(kept: Seq<BlockHeader>, header: BlockHeader, m: Measure)
    ensures
        total(kept.push(header), m) == total(kept, m) + measure(header, m),
        peak(kept.push(header), m) == if measure(header, m) > peak(kept, m) {
            measure(header, m)
        } else {
            peak(kept, m)
        },
{
    assert(kept.push(header).drop_last() =~= kept);
}

/// The configured spans and the work of one export cycle.
#[derive(Debug)]
pub struct Exporter {
    max_block_span: u32,
    block_spans: Vec<u32>,
}

impl Exporter {
    /// The statistics of a span of `count` blocks over the fetched window.
    pub fn get_blocks_metrics(headers: &[BlockHeader], count: u32) -> (stats: BlocksMetrics)
        ensures
            stats == block_stats(headers@, count as nat),
            stats.avg_txes.numerator == total(window(headers@, count as nat), Measure::Txes),
            stats.avg_reward.numerator == total(window(headers@, count as nat), Measure::Reward),
            stats.avg_size.numerator == total(window(headers@, count as nat), Measure::Size),
            stats.avg_txes.denominator == window(headers@, count as nat).len(),
            stats.avg_reward.denominator == window(headers@, count as nat).len(),
            stats.avg_size.denominator == window(headers@, count as nat).len(),
            stats.max_txes.numerator == peak(window(headers@, count as nat), Measure::Txes),
            stats.max_reward.numerator == peak(window(headers@, count as nat), Measure::Reward),
            stats.max_size.numerator == peak(window(headers@, count as nat), Measure::Size),
    {
        let limit: usize = if (count as usize) <= headers.len() {
            count as usize
        } else {
            headers.len()
        };
        let mut kept: u64 = 0;
        let mut sum_txes: u128 = 0;
        let mut sum_reward: u128 = 0;
        let mut sum_size: u128 = 0;
        let mut max_txes: u64 = 0;
        let mut max_reward: u64 = 0;
        let mut max_size: u64 = 0;
        let mut i: usize = 0;
        assert(headers@.take(0).filter(settled()) =~= Seq::<BlockHeader>::empty()) by {
            reveal(Seq::filter);
        }
        while i < limit
            invariant
                i <= limit <= headers@.len(),
                limit <= count,
                kept == headers@.take(i as int).filter(settled()).len(),
                kept <= i,
                sum_txes == total(headers@.take(i as int).filter(settled()), Measure::Txes),
                sum_reward == total(headers@.take(i as int).filter(settled()), Measure::Reward),
                sum_size == total(headers@.take(i as int).filter(settled()), Measure::Size),
                max_txes == peak(headers@.take(i as int).filter(settled()), Measure::Txes),
                max_reward == peak(headers@.take(i as int).filter(settled()), Measure::Reward),
                max_size == peak(headers@.take(i as int).filter(settled()), Measure::Size),
            decreases limit - i,
        {
            let header = &headers[i];
            proof {
                let before = headers@.take(i as int).filter(settled());
                lemma_window_step(headers@, i as int);
                lemma_push_stats(before, *header, Measure::Txes);
                lemma_push_stats(before, *header, Measure::Reward);
                lemma_push_stats(before, *header, Measure::Size);
                lemma_total_and_peak_bounded(before, Measure::Txes);
                lemma_total_and_peak_bounded(before, Measure::Reward);
                lemma_total_and_peak_bounded(before, Measure::Size);
                assert(before.len() * u64::MAX + u64::MAX <= u128::MAX) by (nonlinear_arith)
                    requires
                        before.len() <= u32::MAX,
                ;
            }
            if !header.orphan_status {
                kept = kept + 1;
                sum_txes = sum_txes + header.num_txes as u128;
                sum_reward = sum_reward + header.reward as u128;
                sum_size = sum_size + header.block_size as u128;
                if header.num_txes > max_txes {
                    max_txes = header.num_txes;
                }
                if header.reward > max_reward {
                    max_reward = header.reward;
                }
                if header.block_size > max_size {
                    max_size = header.block_size;
                }
            }
            i += 1;
        }
        BlocksMetrics {
            avg_txes: Number::mean(sum_txes, kept),
            max_txes: Number::integer(max_txes),
            avg_reward: Number::mean(sum_reward, kept),
            max_reward: Number::integer(max_reward),
            avg_size: Number::mean(sum_size, kept),
            max_size: Number::integer(max_size),
        }
    }
}

/// A statistic of a span.
#[derive(Clone, Copy, Debug, PartialEq, Eq, Structural)]
pub enum Statistic {
    AvgTxes,
    MaxTxes,
    AvgReward,
    MaxReward,
    AvgSize,
    MaxSize,
}

impl BlocksMetrics {
    pub open spec fn select(self, statistic: Statistic) -> Number {
        match statistic {
            Statistic::AvgTxes => self.avg_txes,
            Statistic::MaxTxes => self.max_txes,
            Statistic::AvgReward => self.avg_reward,
            Statistic::MaxReward => self.max_reward,
            Statistic::AvgSize => self.avg_size,
            Statistic::MaxSize => self.max_size,
        }
    }

    /// The value of one statistic.
    pub fn get(&self, statistic: Statistic) -> (number: Number)
        ensures
            number == self.select(statistic),
    {
        match statistic {
            Statistic::AvgTxes => self.avg_txes,
            Statistic::MaxTxes => self.max_txes,
            Statistic::AvgReward => self.avg_reward,
            Statistic::MaxReward => self.max_reward,
            Statistic::AvgSize => self.avg_size,
            Statistic::MaxSize => self.max_size,
        }
    }
}

/// The spans that an exporter works with: the configured ones, or the single
/// span of one block where none is configured.
pub open spec fn coerced(spans: Seq<u32>) -> Seq<u32> {
    if spans.len() == 0 {
        seq![1u32]
    } else {
        spans
    }
}

/// The largest of the spans; zero of none.
pub open spec fn largest(spans: Seq<u32>) -> u32
    decreases spans.len(),
{
    if spans.len() == 0 {
        0
    } else {
        let rest = largest(spans.drop_last());
        if spans.last() > rest {
            spans.last()
        } else {
            rest
        }
    }
}

/// The range of headers to fetch at a chain height: the last `max_span`
/// heights below `height` and one more, or all from height zero where the
/// chain is shorter.
pub open spec fn headers_window(height: u64, max_span: u32) -> BlockHeadersRangeRequest {
    BlockHeadersRangeRequest {
        start_height: if height >= max_span {
            (height - max_span) as u64
        } else {
            0
        },
        end_height: if height >= 1 {
            (height - 1) as u64
        } else {
            0
        },
    }
}

/// One for `true`, zero for `false`.
pub open spec fn flag(value: bool) -> Number {
    Number::whole(if value { 1nat } else { 0nat })
}

/// The gauges of the node itself, which every export holds.
pub open spec fn node_metrics(info: InfoResponse) -> Seq<MetricView> {
    seq![
        gauge("monero_node_database_size"@, Number::whole(info.database_size as nat)),
        gauge("monero_node_free_space"@, Number::whole(info.free_space as nat)),
        gauge("monero_node_grey_peerlist_size"@, Number::whole(info.grey_peerlist_size as nat)),
        gauge(
            "monero_node_incoming_connections_count"@,
            Number::whole(info.incoming_connections_count as nat),
        ),
        gauge("monero_node_offline"@, flag(info.offline)),
        gauge(
            "monero_node_outgoing_connections_count"@,
            Number::whole(info.outgoing_connections_count as nat),
        ),
        gauge("monero_node_rpc_connections_count"@, Number::whole(info.rpc_connections_count as nat)),
        gauge("monero_node_synchronized"@, flag(info.synchronized)),
        gauge("monero_node_white_peerlist_size"@, Number::whole(info.white_peerlist_size as nat)),
    ]
}

/// The gauges of the transaction pool.
pub open spec fn pool_metrics(stats: TransactionPoolStats) -> Seq<MetricView> {
    seq![
        gauge("monero_txpool_bytes_max"@, Number::whole(stats.bytes_max as nat)),
        gauge("monero_txpool_bytes_med"@, Number::whole(stats.bytes_med as nat)),
        gauge("monero_txpool_bytes_min"@, Number::whole(stats.bytes_min as nat)),
        gauge("monero_txpool_bytes_total"@, Number::whole(stats.bytes_total as nat)),
        gauge("monero_txpool_double_spends"@, Number::whole(stats.num_double_spends as nat)),
        gauge("monero_txpool_txs_failing"@, Number::whole(stats.num_failing as nat)),
        gauge("monero_txpool_txs_not_relayed"@, Number::whole(stats.num_not_relayed as nat)),
        gauge("monero_txpool_oldest_tx"@, Number::whole(stats.oldest as nat)),
        gauge("monero_txpool_txs_above_10min"@, Number::whole(stats.num_10m as nat)),
        gauge("monero_txpool_txs_total"@, Number::whole(stats.txs_total as nat)),
    ]
}

/// The gauges of the network.
pub open spec fn network_metrics(info: InfoResponse) -> Seq<MetricView> {
    seq![
        gauge("monero_network_block_size_limit"@, Number::whole(info.block_size_limit as nat)),
        gauge("monero_network_block_size_median"@, Number::whole(info.block_size_median as nat)),
        gauge("monero_network_block_weight_limit"@, Number::whole(info.block_weight_limit as nat)),
        gauge("monero_network_block_weight_median"@, Number::whole(info.block_weight_median as nat)),
        gauge(
            "monero_network_cumulative_difficulty"@,
            Number::whole(info.cumulative_difficulty as nat),
        ),
        gauge("monero_network_difficulty"@, Number::whole(info.difficulty as nat)),
        gauge("monero_network_height"@, Number::whole(info.height as nat)),
        gauge("monero_network_target"@, Number::whole(info.target as nat)),
        gauge("monero_network_target_height"@, Number::whole(info.target_height as nat)),
        gauge("monero_network_tx_count"@, Number::whole(info.tx_count as nat)),
    ]
}

/// The samples of one statistic: for each span, in the order of the spans,
/// the span in decimal as the label value and the statistic over that span.
pub open spec fn span_samples(
    spans: Seq<u32>,
    headers: Seq<BlockHeader>,
    statistic: Statistic,
) -> Seq<(Seq<char>, Number)> {
    Seq::new(
        spans.len(),
        |i: int| (decimal(spans[i] as nat), block_stats(headers, spans[i] as nat).select(statistic)),
    )
}

/// The gauge of one statistic, with one sample for each span under the label
/// `block_count`.
pub open spec fn block_family(
    name: Seq<char>,
    spans: Seq<u32>,
    headers: Seq<BlockHeader>,
    statistic: Statistic,
) -> MetricView {
    labeled_gauge(name, "block_count"@, span_samples(spans, headers, statistic))
}

/// The gauges of the block statistics.
pub open spec fn block_metrics(spans: Seq<u32>, headers: Seq<BlockHeader>) -> Seq<MetricView> {
    seq![
        block_family("monero_blocks_avg_txes"@, spans, headers, Statistic::AvgTxes),
        block_family("monero_blocks_max_txes"@, spans, headers, Statistic::MaxTxes),
        block_family("monero_blocks_avg_reward"@, spans, headers, Statistic::AvgReward),
        block_family("monero_blocks_max_reward"@, spans, headers, Statistic::MaxReward),
        block_family("monero_blocks_avg_size"@, spans, headers, Statistic::AvgSize),
        block_family("monero_blocks_max_size"@, spans, headers, Statistic::MaxSize),
    ]
}

/// All gauges of a synchronized node, in their fixed order: those of the
/// node, of the pool, of the network and of the block statistics.
pub open spec fn synchronized_metrics(
    spans: Seq<u32>,
    info: InfoResponse,
    stats: TransactionPoolStats,
    headers: Seq<BlockHeader>,
) -> Seq<MetricView> {
    node_metrics(info) + pool_metrics(stats) + network_metrics(info) + block_metrics(spans, headers)
}

/// Why an export cycle produced no text.
#[derive(Debug)]
pub enum ExportError {
    /// A call to the daemon failed.
    Client(ClientError),
    /// The gauges could not be rendered.
    Renderer(RenderError),
    /// The daemon flagged its answer as untrusted.
    Untrusted,
}

impl ExportError {
    /// The description of the error.
    pub open spec fn text(self) -> Seq<char> {
        match self {
            ExportError::Client(e) => "monero RPC client error: "@ + e.text(),
            ExportError::Renderer(e) => "rendering error: "@ + e.text(),
            ExportError::Untrusted => "received an untrusted response from node"@,
        }
    }

    /// The description of the error: see [`ExportError::text`].
    pub fn message(&self) -> (message: String)
        ensures
            message@ == self.text(),
    {
        match self {
            ExportError::Client(e) => "monero RPC client error: ".to_owned().concat(
                e.message().as_str(),
            ),
            ExportError::Renderer(e) => "rendering error: ".to_owned().concat(e.message().as_str()),
            ExportError::Untrusted => "received an untrusted response from node".to_owned(),
        }
    }
}

/// Where an export cycle stands once the node's info has been asked for.
#[derive(Debug)]
pub enum Export {
    /// The node is synchronized. The pool statistics and the headers of the
    /// given range are to be fetched, and the cycle resumed with them.
    Fetch(InfoResponse, BlockHeadersRangeRequest),
    /// The cycle is over: with the gauges to render, or with an error.
    Done(Result<Vec<Metric>, ExportError>),
}

/// What the outcome of a cycle holds before it is rendered.
pub open spec fn outcome_view(outcome: Result<Vec<Metric>, ExportError>) -> Result<
    Seq<MetricView>,
    ExportError,
> {
    match outcome {
        Ok(metrics) => Ok(metrics.deep_view()),
        Err(e) => Err(e),
    }
}

/// What an [`Export`] holds.
pub enum ExportView {
    Fetch(InfoResponse, BlockHeadersRangeRequest),
    Done(Result<Seq<MetricView>, ExportError>),
}

impl View for Export {
    type V = ExportView;

    open spec fn view(&self) -> ExportView {
        match *self {
            Export::Fetch(info, request) => ExportView::Fetch(info, request),
            Export::Done(outcome) => ExportView::Done(outcome_view(outcome)),
        }
    }
}

/// The first step of a cycle, decided by the answer to `get_info`: a failed
/// call ends the cycle with its error, an untrusted answer with `Untrusted`; a
/// node that is not synchronized exports its own gauges alone; for a
/// synchronized one the headers below its height are fetched.
pub open spec fn first_step(max_span: u32, info: Result<InfoResponse, ClientError>) -> ExportView {
    match info {
        Err(e) => ExportView::Done(Err(ExportError::Client(e))),
        Ok(info) => if info.untrusted {
            ExportView::Done(Err(ExportError::Untrusted))
        } else if !info.synchronized {
            ExportView::Done(Ok(node_metrics(info)))
        } else {
            ExportView::Fetch(info, headers_window(info.height, max_span))
        },
    }
}

/// The gauges of a synchronized node once the two fetches have been joined,
/// or the error of the fetch that failed.
pub open spec fn second_step(
    spans: Seq<u32>,
    info: InfoResponse,
    fetched: Result<(TransactionPoolStatsResponse, BlockHeadersRangeResponse), ClientError>,
) -> Result<Seq<MetricView>, ExportError> {
    match fetched {
        Err(e) => Err(ExportError::Client(e)),
        Ok((pool, blocks)) => Ok(synchronized_metrics(spans, info, pool.pool_stats, blocks.headers@)),
    }
}

fn push_gauge(metrics: &mut Vec<Metric>, name: &str, value: Number)
    ensures
        final(metrics).deep_view() == old(metrics).deep_view().push(gauge(name@, value)),
{
    metrics.push(Metric::new_gauge(name, value));
    assert(metrics.deep_view() =~= old(metrics).deep_view().push(gauge(name@, value)));
}

fn push_node_metrics(metrics: &mut Vec<Metric>, info: &InfoResponse)
    ensures
        final(metrics).deep_view() == old(metrics).deep_view() + node_metrics(*info),
{
    push_gauge(metrics, "monero_node_database_size", Number::integer(info.database_size));
    push_gauge(metrics, "monero_node_free_space", Number::integer(info.free_space));
    push_gauge(metrics, "monero_node_grey_peerlist_size", Number::integer(info.grey_peerlist_size));
    push_gauge(
        metrics,
        "monero_node_incoming_connections_count",
        Number::integer(info.incoming_connections_count),
    );
    push_gauge(metrics, "monero_node_offline", Number::flag(info.offline));
    push_gauge(
        metrics,
        "monero_node_outgoing_connections_count",
        Number::integer(info.outgoing_connections_count),
    );
    push_gauge(
        metrics,
        "monero_node_rpc_connections_count",
        Number::integer(info.rpc_connections_count),
    );
    push_gauge(metrics, "monero_node_synchronized", Number::flag(info.synchronized));
    push_gauge(metrics, "monero_node_white_peerlist_size", Number::integer(info.white_peerlist_size));
    assert(metrics.deep_view() =~= old(metrics).deep_view() + node_metrics(*info));
}

fn push_pool_metrics(metrics: &mut Vec<Metric>, stats: &TransactionPoolStats)
    ensures
        final(metrics).deep_view() == old(metrics).deep_view() + pool_metrics(*stats),
{
    push_gauge(metrics, "monero_txpool_bytes_max", Number::integer(stats.bytes_max));
    push_gauge(metrics, "monero_txpool_bytes_med", Number::integer(stats.bytes_med));
    push_gauge(metrics, "monero_txpool_bytes_min", Number::integer(stats.bytes_min));
    push_gauge(metrics, "monero_txpool_bytes_total", Number::integer(stats.bytes_total));
    push_gauge(metrics, "monero_txpool_double_spends", Number::integer(stats.num_double_spends));
    push_gauge(metrics, "monero_txpool_txs_failing", Number::integer(stats.num_failing));
    push_gauge(metrics, "monero_txpool_txs_not_relayed", Number::integer(stats.num_not_relayed));
    push_gauge(metrics, "monero_txpool_oldest_tx", Number::integer(stats.oldest));
    push_gauge(metrics, "monero_txpool_txs_above_10min", Number::integer(stats.num_10m));
    push_gauge(metrics, "monero_txpool_txs_total", Number::integer(stats.txs_total));
    assert(metrics.deep_view() =~= old(metrics).deep_view() + pool_metrics(*stats));
}

fn push_network_metrics(metrics: &mut Vec<Metric>, info: &InfoResponse)
    ensures
        final(metrics).deep_view() == old(metrics).deep_view() + network_metrics(*info),
{
    push_gauge(metrics, "monero_network_block_size_limit", Number::integer(info.block_size_limit));
    push_gauge(metrics, "monero_network_block_size_median", Number::integer(info.block_size_median));
    push_gauge(
        metrics,
        "monero_network_block_weight_limit",
        Number::integer(info.block_weight_limit),
    );
    push_gauge(
        metrics,
        "monero_network_block_weight_median",
        Number::integer(info.block_weight_median),
    );
    push_gauge(
        metrics,
        "monero_network_cumulative_difficulty",
        Number::integer(info.cumulative_difficulty),
    );
    push_gauge(metrics, "monero_network_difficulty", Number::integer(info.difficulty));
    push_gauge(metrics, "monero_network_height", Number::integer(info.height));
    push_gauge(metrics, "monero_network_target", Number::integer(info.target));
    push_gauge(metrics, "monero_network_target_height", Number::integer(info.target_height));
    push_gauge(metrics, "monero_network_tx_count", Number::integer(info.tx_count));
    assert(metrics.deep_view() =~= old(metrics).deep_view() + network_metrics(*info));
}

fn push_block_family(
    metrics: &mut Vec<Metric>,
    name: &str,
    spans: &Vec<u32>,
    stats: &Vec<BlocksMetrics>,
    statistic: Statistic,
    headers: Ghost<Seq<BlockHeader>>,
)
    requires
        stats@.len() == spans@.len(),
        forall|i: int|
            0 <= i < spans@.len() ==> #[trigger] stats@[i] == block_stats(headers@, spans@[i] as nat),
    ensures
        final(metrics).deep_view() == old(metrics).deep_view().push(
            block_family(name@, spans@, headers@, statistic),
        ),
{
    let mut values: Vec<(String, Number)> = Vec::new();
    let mut i: usize = 0;
    while i < spans.len()
        invariant
            i <= spans@.len(),
            stats@.len() == spans@.len(),
            values@.len() == i,
            forall|j: int|
                0 <= j < spans@.len() ==> #[trigger] stats@[j] == block_stats(
                    headers@,
                    spans@[j] as nat,
                ),
            forall|j: int|
                0 <= j < i ==> (#[trigger] values@[j]).0@ == decimal(spans@[j] as nat) && values@[j].1
                    == block_stats(headers@, spans@[j] as nat).select(statistic),
        decreases spans@.len() - i,
    {
        values.push((to_decimal(spans[i] as u64), stats[i].get(statistic)));
        i += 1;
    }
    let metric = Metric::new_gauge_with_label_values(name, "block_count", values);
    assert(Seq::new(values@.len(), |i: int| (values@[i].0@, values@[i].1)) =~= span_samples(
        spans@,
        headers@,
        statistic,
    ));
    metrics.push(metric);
    assert(metrics.deep_view() =~= old(metrics).deep_view().push(
        block_family(name@, spans@, headers@, statistic),
    ));
}

impl Clone for Exporter {
    fn clone(&self) -> (copy: Self)
        ensures
            copy.spans() == self.spans(),
            copy.max_span() == self.max_span(),
    {
        proof {
            use_type_invariant(self);
        }
        let block_spans = self.block_spans.clone();
        assert(block_spans@ =~= self.block_spans@);
        Exporter { max_block_span: self.max_block_span, block_spans }
    }
}

impl Exporter {
    /// The spans of the exporter, in their configured order.
    pub closed spec fn spans(&self) -> Seq<u32> {
        self.block_spans@
    }

    /// The largest span of the exporter.
    pub closed spec fn max_span(&self) -> u32 {
        self.max_block_span
    }

    #[verifier::type_invariant]
    spec fn well_formed(&self) -> bool {
        &&& self.block_spans@.len() > 0
        &&& self.max_block_span == largest(self.block_spans@)
    }

    /// An exporter for the given spans; for the single span of one block
    /// where none is given.
    pub fn new(block_spans: Vec<u32>) -> (exporter: Exporter)
        ensures
            exporter.spans() == coerced(block_spans@),
            exporter.max_span() == largest(coerced(block_spans@)),
    {
        let mut block_spans = block_spans;
        if block_spans.len() == 0 {
            block_spans.push(1);
            assert(block_spans@ =~= seq![1u32]);
        }
        let mut max_block_span: u32 = 0;
        let mut i: usize = 0;
        assert(block_spans@.take(0) =~= Seq::<u32>::empty());
        while i < block_spans.len()
            invariant
                i <= block_spans@.len(),
                max_block_span == largest(block_spans@.take(i as int)),
            decreases block_spans@.len() - i,
        {
            assert(block_spans@.take(i + 1).drop_last() =~= block_spans@.take(i as int));
            if block_spans[i] > max_block_span {
                max_block_span = block_spans[i];
            }
            i += 1;
        }
        assert(block_spans@.take(i as int) =~= block_spans@);
        Exporter { max_block_span, block_spans }
    }

    /// The configured spans.
    pub fn block_spans(&self) -> (spans: &Vec<u32>)
        ensures
            spans@ == self.spans(),
            spans@.len() > 0,
    {
        proof {
            use_type_invariant(self);
        }
        &self.block_spans
    }

    /// The largest of the configured spans.
    pub fn max_block_span(&self) -> (span: u32)
        ensures
            span == self.max_span(),
            span == largest(self.spans()),
    {
        proof {
            use_type_invariant(self);
        }
        self.max_block_span
    }

    /// Takes the answer to `get_info` and decides how the cycle goes on: see
    /// [`first_step`].
    pub fn export(&self, info: Result<InfoResponse, ClientError>) -> (step: Export)
        ensures
            step@ == first_step(self.max_span(), info),
    {
        let info = match info {
            Ok(info) => info,
            Err(e) => {
                return Export::Done(Err(ExportError::Client(e)));
            },
        };
        if info.untrusted {
            return Export::Done(Err(ExportError::Untrusted));
        }
        if !info.synchronized {
            let mut metrics: Vec<Metric> = Vec::new();
            push_node_metrics(&mut metrics, &info);
            assert(metrics.deep_view() =~= node_metrics(info));
            return Export::Done(Ok(metrics));
        }
        let span: u64 = self.max_block_span as u64;
        let request = BlockHeadersRangeRequest {
            start_height: if info.height >= span {
                info.height - span
            } else {
                0
            },
            end_height: if info.height >= 1 {
                info.height - 1
            } else {
                0
            },
        };
        Export::Fetch(info, request)
    }

    /// Takes the joined outcome of the two fetches of a synchronized node and
    /// gives the gauges to render: see [`second_step`].
    pub fn resume(
        &self,
        info: &InfoResponse,
        fetched: Result<(TransactionPoolStatsResponse, BlockHeadersRangeResponse), ClientError>,
    ) -> (outcome: Result<Vec<Metric>, ExportError>)
        ensures
            outcome_view(outcome) == second_step(self.spans(), *info, fetched),
    {
        let (pool, blocks) = match fetched {
            Ok(pair) => pair,
            Err(e) => {
                return Err(ExportError::Client(e));
            },
        };
        let mut metrics: Vec<Metric> = Vec::new();
        push_node_metrics(&mut metrics, info);
        push_pool_metrics(&mut metrics, &pool.pool_stats);
        push_network_metrics(&mut metrics, info);

        let ghost headers = blocks.headers@;
        let mut stats: Vec<BlocksMetrics> = Vec::new();
        let mut i: usize = 0;
        while i < self.block_spans.len()
            invariant
                i <= self.block_spans@.len(),
                stats@.len() == i,
                headers == blocks.headers@,
                forall|j: int|
                    0 <= j < i ==> #[trigger] stats@[j] == block_stats(
                        headers,
                        self.block_spans@[j] as nat,
                    ),
            decreases self.block_spans@.len() - i,
        {
            stats.push(Exporter::get_blocks_metrics(blocks.headers.as_slice(), self.block_spans[i]));
            i += 1;
        }
        let spans = &self.block_spans;
        push_block_family(&mut metrics, "monero_blocks_avg_txes", spans, &stats, Statistic::AvgTxes, Ghost(headers));
        push_block_family(&mut metrics, "monero_blocks_max_txes", spans, &stats, Statistic::MaxTxes, Ghost(headers));
        push_block_family(&mut metrics, "monero_blocks_avg_reward", spans, &stats, Statistic::AvgReward, Ghost(headers));
        push_block_family(&mut metrics, "monero_blocks_max_reward", spans, &stats, Statistic::MaxReward, Ghost(headers));
        push_block_family(&mut metrics, "monero_blocks_avg_size", spans, &stats, Statistic::AvgSize, Ghost(headers));
        push_block_family(&mut metrics, "monero_blocks_max_size", spans, &stats, Statistic::MaxSize, Ghost(headers));
        assert(metrics.deep_view() =~= synchronized_metrics(
            self.spans(),
            *info,
            pool.pool_stats,
            headers,
        ));
        Ok(metrics)
    }
}

/// The text of a cycle whose gauges are rendered with the given numerals: an
/// error stays as it is, and numerals that do not fit the samples are a
/// rendering error.
pub open spec fn rendered(
    outcome: Result<Seq<MetricView>, ExportError>,
    numerals: Seq<Seq<Seq<char>>>,
) -> Result<Seq<char>, ExportError> {
    match outcome {
        Err(e) => Err(e),
        Ok(metrics) => if numerals_fit(metrics, numerals) {
            Ok(metrics_text(metrics, numerals))
        } else {
            Err(ExportError::Renderer(RenderError))
        },
    }
}

/// The text that a whole cycle produces from what the daemon answered, or the
/// error that ended it. `fetched` is read only where the first step asks for
/// the fetch.
pub open spec fn cycle(
    spans: Seq<u32>,
    max_span: u32,
    info: Result<InfoResponse, ClientError>,
    fetched: Result<(TransactionPoolStatsResponse, BlockHeadersRangeResponse), ClientError>,
    numerals: Seq<Seq<Seq<char>>>,
) -> Result<Seq<char>, ExportError> {
    match first_step(max_span, info) {
        ExportView::Done(outcome) => rendered(outcome, numerals),
        ExportView::Fetch(info, _) => rendered(second_step(spans, info, fetched), numerals),
    }
}

/// What the text of a cycle holds.
pub open spec fn text_view(outcome: Result<String, ExportError>) -> Result<Seq<char>, ExportError> {
    match outcome {
        Ok(text) => Ok(text@),
        Err(e) => Err(e),
    }
}

/// The snapshot after a cycle: the text of a cycle that succeeded, and
/// nothing after one that failed, whatever was held before.
pub open spec fn published(
    previous: Option<Seq<char>>,
    outcome: Result<Seq<char>, ExportError>,
) -> Option<Seq<char>> {
    match outcome {
        Ok(text) => Some(text),
        Err(_) => None,
    }
}

/// The status of a successful HTTP response.
pub const STATUS_OK: u16 = 200;

/// The status of an HTTP response while no snapshot is held.
pub const STATUS_SERVICE_UNAVAILABLE: u16 = 503;

/// The HTTP response for a snapshot: the text with status 200, or an empty
/// body with status 503 where there is none.
pub open spec fn response(snapshot: Option<Seq<char>>) -> (u16, Seq<char>) {
    match snapshot {
        Some(text) => (STATUS_OK, text),
        None => (STATUS_SERVICE_UNAVAILABLE, Seq::empty()),
    }
}

impl Exporter {
    /// Renders the gauges of a cycle, each sample with the numeral at its
    /// place in `numerals`: see [`rendered`].
    pub fn render(metrics: &Vec<Metric>, numerals: &Vec<Vec<String>>) -> (outcome: Result<
        String,
        ExportError,
    >)
        ensures
            text_view(outcome) == rendered(Ok(metrics.deep_view()), numerals.deep_view()),
    {
        let mut text = String::new();
        match render_metrics(metrics, numerals, &mut text) {
            Ok(()) => {
                assert(text@ =~= metrics_text(metrics.deep_view(), numerals.deep_view()));
                Ok(text)
            },
            Err(e) => Err(ExportError::Renderer(e)),
        }
    }
}

/// The exporter, its schedule and the snapshot of the last cycle.
#[derive(Debug)]
pub struct Publisher {
    exporter: Exporter,
    refresh_interval: Period,
    rendered_metrics: Option<String>,
}

impl Publisher {
    /// The text that is held, if any.
    pub closed spec fn snapshot(&self) -> Option<Seq<char>> {
        match self.rendered_metrics {
            Some(text) => Some(text@),
            None => None,
        }
    }

    /// The exporter that the cycles run.
    pub closed spec fn spec_exporter(&self) -> Exporter {
        self.exporter
    }

    /// The time between the starts of two cycles.
    pub closed spec fn spec_refresh_interval(&self) -> Period {
        self.refresh_interval
    }

    /// A publisher that holds no snapshot yet.
    pub fn new(exporter: Exporter, refresh_interval: Period) -> (publisher: Publisher)
        ensures
            publisher.snapshot() is None,
            publisher.spec_exporter() == exporter,
            publisher.spec_refresh_interval() == refresh_interval,
    {
        Publisher { exporter, refresh_interval, rendered_metrics: None }
    }

    /// The exporter that the cycles run.
    pub fn exporter(&self) -> (exporter: &Exporter)
        ensures
            *exporter == self.spec_exporter(),
    {
        &self.exporter
    }

    /// The time between the starts of two cycles.
    pub fn refresh_interval(&self) -> (period: Period)
        ensures
            period == self.spec_refresh_interval(),
    {
        self.refresh_interval
    }

    /// A copy of the snapshot, or nothing where none is held.
    pub fn get_metrics(&self) -> (metrics: Option<String>)
        ensures
            metrics is Some <==> self.snapshot() is Some,
            metrics matches Some(text) ==> Some(text@) == self.snapshot(),
    {
        match &self.rendered_metrics {
            Some(text) => Some(text.clone()),
            None => None,
        }
    }

    /// The HTTP response to any request: see [`response`].
    pub fn respond(&self) -> (reply: (u16, String))
        ensures
            (reply.0, reply.1@) == response(self.snapshot()),
    {
        match &self.rendered_metrics {
            Some(text) => (STATUS_OK, text.clone()),
            None => (STATUS_SERVICE_UNAVAILABLE, String::new()),
        }
    }

    /// Ends a cycle: holds its text from now on, or nothing where the cycle
    /// failed. What was held before is dropped either way.
    pub fn run(&mut self, outcome: Result<String, ExportError>)
        ensures
            final(self).snapshot() == published(old(self).snapshot(), text_view(outcome)),
            final(self).spec_exporter() == old(self).spec_exporter(),
            final(self).spec_refresh_interval() == old(self).spec_refresh_interval(),
    {
        self.rendered_metrics = match outcome {
            Ok(text) => Some(text),
            Err(_) => None,
        };
    }
}

/// The statistics of a span are exact: each mean holds the sum over the
/// non-orphan headers among the first `count` of the window, or among all
/// where the window is shorter, with their number as its denominator; each
/// maximum holds the largest value over the same headers.
pub proof fn block_stats_are_exact(headers: Seq<BlockHeader>, count: nat)
    requires
        headers.len() <= usize::MAX,
        count <= u32::MAX,
    ensures
        ({
            let kept = headers.take(taken(headers.len(), count) as int).filter(settled());
            let stats = block_stats(headers, count);
            &&& kept.len() <= taken(headers.len(), count) <= count
            &&& stats.avg_txes.numerator == total(kept, Measure::Txes)
            &&& stats.avg_reward.numerator == total(kept, Measure::Reward)
            &&& stats.avg_size.numerator == total(kept, Measure::Size)
            &&& stats.avg_txes.denominator == kept.len()
            &&& stats.avg_reward.denominator == kept.len()
            &&& stats.avg_size.denominator == kept.len()
            &&& stats.max_txes == Number::whole(peak(kept, Measure::Txes))
            &&& stats.max_reward == Number::whole(peak(kept, Measure::Reward))
            &&& stats.max_size == Number::whole(peak(kept, Measure::Size))
            &&& stats.max_txes.numerator == peak(kept, Measure::Txes)
            &&& stats.max_reward.numerator == peak(kept, Measure::Reward)
            &&& stats.max_size.numerator == peak(kept, Measure::Size)
        }),
{
    let kept = window(headers, count);
    headers.take(taken(headers.len(), count) as int).lemma_filter_len(settled());
    lemma_total_and_peak_bounded(kept, Measure::Txes);
    lemma_total_and_peak_bounded(kept, Measure::Reward);
    lemma_total_and_peak_bounded(kept, Measure::Size);
    assert(kept.len() * u64::MAX <= u128::MAX) by (nonlinear_arith)
        requires
            kept.len() <= u32::MAX,
    ;
}

/// The maximum is an upper bound of the measure over the headers, and one of
/// them reaches it.
pub proof fn peak_is_the_maximum(headers: Seq<BlockHeader>, m: Measure)
    ensures
        forall|i: int| 0 <= i < headers.len() ==> measure(#[trigger] headers[i], m) <= peak(headers, m),
        headers.len() > 0 ==> exists|i: int|
            0 <= i < headers.len() && measure(#[trigger] headers[i], m) == peak(headers, m),
    decreases headers.len(),
{
    if headers.len() > 0 {
        let rest = headers.drop_last();
        peak_is_the_maximum(rest, m);
        assert forall|i: int| 0 <= i < headers.len() implies measure(#[trigger] headers[i], m)
            <= peak(headers, m) by {
            if i < rest.len() {
                assert(headers[i] == rest[i]);
            }
        }
        if measure(headers.last(), m) > peak(rest, m) || rest.len() == 0 {
            assert(measure(headers[headers.len() - 1], m) == peak(headers, m));
        } else {
            let i = choose|i: int| 0 <= i < rest.len() && measure(#[trigger] rest[i], m) == peak(rest, m);
            assert(headers[i] == rest[i]);
        }
    }
}

/// Where a span keeps no header, its means are not a number and its maxima
/// are zero.
pub proof fn empty_window_has_no_mean(headers: Seq<BlockHeader>, count: nat)
    requires
        window(headers, count).len() == 0,
    ensures
        block_stats(headers, count).avg_txes.is_nan(),
        block_stats(headers, count).avg_reward.is_nan(),
        block_stats(headers, count).avg_size.is_nan(),
        block_stats(headers, count).max_txes == Number::whole(0),
        block_stats(headers, count).max_reward == Number::whole(0),
        block_stats(headers, count).max_size == Number::whole(0),
{
}

/// Gauges render whatever their values are, a mean that is not a number
/// included: with one numeral for each sample the text is there.
pub proof fn rendering_takes_any_value(metrics: Seq<MetricView>, numerals: Seq<Seq<Seq<char>>>)
    requires
        numerals_fit(metrics, numerals),
    ensures
        rendered(Ok(metrics), numerals) == Ok::<Seq<char>, ExportError>(
            metrics_text(metrics, numerals),
        ),
{
}

/// A span longer than the window aggregates the headers that are there: all
/// such spans have the statistics of the whole window.
pub proof fn long_spans_take_the_whole_window(headers: Seq<BlockHeader>, count: nat)
    requires
        count >= headers.len(),
    ensures
        window(headers, count) == headers.filter(settled()),
        block_stats(headers, count) == block_stats(headers, headers.len()),
{
    assert(headers.take(headers.len() as int) =~= headers);
}

/// The names of the gauges of the node itself.
pub open spec fn node_names() -> Seq<Seq<char>> {
    seq![
        "monero_node_database_size"@,
        "monero_node_free_space"@,
        "monero_node_grey_peerlist_size"@,
        "monero_node_incoming_connections_count"@,
        "monero_node_offline"@,
        "monero_node_outgoing_connections_count"@,
        "monero_node_rpc_connections_count"@,
        "monero_node_synchronized"@,
        "monero_node_white_peerlist_size"@,
    ]
}

/// The names of the metrics, in list order.
pub open spec fn names(metrics: Seq<MetricView>) -> Seq<Seq<char>> {
    Seq::new(metrics.len(), |i: int| metrics[i].name)
}

/// A trusted node that is not synchronized exports the gauges of the node
/// itself and no others, whatever the spans are and whatever a fetch would
/// have brought: the text of the cycle is the text of those nine gauges.
pub proof fn unsynchronized_node_exports_node_gauges_only(
    spans: Seq<u32>,
    max_span: u32,
    info: InfoResponse,
    fetched: Result<(TransactionPoolStatsResponse, BlockHeadersRangeResponse), ClientError>,
    numerals: Seq<Seq<Seq<char>>>,
)
    requires
        !info.untrusted,
        !info.synchronized,
    ensures
        first_step(max_span, Ok(info)) == ExportView::Done(Ok(node_metrics(info))),
        cycle(spans, max_span, Ok(info), fetched, numerals) == rendered(
            Ok(node_metrics(info)),
            numerals,
        ),
        names(node_metrics(info)) == node_names(),
        node_metrics(info).len() == 9,
{
    assert(names(node_metrics(info)) =~= node_names());
}

/// An untrusted answer to `get_info` ends the cycle with `Untrusted`, and a
/// publisher that ends its cycle with that outcome holds no snapshot, whatever
/// it held before.
pub proof fn untrusted_node_publishes_nothing(
    spans: Seq<u32>,
    max_span: u32,
    info: InfoResponse,
    fetched: Result<(TransactionPoolStatsResponse, BlockHeadersRangeResponse), ClientError>,
    numerals: Seq<Seq<Seq<char>>>,
    previous: Option<Seq<char>>,
)
    requires
        info.untrusted,
    ensures
        cycle(spans, max_span, Ok(info), fetched, numerals) == Err::<Seq<char>, ExportError>(
            ExportError::Untrusted,
        ),
        published(previous, cycle(spans, max_span, Ok(info), fetched, numerals)) is None,
        response(published(previous, cycle(spans, max_span, Ok(info), fetched, numerals))).0
            == STATUS_SERVICE_UNAVAILABLE,
{
}

/// A cycle that fails on a call to the daemon, be it `get_info` or one of
/// the two fetches, ends with that call's error.
pub proof fn failed_call_fails_the_cycle(
    spans: Seq<u32>,
    max_span: u32,
    info: Result<InfoResponse, ClientError>,
    fetched: Result<(TransactionPoolStatsResponse, BlockHeadersRangeResponse), ClientError>,
    numerals: Seq<Seq<Seq<char>>>,
)
    ensures
        info matches Err(e) ==> cycle(spans, max_span, info, fetched, numerals) == Err::<
            Seq<char>,
            ExportError,
        >(ExportError::Client(e)),
        info matches Ok(i) && !i.untrusted && i.synchronized ==> (fetched matches Err(e) ==> cycle(
            spans,
            max_span,
            info,
            fetched,
            numerals,
        ) == Err::<Seq<char>, ExportError>(ExportError::Client(e))),
{
}

/// Stale text is never served: after a cycle that succeeded and a next one
/// that failed, for whatever reason, no snapshot is held.
pub proof fn failure_after_success_clears_the_snapshot(
    previous: Option<Seq<char>>,
    text: Seq<char>,
    error: ExportError,
)
    ensures
        published(previous, Ok(text)) == Some(text),
        published(published(previous, Ok(text)), Err(error)) is None,
        response(published(published(previous, Ok(text)), Err(error))) == (
            STATUS_SERVICE_UNAVAILABLE,
            Seq::<char>::empty(),
        ),
{
}

} // verus!
