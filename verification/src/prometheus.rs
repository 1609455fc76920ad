//! Gauges and their text exposition.
//!
//! A sample's value is held exactly, as a [`Number`]. The decimal numeral that
//! stands for it in the exposition is handed to the renderer by the caller,
//! one numeral for each sample, so that the renderer itself works on text
//! alone.

use vstd::prelude::*;

verus! {

/// The exact value of a sample: a ratio of two unsigned integers.
///
/// A whole number has the denominator 1. A mean over no entries is the ratio
/// 0/0, which is not a number.
#[derive(Clone, Copy, Debug, PartialEq, Eq, Structural)]
pub struct Number {
    pub numerator: u128,
    pub denominator: u64,
}

impl Number {
    /// Whether the ratio has no value.
    pub open spec fn is_nan(self) -> bool {
        self.denominator == 0
    }

    /// The whole number `value`.
    pub open spec fn whole(value: nat) -> Number {
        Number { numerator: value as u128, denominator: 1 }
    }

    /// The sum of `count` entries divided by their count.
    pub open spec fn ratio(sum: nat, count: nat) -> Number {
        Number { numerator: sum as u128, denominator: count as u64 }
    }

    /// The whole number `value`.
    pub fn integer(value: u64) -> (number: Number)
        ensures
            number == Number::whole(value as nat),
    {
        Number { numerator: value as u128, denominator: 1 }
    }

    /// One for `true`, zero for `false`.
    pub fn flag(value: bool) -> (number: Number)
        ensures
            number == Number::whole(if value { 1nat } else { 0nat }),
    {
        if value {
            Number { numerator: 1, denominator: 1 }
        } else {
            Number { numerator: 0, denominator: 1 }
        }
    }

    /// The mean of `count` entries that add up to `sum`.
    pub fn mean(sum: u128, count: u64) -> (number: Number)
        ensures
            number == Number::ratio(sum as nat, count as nat),
            number.is_nan() <==> count == 0,
    {
        Number { numerator: sum, denominator: count }
    }
}

/// The kind of a metric. Gauges are the only kind.
#[derive(Clone, Copy, Debug, PartialEq, Eq, Structural)]
pub enum MetricType {
    Gauge,
}

#[derive(Debug)]
struct MetricLabel {
    name: String,
    value: String,
}

#[derive(Debug)]
struct MetricValue {
    label: Option<MetricLabel>,
    value: Number,
}

/// A named gauge with its samples, in the order in which they were given.
#[derive(Debug)]
pub struct Metric {
    t: MetricType,
    name: String,
    values: Vec<MetricValue>,
}

/// What a label holds.
pub struct LabelView {
    pub name: Seq<char>,
    pub value: Seq<char>,
}

/// What a sample holds.
pub struct SampleView {
    pub label: Option<LabelView>,
    pub value: Number,
}

/// What a metric holds.
pub struct MetricView {
    pub t: MetricType,
    pub name: Seq<char>,
    pub samples: Seq<SampleView>,
}

/// The unlabeled gauge `name` with the single sample `value`.
pub open spec fn gauge(name: Seq<char>, value: Number) -> MetricView {
    MetricView {
        t: MetricType::Gauge,
        name,
        samples: seq![SampleView { label: None, value }],
    }
}

/// The sample that carries the label `label_name` with the value `pair.0` and
/// the number `pair.1`.
pub open spec fn labeled_sample(label_name: Seq<char>, pair: (Seq<char>, Number)) -> SampleView {
    SampleView { label: Some(LabelView { name: label_name, value: pair.0 }), value: pair.1 }
}

/// The gauge `name` with one sample for each pair of a label value and a
/// number, all under the label `label_name`.
pub open spec fn labeled_gauge(
    name: Seq<char>,
    label_name: Seq<char>,
    pairs: Seq<(Seq<char>, Number)>,
) -> MetricView {
    MetricView {
        t: MetricType::Gauge,
        name,
        samples: Seq::new(pairs.len(), |i: int| labeled_sample(label_name, pairs[i])),
    }
}

/// The label clause of a sample line: empty without a label.
pub open spec fn label_text(label: Option<LabelView>) -> Seq<char> {
    match label {
        Some(l) => "{"@ + l.name + "=\""@ + l.value + "\"}"@,
        None => Seq::empty(),
    }
}

/// The line of one sample: the metric's name, the label clause, a space, the
/// numeral and a line feed.
pub open spec fn sample_line(name: Seq<char>, label: Option<LabelView>, numeral: Seq<char>) -> Seq<
    char,
> {
    name + label_text(label) + " "@ + numeral + "\n"@
}

/// The lines of the samples, in their order, each with the numeral at its
/// index.
pub open spec fn sample_lines(
    name: Seq<char>,
    samples: Seq<SampleView>,
    numerals: Seq<Seq<char>>,
) -> Seq<char>
    decreases samples.len(),
{
    if samples.len() == 0 {
        Seq::empty()
    } else {
        sample_lines(name, samples.drop_last(), numerals.drop_last()) + sample_line(
            name,
            samples.last().label,
            numerals.last(),
        )
    }
}

/// The name of a metric type in the exposition.
pub open spec fn type_text(t: MetricType) -> Seq<char> {
    match t {
        MetricType::Gauge => "gauge"@,
    }
}

/// The two comment lines that open a metric: a `HELP` line without a
/// description and the `TYPE` line.
pub open spec fn head_lines(t: MetricType, name: Seq<char>) -> Seq<char> {
    "# HELP "@ + name + "\n"@ + "# TYPE "@ + name + " "@ + type_text(t) + "\n"@
}

/// The exposition of one metric.
pub open spec fn metric_text(metric: MetricView, numerals: Seq<Seq<char>>) -> Seq<char> {
    head_lines(metric.t, metric.name) + sample_lines(metric.name, metric.samples, numerals)
}

/// The exposition of a list of metrics: that of each metric, in list order.
pub open spec fn metrics_text(metrics: Seq<MetricView>, numerals: Seq<Seq<Seq<char>>>) -> Seq<char>
    decreases metrics.len(),
{
    if metrics.len() == 0 {
        Seq::empty()
    } else {
        metrics_text(metrics.drop_last(), numerals.drop_last()) + metric_text(
            metrics.last(),
            numerals.last(),
        )
    }
}

/// Whether there is one list of numerals for each metric, with one numeral
/// for each of its samples.
pub open spec fn numerals_fit(metrics: Seq<MetricView>, numerals: Seq<Seq<Seq<char>>>) -> bool {
    &&& numerals.len() == metrics.len()
    &&& forall|i: int|
        0 <= i < metrics.len() ==> (#[trigger] numerals[i]).len() == metrics[i].samples.len()
}

/// The numbers of the samples, in their order.
pub open spec fn sample_numbers(samples: Seq<SampleView>) -> Seq<Number> {
    Seq::new(samples.len(), |i: int| samples[i].value)
}

/// A numeral is missing for a sample, or there is one too many.
#[derive(Clone, Copy, Debug, PartialEq, Eq, Structural)]
pub struct RenderError;

impl RenderError {
    /// The description of the error.
    pub open spec fn text(self) -> Seq<char> {
        "an error occurred when formatting an argument"@
    }

    /// The description of the error: see [`RenderError::text`].
    pub fn message(&self) -> (message: String)
        ensures
            message@ == self.text(),
    {
        "an error occurred when formatting an argument".to_owned()
    }
}

impl View for MetricLabel {
    type V = LabelView;

    closed spec fn view(&self) -> LabelView {
        LabelView { name: self.name@, value: self.value@ }
    }
}

impl View for MetricValue {
    type V = SampleView;

    closed spec fn view(&self) -> SampleView {
        SampleView {
            label: match self.label {
                Some(l) => Some(l@),
                None => None,
            },
            value: self.value,
        }
    }
}

impl View for Metric {
    type V = MetricView;

    closed spec fn view(&self) -> MetricView {
        MetricView {
            t: self.t,
            name: self.name@,
            samples: Seq::new(self.values@.len(), |i: int| self.values@[i]@),
        }
    }
}

impl DeepView for Metric {
    type V = MetricView;

    open spec fn deep_view(&self) -> MetricView {
        self@
    }
}

impl Metric {
    /// An unlabeled gauge with a single sample.
    pub fn new_gauge(name: &str, value: Number) -> (metric: Metric)
        ensures
            metric@ == gauge(name@, value),
    {
        let mut values: Vec<MetricValue> = Vec::new();
        values.push(MetricValue { label: None, value });
        let metric = Metric { t: MetricType::Gauge, name: name.to_owned(), values };
        assert(metric@.samples =~= gauge(name@, value).samples);
        metric
    }

    /// A gauge with one sample for each pair of a label value and a number,
    /// all under the label `label_name`, in the order of `values`.
    pub fn new_gauge_with_label_values(
        name: &str,
        label_name: &str,
        values: Vec<(String, Number)>,
    ) -> (metric: Metric)
        ensures
            metric@ == labeled_gauge(
                name@,
                label_name@,
                Seq::new(values@.len(), |i: int| (values@[i].0@, values@[i].1)),
            ),
    {
        let ghost pairs = Seq::new(values@.len(), |i: int| (values@[i].0@, values@[i].1));
        let mut samples: Vec<MetricValue> = Vec::new();
        let mut i: usize = 0;
        while i < values.len()
            invariant
                i <= values@.len(),
                samples@.len() == i,
                pairs == Seq::new(values@.len(), |i: int| (values@[i].0@, values@[i].1)),
                forall|j: int| 0 <= j < i ==> (#[trigger] samples@[j])@ == labeled_sample(label_name@, pairs[j]),
            decreases values@.len() - i,
        {
            let label = MetricLabel { name: label_name.to_owned(), value: values[i].0.clone() };
            samples.push(MetricValue { label: Some(label), value: values[i].1 });
            i += 1;
        }
        let metric = Metric { t: MetricType::Gauge, name: name.to_owned(), values: samples };
        assert(metric@.samples =~= labeled_gauge(name@, label_name@, pairs).samples);
        metric
    }

    /// The metric's kind.
    pub fn metric_type(&self) -> (t: MetricType)
        ensures
            t == self@.t,
    {
        self.t
    }

    /// The metric's name.
    pub fn name(&self) -> (name: &str)
        ensures
            name@ == self@.name,
    {
        self.name.as_str()
    }

    /// The numbers of the samples, in their order.
    pub fn numbers(&self) -> (numbers: Vec<Number>)
        ensures
            numbers@ == sample_numbers(self@.samples),
    {
        let mut numbers: Vec<Number> = Vec::new();
        let mut i: usize = 0;
        while i < self.values.len()
            invariant
                i <= self.values@.len(),
                numbers@.len() == i,
                forall|j: int| 0 <= j < i ==> #[trigger] numbers@[j] == self.values@[j].value,
            decreases self.values@.len() - i,
        {
            numbers.push(self.values[i].value);
            i += 1;
        }
        assert(numbers@ =~= sample_numbers(self@.samples));
        numbers
    }

    /// Appends the metric's exposition to `sink`: the two comment lines, then
    /// one line for each sample with the numeral at its index in `numerals`.
    ///
    /// Fails, and leaves `sink` as it was, unless there is exactly one numeral
    /// for each sample.
    pub fn render(&self, numerals: &Vec<String>, sink: &mut String) -> (outcome: Result<
        (),
        RenderError,
    >)
        ensures
            outcome is Ok <==> numerals@.len() == self@.samples.len(),
            outcome is Ok ==> final(sink)@ == old(sink)@ + metric_text(
                self@,
                numerals.deep_view(),
            ),
            outcome is Err ==> final(sink)@ == old(sink)@,
    {
        if numerals.len() != self.values.len() {
            return Err(RenderError);
        }
        let name = self.name.as_str();
        let type_str = match self.t {
            MetricType::Gauge => "gauge",
        };
        sink.append("# HELP ");
        sink.append(name);
        sink.append("\n");
        sink.append("# TYPE ");
        sink.append(name);
        sink.append(" ");
        sink.append(type_str);
        sink.append("\n");
        assert(sink@ =~= old(sink)@ + head_lines(self@.t, self@.name));
        let ghost texts = numerals.deep_view();
        let mut i: usize = 0;
        while i < self.values.len()
            invariant
                i <= self.values@.len(),
                numerals@.len() == self.values@.len(),
                name@ == self@.name,
                texts == numerals.deep_view(),
                sink@ == old(sink)@ + head_lines(self@.t, self@.name) + sample_lines(
                    self@.name,
                    self@.samples.take(i as int),
                    texts.take(i as int),
                ),
            decreases self.values@.len() - i,
        {
            let ghost before = sink@;
            let value = &self.values[i];
            sink.append(name);
            match &value.label {
                Some(label) => {
                    sink.append("{");
                    sink.append(label.name.as_str());
                    sink.append("=\"");
                    sink.append(label.value.as_str());
                    sink.append("\"}");
                },
                None => {},
            }
            sink.append(" ");
            sink.append(numerals[i].as_str());
            sink.append("\n");
            proof {
                let samples = self@.samples.take(i + 1);
                let shown = texts.take(i + 1);
                assert(samples.drop_last() =~= self@.samples.take(i as int));
                assert(shown.drop_last() =~= texts.take(i as int));
                assert(samples.last() == self.values@[i as int]@);
                assert(shown.last() == numerals@[i as int]@);
                assert(sink@ =~= before + sample_line(
                    self@.name,
                    samples.last().label,
                    shown.last(),
                ));
            }
            i += 1;
        }
        assert(self@.samples.take(i as int) =~= self@.samples);
        assert(texts.take(i as int) =~= texts);
        Ok(())
    }
}

/// Appends the exposition of each metric to `sink`, in list order, with the
/// numerals at the metric's index in `numerals`.
///
/// Fails, and leaves `sink` as it was, unless there is one list of numerals
/// for each metric, with exactly one numeral for each of its samples.
pub fn render_metrics(metrics: &Vec<Metric>, numerals: &Vec<Vec<String>>, sink: &mut String) -> (outcome:
    Result<(), RenderError>)
    ensures
        outcome is Ok <==> numerals_fit(metrics.deep_view(), numerals.deep_view()),
        outcome is Ok ==> final(sink)@ == old(sink)@ + metrics_text(
            metrics.deep_view(),
            numerals.deep_view(),
        ),
        outcome is Err ==> final(sink)@ == old(sink)@,
{
    let ghost views = metrics.deep_view();
    let ghost texts = numerals.deep_view();
    if numerals.len() != metrics.len() {
        return Err(RenderError);
    }
    let mut text = String::new();
    let mut i: usize = 0;
    while i < metrics.len()
        invariant
            i <= metrics@.len(),
            numerals@.len() == metrics@.len(),
            views == metrics.deep_view(),
            texts == numerals.deep_view(),
            forall|j: int| 0 <= j < i ==> (#[trigger] texts[j]).len() == views[j].samples.len(),
            text@ == metrics_text(views.take(i as int), texts.take(i as int)),
        decreases metrics@.len() - i,
    {
        let ghost before = text@;
        match metrics[i].render(&numerals[i], &mut text) {
            Ok(()) => {},
            Err(e) => {
                assert(texts[i as int].len() != views[i as int].samples.len());
                return Err(e);
            },
        }
        proof {
            assert(views.take(i + 1).drop_last() =~= views.take(i as int));
            assert(texts.take(i + 1).drop_last() =~= texts.take(i as int));
            assert(views.take(i + 1).last() == metrics@[i as int]@);
            assert(texts.take(i + 1).last() == numerals@[i as int].deep_view());
        }
        i += 1;
    }
    assert(views.take(i as int) =~= views);
    assert(texts.take(i as int) =~= texts);
    sink.append(text.as_str());
    Ok(())
}

/// Rendering keeps the order of the list and drops nothing: the text of two
/// lists joined is the text of the first followed by the text of the second.
pub proof fn metrics_text_of_joined_lists(
    first: Seq<MetricView>,
    first_numerals: Seq<Seq<Seq<char>>>,
    second: Seq<MetricView>,
    second_numerals: Seq<Seq<Seq<char>>>,
)
    requires
        first_numerals.len() == first.len(),
        second_numerals.len() == second.len(),
    ensures
        metrics_text(first + second, first_numerals + second_numerals) == metrics_text(
            first,
            first_numerals,
        ) + metrics_text(second, second_numerals),
    decreases second.len(),
{
    if second.len() == 0 {
        assert(first + second =~= first);
        assert(first_numerals + second_numerals =~= first_numerals);
        assert(metrics_text(first, first_numerals) + Seq::<char>::empty() =~= metrics_text(
            first,
            first_numerals,
        ));
    } else {
        metrics_text_of_joined_lists(
            first,
            first_numerals,
            second.drop_last(),
            second_numerals.drop_last(),
        );
        assert((first + second).drop_last() =~= first + second.drop_last());
        assert((first_numerals + second_numerals).drop_last() =~= first_numerals
            + second_numerals.drop_last());
        assert((first + second).last() == second.last());
        assert((first_numerals + second_numerals).last() == second_numerals.last());
        assert(metrics_text(first + second, first_numerals + second_numerals) =~= metrics_text(
            first,
            first_numerals,
        ) + metrics_text(second, second_numerals));
    }
}

/// Rendering is repeatable: the text depends on nothing but what the metrics
/// and the numerals hold, so two lists that hold the same, rendered into
/// sinks that hold the same, leave the same text.
pub proof fn rendering_is_repeatable(
    first: Vec<Metric>,
    second: Vec<Metric>,
    first_numerals: Vec<Vec<String>>,
    second_numerals: Vec<Vec<String>>,
    first_sink: Seq<char>,
    second_sink: Seq<char>,
)
    requires
        first.deep_view() == second.deep_view(),
        first_numerals.deep_view() == second_numerals.deep_view(),
        first_sink == second_sink,
    ensures
        numerals_fit(first.deep_view(), first_numerals.deep_view()) == numerals_fit(
            second.deep_view(),
            second_numerals.deep_view(),
        ),
        first_sink + metrics_text(first.deep_view(), first_numerals.deep_view()) == second_sink
            + metrics_text(second.deep_view(), second_numerals.deep_view()),
{
}

/// The exposition of a single unlabeled gauge: the two comment lines, then
/// the name, a space, the numeral and a line feed.
pub proof fn text_of_one_gauge(name: Seq<char>, value: Number, numeral: Seq<char>)
    ensures
        metrics_text(seq![gauge(name, value)], seq![seq![numeral]]) == "# HELP "@ + name + "\n"@
            + "# TYPE "@ + name + " gauge\n"@ + name + " "@ + numeral + "\n"@,
{
    let metrics = seq![gauge(name, value)];
    let numerals = seq![seq![numeral]];
    reveal_strlit(" gauge\n");
    reveal_strlit(" ");
    reveal_strlit("gauge");
    reveal_strlit("\n");
    assert(" gauge\n"@ =~= " "@ + "gauge"@ + "\n"@);
    assert(metrics.drop_last() =~= Seq::<MetricView>::empty());
    assert(metrics_text(metrics.drop_last(), numerals.drop_last()) =~= Seq::<char>::empty());
    let samples = gauge(name, value).samples;
    assert(samples.drop_last() =~= Seq::<SampleView>::empty());
    assert(sample_lines(name, samples.drop_last(), seq![numeral].drop_last()) =~= Seq::<
        char,
    >::empty());
    assert(sample_lines(name, samples, seq![numeral]) =~= name + " "@ + numeral + "\n"@);
    assert(metrics_text(metrics, numerals) =~= "# HELP "@ + name + "\n"@ + "# TYPE "@ + name
        + " gauge\n"@ + name + " "@ + numeral + "\n"@);
}

} // verus!
