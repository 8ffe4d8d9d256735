//! The append-only transition log and its one-shot CSV export.

use vstd::prelude::*;

use crate::codec::{IntCodec, Level};
use crate::csv_out::{
    csv_line, csv_plain, csv_plain_char, sink_contents, sink_into_bytes, sink_new, sink_write_row,
};
use crate::sample::Sample;
use crate::time::{format_rfc3339, rfc3339_char, rfc3339_utc, Timestamp};

verus! {

/// Failure of the one-shot CSV export.
///
/// The export serializes into an in-memory buffer, which cannot fail, so
/// [`GpioRecorder::save_csv`] proves that no variant is ever produced; the
/// type keeps the export's failure taxonomy at the interface, and a caller
/// that writes the bytes to a real sink reports that sink's own failures.
#[derive(Clone, Copy, Debug, PartialEq, Eq, Structural)]
pub enum ExportError {
    /// A row could not be encoded or written.
    Row,
    /// The sink could not be flushed.
    Flush,
}

/// The value column's field for a level: the decimal digits of its
/// integer code, `0` for `Low` and `1` for `High`.
pub open spec fn value_field(l: Level) -> Seq<char> {
    match l {
        Level::Low => "0"@,
        Level::High => "1"@,
    }
}

/// The header row's encoding: the two column names.
pub open spec fn header_line() -> Seq<u8> {
    csv_line("timestamp"@, "value"@)
}

/// One data row's encoding: the sample's instant in RFC 3339 UTC form and
/// its level's integer code.
pub open spec fn row_line(s: Sample<Level>) -> Seq<u8> {
    csv_line(rfc3339_utc(s.timestamp@), value_field(s.value))
}

/// The data rows' encoding, one row per sample, in log order.
pub open spec fn csv_body(rows: Seq<Sample<Level>>) -> Seq<u8>
    decreases rows.len(),
{
    if rows.len() == 0 {
        Seq::empty()
    } else {
        csv_body(rows.drop_last()) + row_line(rows.last())
    }
}

/// The whole export's encoding: the header row, then every sample's row in
/// log order.
pub open spec fn csv_export(rows: Seq<Sample<Level>>) -> Seq<u8> {
    header_line() + csv_body(rows)
}

/// The log's timestamps never decrease from one sample to a later one.
pub open spec fn timestamps_non_decreasing(rows: Seq<Sample<Level>>) -> bool {
    forall|i: int, j: int|
        #![trigger rows[i], rows[j]]
        0 <= i <= j < rows.len() ==> rows[i].timestamp@ <= rows[j].timestamp@
}

/// Records the sequence of level transitions driven through it, each bound
/// to the instant of the call, and exports the whole log as CSV once.
#[derive(Debug)]
pub struct GpioRecorder {
    samples: Vec<Sample<Level>>,
}

impl View for GpioRecorder {
    type V = Seq<Sample<Level>>;

    closed spec fn view(&self) -> Seq<Sample<Level>> {
        self.samples@
    }
}

impl Default for GpioRecorder {
    fn default() -> (r: GpioRecorder)
        ensures
            r@ == Seq::<Sample<Level>>::empty(),
    {
        GpioRecorder { samples: Vec::new() }
    }
}

impl GpioRecorder {
    /// Create a new, empty recorder.
    pub fn new() -> (r: GpioRecorder)
        ensures
            r@ == Seq::<Sample<Level>>::empty(),
    {
        GpioRecorder::default()
    }

    /// Append a sample carrying `value`, captured at the present instant.
    fn add_sample(&mut self, value: Level)
        ensures
            final(self)@.len() == old(self)@.len() + 1,
            final(self)@.last().value == value,
            exists|t: Timestamp| final(self)@ == old(self)@.push((Sample { timestamp: t, value })),
    {
        let sample = Sample::new(value);
        self.samples.push(sample);
        proof {
            assert(self.samples@ == old(self).samples@.push(
                (Sample { timestamp: sample.timestamp, value }),
            ));
        }
    }

    /// Append a sample carrying `value` bound to the given instant.
    pub fn record_at(&mut self, timestamp: Timestamp, value: Level)
        ensures
            final(self)@ == old(self)@.push((Sample { timestamp, value })),
    {
        self.samples.push(Sample::at(timestamp, value));
    }

    /// Drive the stand-in pin low: append a `Low` sample captured now.
    pub fn set_low(&mut self)
        ensures
            final(self)@.len() == old(self)@.len() + 1,
            final(self)@.last().value == Level::Low,
            exists|t: Timestamp|
                final(self)@ == old(self)@.push((Sample { timestamp: t, value: Level::Low })),
    {
        self.add_sample(Level::Low);
    }

    /// Drive the stand-in pin high: append a `High` sample captured now.
    pub fn set_high(&mut self)
        ensures
            final(self)@.len() == old(self)@.len() + 1,
            final(self)@.last().value == Level::High,
            exists|t: Timestamp|
                final(self)@ == old(self)@.push((Sample { timestamp: t, value: Level::High })),
    {
        self.add_sample(Level::High);
    }

    /// The number of samples recorded so far.
    pub fn len(&self) -> (n: usize)
        ensures
            n == self@.len(),
    {
        self.samples.len()
    }

    /// Serialize every sample as one CSV row, in log order, after the
    /// header row, and flush the result into a byte buffer. Consumes the
    /// recorder: nothing can be appended after the export.
    ///
    /// Always succeeds: the buffer is in memory and cannot reject a write
    /// or a flush, so the result is `Ok` on every input.
    pub fn save_csv(self) -> (r: Result<Vec<u8>, ExportError>)
        ensures
            r is Ok,
            r matches Ok(bytes) ==> bytes@ == csv_export(self@),
    {
        let mut sink = sink_new();
        proof {
            lemma_header_fields_plain();
        }
        // The error arms below are provably unreachable — the writer over an
        // in-memory buffer promises success — but the calls return `Result`,
        // so each arm maps the stage's failure to its `ExportError` variant.
        match sink_write_row(&mut sink, "timestamp", "value") {
            Ok(_) => {},
            Err(_) => {
                return Err(ExportError::Row);
            },
        }
        proof {
            assert(sink_contents(sink) =~= header_line());
        }
        let n = self.samples.len();
        let mut i: usize = 0;
        while i < n
            invariant
                i <= n,
                n == self@.len(),
                sink_contents(sink) == header_line() + csv_body(self@.take(i as int)),
            decreases n - i,
        {
            let s = &self.samples[i];
            let ts = format_rfc3339(&s.timestamp);
            let vs: &str = match s.value {
                Level::Low => "0",
                Level::High => "1",
            };
            proof {
                lemma_value_fields_plain();
                assert forall|k: int| 0 <= k < ts@.len() implies csv_plain_char(#[trigger] ts@[k]) by {
                    assert(rfc3339_char(ts@[k]));
                }
                assert(csv_plain(ts@));
                assert(vs@ == value_field(s.value));
            }
            match sink_write_row(&mut sink, ts.as_str(), vs) {
                Ok(_) => {},
                Err(_) => {
                    return Err(ExportError::Row);
                },
            }
            proof {
                lemma_csv_body_snoc(self@, i as int);
            }
            i = i + 1;
        }
        proof {
            assert(self@.take(n as int) =~= self@);
        }
        match sink_into_bytes(sink) {
            Ok(bytes) => Ok(bytes),
            Err(_) => Err(ExportError::Flush),
        }
    }
}

/// The two column names are plain CSV fields.
proof fn lemma_header_fields_plain()
    ensures
        csv_plain("timestamp"@),
        csv_plain("value"@),
{
    reveal_strlit("timestamp");
    reveal_strlit("value");
}

/// The value column's two possible fields are plain CSV fields.
proof fn lemma_value_fields_plain()
    ensures
        csv_plain("0"@),
        csv_plain("1"@),
{
    reveal_strlit("0");
    reveal_strlit("1");
}

/// Unfolding the data rows' encoding one sample at a time, front to back.
proof fn lemma_csv_body_snoc(rows: Seq<Sample<Level>>, i: int)
    requires
        0 <= i < rows.len(),
    ensures
        csv_body(rows.take(i + 1)) == csv_body(rows.take(i)) + row_line(rows[i]),
{
    assert(rows.take(i + 1).drop_last() =~= rows.take(i));
    assert(rows.take(i + 1).last() == rows[i]);
}

/// The value column holds exactly the level's integer code, as one decimal
/// digit (48 is the character `0`).
pub proof fn lemma_value_field_is_code(l: Level)
    ensures
        value_field(l).len() == 1,
        value_field(l)[0] as u32 == 48 + l.spec_code(),
{
    reveal_strlit("0");
    reveal_strlit("1");
}

/// An empty log exports as the header row alone.
pub proof fn lemma_empty_export(rows: Seq<Sample<Level>>)
    requires
        rows.len() == 0,
    ensures
        csv_export(rows) == header_line(),
{
    assert(csv_export(rows) =~= header_line());
}

/// A run of appends — each step a push, as the append operations ensure —
/// starting from the empty log leaves the log holding exactly the appended
/// samples: as many as the calls, in call order, nothing dropped and
/// nothing reordered. `logs[i]` is the log before the `i`-th append.
pub proof fn lemma_append_run(logs: Seq<Seq<Sample<Level>>>, samples: Seq<Sample<Level>>)
    requires
        logs.len() == samples.len() + 1,
        logs[0] == Seq::<Sample<Level>>::empty(),
        forall|i: int| 0 <= i < samples.len() ==> logs[i + 1] == logs[i].push(samples[i]),
    ensures
        logs.last() == samples,
    decreases samples.len(),
{
    if samples.len() == 0 {
        assert(logs.last() =~= samples);
    } else {
        let n = samples.len() as int;
        let shorter = logs.drop_last();
        assert forall|i: int|
            0 <= i < n - 1 implies shorter[i + 1] == shorter[i].push(samples.drop_last()[i]) by {
            assert(shorter[i + 1] == logs[i + 1]);
            assert(shorter[i] == logs[i]);
            assert(samples.drop_last()[i] == samples[i]);
        }
        assert(shorter[0] == logs[0]);
        lemma_append_run(shorter, samples.drop_last());
        assert(logs[n - 1] == samples.drop_last());
        assert(logs.last() == logs[n - 1].push(samples[n - 1]));
        assert(samples.drop_last().push(samples[n - 1]) =~= samples);
    }
}

/// When every appended instant is no earlier than its predecessor's, the
/// whole log's timestamps are non-decreasing.
pub proof fn lemma_adjacent_non_decreasing(samples: Seq<Sample<Level>>)
    requires
        forall|i: int|
            #![trigger samples[i]]
            0 < i < samples.len() ==> samples[i - 1].timestamp@ <= samples[i].timestamp@,
    ensures
        timestamps_non_decreasing(samples),
{
    assert forall|i: int, j: int|
        0 <= i <= j < samples.len() implies #[trigger] samples[i].timestamp@
        <= #[trigger] samples[j].timestamp@ by {
        lemma_timestamp_chain(samples, i, j);
    }
}

/// Chaining adjacent timestamp bounds from position `i` up to `j`.
proof fn lemma_timestamp_chain(samples: Seq<Sample<Level>>, i: int, j: int)
    requires
        forall|k: int|
            #![trigger samples[k]]
            0 < k < samples.len() ==> samples[k - 1].timestamp@ <= samples[k].timestamp@,
        0 <= i <= j < samples.len(),
    ensures
        samples[i].timestamp@ <= samples[j].timestamp@,
    decreases j - i,
{
    if i < j {
        lemma_timestamp_chain(samples, i, j - 1);
    }
}

/// Appending a sample no earlier than the log's last keeps the timestamps
/// non-decreasing.
pub proof fn lemma_append_keeps_order(rows: Seq<Sample<Level>>, s: Sample<Level>)
    requires
        timestamps_non_decreasing(rows),
        rows.len() > 0 ==> rows.last().timestamp@ <= s.timestamp@,
    ensures
        timestamps_non_decreasing(rows.push(s)),
{
    let grown = rows.push(s);
    assert forall|i: int, j: int|
        0 <= i <= j < grown.len() implies #[trigger] grown[i].timestamp@ <= #[trigger] grown[j].timestamp@ by {
        if j < rows.len() {
            assert(grown[i] == rows[i] && grown[j] == rows[j]);
        } else {
            assert(grown[j] == s);
            if i < rows.len() {
                assert(rows[i].timestamp@ <= rows[rows.len() - 1].timestamp@);
            }
        }
    }
}

} // verus!
