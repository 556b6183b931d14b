//! Derivation of the load-time metric from a performance sample snapshot.
//!
//! A snapshot is a list of named numeric samples fetched from the browser on
//! demand; the derived load time is the difference between the
//! `FirstMeaningfulPaint` and `NavigationStart` samples of one and the same
//! snapshot. A snapshot missing either name must fail, never default.

use vstd::prelude::*;
use vstd::string::*;
use crate::errors::JourneyError;

verus! {

/// Mathematical image of a [`MetricSample`].
pub struct SampleModel {
    pub name: Seq<char>,
    pub value: int,
}

/// One named performance sample, in integer milliseconds.
#[derive(Debug)]
pub struct MetricSample {
    pub name: String,
    pub value: i64,
}

impl View for MetricSample {
    type V = SampleModel;

    open spec fn view(&self) -> SampleModel {
        SampleModel { name: self.name@, value: self.value as int }
    }
}

/// The image of a whole snapshot.
pub open spec fn samples_view(s: Seq<MetricSample>) -> Seq<SampleModel> {
    s.map_values(|m: MetricSample| m@)
}

/// Every sample value is small enough that any difference of two of them
/// fits the machine integer that carries the derived metric.
pub open spec fn valid_sample_set(s: Seq<SampleModel>) -> bool {
    forall|i: int|
        0 <= i < s.len() ==> -0x4000_0000_0000_0000 < #[trigger] s[i].value
            < 0x4000_0000_0000_0000
}

/// Whether some sample of `s` is named `name`.
pub open spec fn has_metric(s: Seq<SampleModel>, name: Seq<char>) -> bool {
    exists|i: int| 0 <= i < s.len() && s[i].name == name
}

/// The value of the first sample of `s` named `name` (zero if there is none).
pub open spec fn first_metric_value(s: Seq<SampleModel>, name: Seq<char>) -> int
    decreases s.len(),
{
    if s.len() == 0 {
        0
    } else if s[0].name == name {
        s[0].value
    } else {
        first_metric_value(s.drop_first(), name)
    }
}

/// The derived load time of a snapshot: paint minus navigation start.
pub open spec fn load_time_of(s: Seq<SampleModel>) -> int {
    first_metric_value(s, "FirstMeaningfulPaint"@) - first_metric_value(s, "NavigationStart"@)
}

/// Value of the first sample named `name`, if any.
fn find_metric(samples: &Vec<MetricSample>, name: &String) -> (r: Option<i64>)
    ensures
        match r {
            Some(v) => has_metric(samples_view(samples@), name@) && v as int
                == first_metric_value(samples_view(samples@), name@),
            None => !has_metric(samples_view(samples@), name@),
        },
{
    let ghost s = samples_view(samples@);
    proof {
        assert(s.skip(0) =~= s);
    }
    let mut i: usize = 0;
    while i < samples.len()
        invariant
            0 <= i <= samples.len(),
            s == samples_view(samples@),
            s.len() == samples@.len(),
            forall|k: int| 0 <= k < i ==> s[k].name != name@,
            first_metric_value(s.skip(i as int), name@) == first_metric_value(s, name@),
            has_metric(s, name@) == has_metric(s.skip(i as int), name@),
        decreases samples.len() - i,
    {
        let cur = &samples[i];
        if cur.name.eq(name) {
            proof {
                assert(s[i as int] == samples@[i as int]@);
                assert(s.skip(i as int)[0] == s[i as int]);
                assert(first_metric_value(s.skip(i as int), name@) == s[i as int].value);
                assert(has_metric(s, name@)) by {
                    assert(0 <= i < s.len() && s[i as int].name == name@);
                }
            }
            return Some(cur.value);
        }
        proof {
            assert(s[i as int] == samples@[i as int]@);
            assert(s.skip(i as int)[0] == s[i as int]);
            lemma_lookup_skip_step(s, name@, i as int);
        }
        i = i + 1;
    }
    proof {
        assert(s.skip(i as int).len() == 0);
    }
    None
}

/// Skipping one non-matching sample changes neither the first-match value
/// nor the presence of the name.
proof fn lemma_lookup_skip_step(s: Seq<SampleModel>, name: Seq<char>, i: int)
    requires
        0 <= i < s.len(),
        s[i].name != name,
    ensures
        first_metric_value(s.skip(i), name) == first_metric_value(s.skip(i + 1), name),
        has_metric(s.skip(i), name) == has_metric(s.skip(i + 1), name),
{
    assert(s.skip(i).drop_first() =~= s.skip(i + 1));
    assert(s.skip(i)[0] == s[i]);
    if has_metric(s.skip(i), name) {
        let k = choose|k: int| 0 <= k < s.skip(i).len() && #[trigger] s.skip(i)[k].name == name;
        assert(k != 0);
        assert(s.skip(i + 1)[k - 1] == s.skip(i)[k]);
        assert(has_metric(s.skip(i + 1), name));
    }
    if has_metric(s.skip(i + 1), name) {
        let k = choose|k: int| 0 <= k < s.skip(i + 1).len() && #[trigger] s.skip(i + 1)[k].name
            == name;
        assert(s.skip(i)[k + 1] == s.skip(i + 1)[k]);
        assert(has_metric(s.skip(i), name));
    }
}

/// Fetches the two required samples from `samples` and derives the load time.
///
/// Returns `Ok` exactly when both `FirstMeaningfulPaint` and `NavigationStart`
/// are present, and then returns exactly their difference, whatever other
/// names the snapshot carries; otherwise fails with
/// [`JourneyError::MetricUnavailable`].
pub fn get_load_time(samples: &Vec<MetricSample>) -> (r: Result<i64, JourneyError>)
    requires
        valid_sample_set(samples_view(samples@)),
    ensures
        match r {
            Ok(v) => has_metric(samples_view(samples@), "FirstMeaningfulPaint"@) && has_metric(
                samples_view(samples@),
                "NavigationStart"@,
            ) && v as int == load_time_of(samples_view(samples@)),
            Err(e) => e == JourneyError::MetricUnavailable && !(has_metric(
                samples_view(samples@),
                "FirstMeaningfulPaint"@,
            ) && has_metric(samples_view(samples@), "NavigationStart"@)),
        },
{
    let fmp_name = String::from_str("FirstMeaningfulPaint");
    let ns_name = String::from_str("NavigationStart");
    let fmp = find_metric(samples, &fmp_name);
    let ns = find_metric(samples, &ns_name);
    match (fmp, ns) {
        (Some(paint), Some(start)) => {
            proof {
                lemma_first_metric_value_bounded(
                    samples_view(samples@),
                    "FirstMeaningfulPaint"@,
                );
                lemma_first_metric_value_bounded(samples_view(samples@), "NavigationStart"@);
            }
            Ok(paint - start)
        },
        _ => Err(JourneyError::MetricUnavailable),
    }
}

/// In a valid sample set, every first-match lookup stays within the bound.
proof fn lemma_first_metric_value_bounded(s: Seq<SampleModel>, name: Seq<char>)
    requires
        valid_sample_set(s),
    ensures
        -0x4000_0000_0000_0000 < first_metric_value(s, name) < 0x4000_0000_0000_0000,
    decreases s.len(),
{
    if s.len() == 0 {
    } else if s[0].name == name {
        assert(-0x4000_0000_0000_0000 < s[0].value < 0x4000_0000_0000_0000);
    } else {
        assert forall|i: int| 0 <= i < s.drop_first().len() implies -0x4000_0000_0000_0000
            < #[trigger] s.drop_first()[i].value < 0x4000_0000_0000_0000 by {
            assert(s.drop_first()[i] == s[i + 1]);
        }
        lemma_first_metric_value_bounded(s.drop_first(), name);
    }
}

} // verus!
