//! The registry of providers and the composition of one tick's samples into
//! the status line.
use vstd::prelude::*;
use crate::battery::{battery_fragment, battery_text, BatteryError, BatteryReading};
use crate::clock::{time_fragment, time_text, TimeReading};
use crate::load::{load_fragment, load_text, LoadAvg, LoadError};
use crate::remote::{remote_fragment, remote_text, RemoteError, RemoteStats};
use crate::text::push_text;

verus! {

/// The label that ends every status line.
pub const SYSTEM_NAME: &'static str = "humaid's system";

/// Seconds between ticks.
pub const TICK_SECS: u64 = 3;

/// A source of one fragment of the status line.
#[derive(Debug, Clone, Copy, PartialEq, Eq, Structural)]
pub enum Provider {
    Remote,
    Load,
    Battery,
    Time,
}

/// What one provider's sampler gave on a tick.
#[derive(Debug)]
pub enum Sample {
    Load(Result<LoadAvg, LoadError>),
    Battery(Result<BatteryReading, BatteryError>),
    Time(Option<TimeReading>),
    Remote(Result<RemoteStats, RemoteError>),
}

/// The providers in the order their fragments appear, left to right.
pub open spec fn registry_order() -> Seq<Provider> {
    seq![Provider::Remote, Provider::Load, Provider::Battery, Provider::Time]
}

/// Whether a sample carries nothing to show.
pub open spec fn failed(s: Sample) -> bool {
    match s {
        Sample::Load(r) => r is Err,
        Sample::Battery(r) => r is Err,
        Sample::Time(r) => match r {
            Some(t) => !t.wf(),
            None => true,
        },
        Sample::Remote(r) => r is Err,
    }
}

/// The fragment that a sample contributes; a failed one contributes nothing.
pub open spec fn fragment_text(s: Sample) -> Seq<char> {
    match s {
        Sample::Load(Ok(l)) => load_text(l),
        Sample::Battery(Ok(b)) => battery_text(b.percent as nat, b.status@),
        Sample::Time(Some(t)) => if t.wf() {
            time_text(t)
        } else {
            seq![]
        },
        Sample::Remote(Ok(st)) => remote_text(st),
        _ => seq![],
    }
}

/// The fragments of `ss`, in order.
pub open spec fn fragments_text(ss: Seq<Sample>) -> Seq<char>
    decreases ss.len(),
{
    if ss.len() == 0 {
        seq![]
    } else {
        fragments_text(ss.drop_last()) + fragment_text(ss.last())
    }
}

/// The status line: the fragments in order, then the system's label.
pub open spec fn line_text(ss: Seq<Sample>) -> Seq<char> {
    fragments_text(ss) + SYSTEM_NAME@
}

/// Whether two samples hold the same values.
pub open spec fn same_values(x: Sample, y: Sample) -> bool {
    match (x, y) {
        (Sample::Load(a), Sample::Load(b)) => a == b,
        (Sample::Battery(a), Sample::Battery(b)) => match (a, b) {
            (Ok(p), Ok(q)) => p.percent == q.percent && p.status@ == q.status@,
            (Err(e), Err(f)) => e == f,
            _ => false,
        },
        (Sample::Time(a), Sample::Time(b)) => a == b,
        (Sample::Remote(a), Sample::Remote(b)) => a == b,
        _ => false,
    }
}

/// The providers in render order: remote statistic, load, battery, time.
pub fn registry() -> (r: Vec<Provider>)
    ensures
        r@ == registry_order(),
{
    let r = vec![Provider::Remote, Provider::Load, Provider::Battery, Provider::Time];
    assert(r@ =~= registry_order());
    r
}

/// The fragment for one sample: empty when its sampler failed.
pub fn fragment(s: &Sample) -> (r: String)
    ensures
        r@ == fragment_text(*s),
{
    match s {
        Sample::Load(Ok(l)) => load_fragment(l),
        Sample::Battery(Ok(b)) => battery_fragment(b),
        Sample::Time(Some(t)) => if t.is_valid() {
            time_fragment(t)
        } else {
            String::new()
        },
        Sample::Remote(Ok(st)) => remote_fragment(st),
        _ => String::new(),
    }
}

/// The status line for one tick's samples: their fragments in order, then the
/// system's label.
pub fn compose_line(samples: &Vec<Sample>) -> (r: String)
    ensures
        r@ == line_text(samples@),
{
    let mut line = String::new();
    let mut i: usize = 0;
    while i < samples.len()
        invariant
            i <= samples@.len(),
            line@ == fragments_text(samples@.take(i as int)),
        decreases samples@.len() - i,
    {
        let f = fragment(&samples[i]);
        push_text(&mut line, f.as_str());
        assert(samples@.take(i + 1).drop_last() =~= samples@.take(i as int));
        i = i + 1;
    }
    assert(samples@.take(samples@.len() as int) =~= samples@);
    push_text(&mut line, SYSTEM_NAME);
    line
}

proof fn lemma_fragments_concat(a: Seq<Sample>, b: Seq<Sample>)
    ensures
        fragments_text(a + b) == fragments_text(a) + fragments_text(b),
    decreases b.len(),
{
    if b.len() == 0 {
        assert(a + b =~= a);
        assert(fragments_text(b) =~= seq![]);
        assert(fragments_text(a) + fragments_text(b) =~= fragments_text(a));
    } else {
        lemma_fragments_concat(a, b.drop_last());
        assert((a + b).drop_last() =~= a + b.drop_last());
        assert(fragments_text(a + b) =~= fragments_text(a) + fragments_text(b));
    }
}

/// A provider whose sampler failed leaves the line exactly as if it were not
/// in the registry: the other fragments appear unchanged and in their order.
pub proof fn lemma_failed_sample_is_silent(ss: Seq<Sample>, i: int)
    requires
        0 <= i < ss.len(),
        failed(ss[i]),
    ensures
        line_text(ss) == line_text(ss.remove(i)),
{
    let pre = ss.take(i);
    let post = ss.skip(i + 1);
    assert(ss =~= pre + seq![ss[i]] + post);
    assert(ss.remove(i) =~= pre + post);
    lemma_fragments_concat(pre + seq![ss[i]], post);
    lemma_fragments_concat(pre, seq![ss[i]]);
    lemma_fragments_concat(pre, post);
    let one = seq![ss[i]];
    assert(one.drop_last() =~= Seq::<Sample>::empty());
    assert(fragments_text(Seq::<Sample>::empty()) =~= Seq::<char>::empty());
    assert(fragment_text(one.last()) =~= Seq::<char>::empty());
    assert(fragments_text(one) =~= Seq::<char>::empty());
    assert(fragments_text(pre + seq![ss[i]]) =~= fragments_text(pre));
}

proof fn lemma_fragments_deterministic(a: Seq<Sample>, b: Seq<Sample>)
    requires
        a.len() == b.len(),
        forall|k: int| 0 <= k < a.len() ==> same_values(#[trigger] a[k], b[k]),
    ensures
        fragments_text(a) == fragments_text(b),
    decreases a.len(),
{
    if a.len() > 0 {
        assert forall|k: int| 0 <= k < a.len() - 1 implies same_values(
            #[trigger] a.drop_last()[k],
            b.drop_last()[k],
        ) by {
            assert(same_values(a[k], b[k]));
        }
        lemma_fragments_deterministic(a.drop_last(), b.drop_last());
        assert(same_values(a[a.len() - 1], b[b.len() - 1]));
        assert(fragment_text(a.last()) == fragment_text(b.last()));
    }
}

/// Samples that hold the same values, in the same order, give the same line.
pub proof fn lemma_line_deterministic(a: Seq<Sample>, b: Seq<Sample>)
    requires
        a.len() == b.len(),
        forall|k: int| 0 <= k < a.len() ==> same_values(#[trigger] a[k], b[k]),
    ensures
        line_text(a) == line_text(b),
{
    lemma_fragments_deterministic(a, b);
}

} // verus!
