//! Estimates: the statistical summaries that a benchmark run produces, by
//! the name of the metric.

use crate::json::{attempt_view, json_reading, Reading, ReadingView};
use crate::table::Table;
use vstd::prelude::*;

verus! {

/// The statistical summary of one metric: an opaque record, kept as compact
/// JSON text.
#[derive(Debug, PartialEq, Eq)]
pub struct Statistic {
    pub record: String,
}

impl View for Statistic {
    type V = Seq<char>;

    open spec fn view(&self) -> Seq<char> {
        self.record@
    }
}

impl Clone for Statistic {
    fn clone(&self) -> (copy: Self)
        ensures
            copy@ == self@,
    {
        Statistic { record: self.record.clone() }
    }
}

/// The name of the metric that every successful measurement holds: the time
/// that the benchmark took.
pub open spec fn primary_metric() -> Seq<char> {
    "nanoseconds"@
}

/// Why a second record of metrics is rejected although it is JSON.
pub open spec fn not_an_object() -> Seq<char> {
    "the metrics estimates are not a JSON object"@
}

/// `base`, and of `entries` those whose name `base` does not hold yet; where
/// `entries` holds a name twice, the first entry counts.
pub open spec fn with_missing(
    base: Map<Seq<char>, Seq<char>>,
    entries: Seq<(Seq<char>, Seq<char>)>,
) -> Map<Seq<char>, Seq<char>>
    decreases entries.len(),
{
    if entries.len() == 0 {
        base
    } else {
        let first = entries[0];
        let next = if base.contains_key(first.0) {
            base
        } else {
            base.insert(first.0, first.1)
        };
        with_missing(next, entries.drop_first())
    }
}

/// The estimates that the results of an execution amount to. The first record
/// is mandatory and becomes the primary metric. The second is optional: where
/// there is one, it must be a JSON object, and its members are added under
/// their names, except that none takes the primary metric's place.
pub open spec fn assembled(
    primary: Result<ReadingView, Seq<char>>,
    secondary: Option<Result<ReadingView, Seq<char>>>,
) -> Result<Map<Seq<char>, Seq<char>>, Seq<char>> {
    match primary {
        Err(why) => Err(why),
        Ok(first) => {
            let base = Map::<Seq<char>, Seq<char>>::empty().insert(primary_metric(), first.text);
            match secondary {
                None => Ok(base),
                Some(Err(why)) => Err(why),
                Some(Ok(second)) => match second.members {
                    None => Err(not_an_object()),
                    Some(members) => Ok(with_missing(base, members)),
                },
            }
        },
    }
}

/// The model of [`ResultFiles`].
pub struct ResultFilesView {
    pub primary: Result<Seq<char>, Seq<char>>,
    pub secondary: Option<Seq<char>>,
}

/// What was found of the files in which an execution leaves its results.
#[derive(Debug, PartialEq, Eq)]
pub struct ResultFiles {
    /// The text of the file of timing statistics, or why it could not be
    /// read.
    pub primary: Result<String, String>,
    /// The text of the file of further metrics, where there is one that can
    /// be read.
    pub secondary: Option<String>,
}

impl View for ResultFiles {
    type V = ResultFilesView;

    open spec fn view(&self) -> ResultFilesView {
        ResultFilesView {
            primary: match self.primary {
                Ok(text) => Ok(text@),
                Err(why) => Err(why@),
            },
            secondary: match self.secondary {
                Some(text) => Some(text@),
                None => None,
            },
        }
    }
}

/// The estimates that the result files amount to, or why they amount to
/// none: the files are read as JSON and then [`assembled`]. A first file
/// that could not be read is a failure, a second one that is not there is
/// none.
pub open spec fn processed(files: ResultFilesView) -> Result<Map<Seq<char>, Seq<char>>, Seq<char>> {
    assembled(
        match files.primary {
            Ok(text) => json_reading(text),
            Err(why) => Err(why),
        },
        match files.secondary {
            Some(text) => Some(json_reading(text)),
            None => None,
        },
    )
}

/// The model of estimates that were assembled, or of the reason why they
/// could not be.
pub open spec fn assembly_view(assembly: Result<Estimates, String>) -> Result<
    Map<Seq<char>, Seq<char>>,
    Seq<char>,
> {
    match assembly {
        Ok(estimates) => Ok(estimates@),
        Err(why) => Err(why@),
    }
}

/// A mapping from the names of metrics to their statistical summaries. No
/// name occurs twice, and the order of insertion does not matter.
#[derive(Debug)]
pub struct Estimates {
    metrics: Table<String, Statistic>,
}

impl View for Estimates {
    type V = Map<Seq<char>, Seq<char>>;

    closed spec fn view(&self) -> Map<Seq<char>, Seq<char>> {
        self.metrics@.map_values(|statistic: Statistic| statistic@)
    }
}

impl Clone for Estimates {
    fn clone(&self) -> (copy: Self)
        ensures
            copy@ == self@,
    {
        let mut copy = Estimates::new();
        let mut i: usize = 0;
        while i < self.metrics.len()
            invariant
                i <= self.metrics.spec_len(),
                forall|name: Seq<char>| #[trigger]
                    copy@.contains_key(name) <==> exists|j: int|
                        0 <= j < i && #[trigger] self.metrics.spec_key_at(j)@ == name,
                forall|name: Seq<char>| #[trigger]
                    copy@.contains_key(name) ==> self@.contains_key(name) && copy@[name]
                        == self@[name],
            decreases self.metrics.spec_len() - i,
        {
            match self.metrics.entry_at(i) {
                Some((name, statistic)) => {
                    copy.insert(name.clone(), statistic.clone());
                },
                None => {},
            }
            i += 1;
        }
        proof {
            self.metrics.lemma_keys();
        }
        copy
    }
}

impl PartialEq for Estimates {
    fn eq(&self, other: &Self) -> (same: bool) {
        self.matches(other)
    }
}

impl vstd::std_specs::cmp::PartialEqSpecImpl for Estimates {
    open spec fn obeys_eq_spec() -> bool {
        true
    }

    open spec fn eq_spec(&self, other: &Self) -> bool {
        self@ == other@
    }
}

impl Eq for Estimates {

}

impl Estimates {
    /// Whether `other` holds every metric of these estimates, with the same
    /// summary.
    fn within(&self, other: &Estimates) -> (held: bool)
        ensures
            held == (forall|name: Seq<char>| #[trigger]
                self@.contains_key(name) ==> other@.contains_key(name) && other@[name]
                    == self@[name]),
    {
        let mut i: usize = 0;
        while i < self.metrics.len()
            invariant
                i <= self.metrics.spec_len(),
                forall|j: int|
                    0 <= j < i ==> other@.contains_key(#[trigger] self.metrics.spec_key_at(j)@)
                        && other@[self.metrics.spec_key_at(j)@]
                        == self@[self.metrics.spec_key_at(j)@],
            decreases self.metrics.spec_len() - i,
        {
            match self.metrics.entry_at(i) {
                Some((name, statistic)) => {
                    assert(self@.contains_key(name@) && self@[name@] == statistic@);
                    let same = match other.get(name) {
                        Some(found) => found.record == statistic.record,
                        None => false,
                    };
                    if !same {
                        return false;
                    }
                },
                None => {},
            }
            i += 1;
        }
        proof {
            self.metrics.lemma_keys();
        }
        true
    }

    /// Whether two estimates hold the same metrics with the same summaries.
    pub fn matches(&self, other: &Estimates) -> (same: bool)
        ensures
            same == (self@ == other@),
    {
        let same = self.within(other) && other.within(self);
        proof {
            if same {
                assert(self@ =~= other@);
            }
        }
        same
    }

    /// How many metrics the estimates hold.
    pub closed spec fn spec_len(&self) -> nat {
        self.metrics.spec_len()
    }

    /// How many metrics the estimates hold.
    pub fn len(&self) -> (len: usize)
        ensures
            len == self.spec_len(),
            self@.dom().finite(),
            len == self@.dom().len(),
    {
        assert(self@.dom() =~= self.metrics@.dom());
        self.metrics.len()
    }

    /// The metric at position `i` with its summary; `None` where the
    /// estimates have no such position.
    pub fn entry_at(&self, i: usize) -> (entry: Option<(&String, &Statistic)>)
        ensures
            entry is Some <==> i < self.spec_len(),
            entry matches Some((name, statistic)) ==> self@.contains_key(name@) && self@[name@]
                == statistic@,
    {
        self.metrics.entry_at(i)
    }

    /// Estimates of no metric at all: their model is the empty map, and
    /// they have no position at which a metric could be listed.
    pub fn new() -> (estimates: Self)
        ensures
            estimates@ == Map::<Seq<char>, Seq<char>>::empty(),
            estimates.spec_len() == 0,
    {
        Estimates { metrics: Table::new() }
    }

    /// The summary of the metric `name`, if the estimates hold one.
    pub fn get(&self, name: &String) -> (found: Option<&Statistic>)
        ensures
            found is Some <==> self@.contains_key(name@),
            found matches Some(statistic) ==> statistic@ == self@[name@],
    {
        self.metrics.get(name)
    }

    /// Whether the estimates hold a summary of the metric `name`.
    pub fn contains(&self, name: &String) -> (held: bool)
        ensures
            held == self@.contains_key(name@),
    {
        self.metrics.get(name).is_some()
    }

    /// Records `statistic` as the summary of the metric `name`, in place of
    /// what was recorded for it before.
    pub fn insert(&mut self, name: String, statistic: Statistic)
        ensures
            final(self)@ == old(self)@.insert(name@, statistic@),
    {
        self.metrics.insert(name, statistic);
    }

    /// Adds those of `entries` whose metric the estimates do not hold yet.
    pub fn extend_missing(&mut self, entries: &Vec<(String, String)>)
        ensures
            final(self)@ == with_missing(old(self)@, entries.deep_view()),
    {
        let ghost all = entries.deep_view();
        let mut i: usize = 0;
        assert(all.skip(0) =~= all);
        while i < entries.len()
            invariant
                i <= entries.len(),
                all == entries.deep_view(),
                with_missing(self@, all.skip(i as int)) == with_missing(old(self)@, all),
            decreases entries.len() - i,
        {
            let name = entries[i].0.clone();
            let record = entries[i].1.clone();
            assert(all.skip(i as int).drop_first() =~= all.skip(i + 1));
            if !self.contains(&name) {
                self.insert(name, Statistic { record });
            }
            i += 1;
        }
    }

    /// The estimates that the results of an execution amount to: see
    /// [`assembled`].
    pub fn assemble(
        primary: Result<Reading, String>,
        secondary: Option<Result<Reading, String>>,
    ) -> (assembly: Result<Estimates, String>)
        ensures
            assembly_view(assembly) == assembled(
                attempt_view(primary),
                match secondary {
                    Some(attempt) => Some(attempt_view(attempt)),
                    None => None,
                },
            ),
    {
        let first = match primary {
            Ok(first) => first,
            Err(why) => {
                return Err(why);
            },
        };
        let mut estimates = Estimates::new();
        estimates.insert("nanoseconds".to_owned(), Statistic { record: first.text });
        match secondary {
            None => Ok(estimates),
            Some(Err(why)) => Err(why),
            Some(Ok(second)) => match second.members {
                None => Err("the metrics estimates are not a JSON object".to_owned()),
                Some(members) => {
                    estimates.extend_missing(&members);
                    Ok(estimates)
                },
            },
        }
    }
}

} // verus!
