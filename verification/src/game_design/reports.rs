//! The implementation reports of a session, keyed by feature name.

use crate::game_design::lookup::{
    first_index, is_first_index, lemma_first_index_absent, lemma_first_index_found,
    lemma_first_index_is_first, lemma_first_index_none,
};
use vstd::prelude::*;

verus! {

/// One report: the feature's name and the latest report text submitted for it.
pub type ReportLine = (Seq<char>, Seq<char>);

/// The feature names of a list of reports, in order.
pub open spec fn report_keys(lines: Seq<ReportLine>) -> Seq<Seq<char>> {
    Seq::new(lines.len(), |i: int| lines[i].0)
}

/// No feature name occurs twice.
pub open spec fn keys_distinct(lines: Seq<ReportLine>) -> bool {
    forall|i: int, j: int| 0 <= i < j < lines.len() ==> lines[i].0 != lines[j].0
}

/// The report stored for `name`, if any.
pub open spec fn report_for(lines: Seq<ReportLine>, name: Seq<char>) -> Option<Seq<char>> {
    match first_index(report_keys(lines), name) {
        Some(i) => Some(lines[i].1),
        None => None,
    }
}

/// The reports after storing `text` for `name`: an earlier report for the same
/// feature is replaced in place, a new feature goes to the end.
pub open spec fn with_report(lines: Seq<ReportLine>, name: Seq<char>, text: Seq<char>) -> Seq<
    ReportLine,
> {
    match first_index(report_keys(lines), name) {
        Some(i) => lines.update(i, (name, text)),
        None => lines.push((name, text)),
    }
}

/// The reports as a finite map from feature name to report text.
pub open spec fn as_map(lines: Seq<ReportLine>) -> Map<Seq<char>, Seq<char>> {
    Map::new(
        |name: Seq<char>| report_for(lines, name) is Some,
        |name: Seq<char>| report_for(lines, name)->0,
    )
}

/// Storing a report keeps the names distinct, makes the stored text the report
/// of its feature and leaves every other feature's report as it was.
pub proof fn lemma_with_report(lines: Seq<ReportLine>, name: Seq<char>, text: Seq<char>)
    requires
        keys_distinct(lines),
    ensures
        keys_distinct(with_report(lines, name, text)),
        report_for(with_report(lines, name, text), name) == Some(text),
        forall|other: Seq<char>|
            other != name ==> #[trigger] report_for(with_report(lines, name, text), other)
                == report_for(lines, other),
        as_map(with_report(lines, name, text)) == as_map(lines).insert(name, text),
{
    let keys = report_keys(lines);
    let after = with_report(lines, name, text);
    let keys_after = report_keys(after);
    match first_index(keys, name) {
        Some(i) => {
            lemma_first_index_is_first(keys, name);
            assert(keys_after =~= keys);
        },
        None => {
            lemma_first_index_none(keys, name);
            assert(keys_after =~= keys.push(name));
            assert(is_first_index(keys_after, name, lines.len() as int));
            lemma_first_index_found(keys_after, name, lines.len() as int);
            assert forall|other: Seq<char>| other != name implies #[trigger] report_for(
                after,
                other,
            ) == report_for(lines, other) by {
                match first_index(keys, other) {
                    Some(k) => {
                        lemma_first_index_is_first(keys, other);
                        assert(is_first_index(keys_after, other, k));
                        lemma_first_index_found(keys_after, other, k);
                    },
                    None => {
                        lemma_first_index_none(keys, other);
                        lemma_first_index_absent(keys_after, other);
                    },
                }
            }
        },
    }
    assert forall|i: int, j: int| 0 <= i < j < after.len() implies after[i].0 != after[j].0 by {
        assert(after[i].0 == keys_after[i] && after[j].0 == keys_after[j]);
        if j < lines.len() {
            assert(lines[i].0 == keys[i] && lines[j].0 == keys[j]);
        } else {
            assert(keys[i] != name);
        }
    }
    assert(as_map(after) =~= as_map(lines).insert(name, text));
}

/// A map from feature name to the latest implementation report submitted for
/// that feature. Entries keep the order in which their features first received
/// a report.
#[derive(Debug, PartialEq, Eq)]
pub struct ReportMap {
    entries: Vec<(String, String)>,
}

impl View for ReportMap {
    type V = Seq<ReportLine>;

    closed spec fn view(&self) -> Seq<ReportLine> {
        Seq::new(self.entries@.len(), |i: int| (self.entries@[i].0@, self.entries@[i].1@))
    }
}

impl ReportMap {
    /// The invariant of the type: no feature name occurs twice.
    pub open spec fn wf(&self) -> bool {
        keys_distinct(self@)
    }

    /// An empty map.
    pub fn new() -> (reports: Self)
        ensures
            reports.wf(),
            reports@ == Seq::<ReportLine>::empty(),
    {
        let reports = ReportMap { entries: Vec::new() };
        assert(reports@ =~= Seq::<ReportLine>::empty());
        reports
    }

    /// The number of features that have a report.
    pub fn len(&self) -> (n: usize)
        ensures
            n == self@.len(),
    {
        self.entries.len()
    }

    /// Whether no feature has a report.
    pub fn is_empty(&self) -> (empty: bool)
        ensures
            empty == (self@.len() == 0),
    {
        self.entries.len() == 0
    }

    /// The index of the entry for `name`, if there is one.
    fn position(&self, name: &String) -> (found: Option<usize>)
        ensures
            match found {
                Some(i) => first_index(report_keys(self@), name@) == Some(i as int),
                None => first_index(report_keys(self@), name@) is None,
            },
    {
        let mut i: usize = 0;
        while i < self.entries.len()
            invariant
                i <= self.entries@.len(),
                forall|j: int| 0 <= j < i ==> report_keys(self@)[j] != name@,
            decreases self.entries@.len() - i,
        {
            if self.entries[i].0 == *name {
                proof {
                    lemma_first_index_found(report_keys(self@), name@, i as int);
                }
                return Some(i);
            }
            i += 1;
        }
        proof {
            lemma_first_index_absent(report_keys(self@), name@);
        }
        None
    }

    /// Whether a report is stored for `name`.
    pub fn contains_key(&self, name: &String) -> (present: bool)
        ensures
            present == (report_for(self@, name@) is Some),
    {
        self.position(name).is_some()
    }

    /// The report stored for `name`, if any.
    pub fn get(&self, name: &String) -> (report: Option<&String>)
        ensures
            match report {
                Some(text) => report_for(self@, name@) == Some(text@),
                None => report_for(self@, name@) is None,
            },
    {
        match self.position(name) {
            Some(i) => Some(&self.entries[i].1),
            None => None,
        }
    }

    /// The feature name of the entry at `index`.
    pub fn name_at(&self, index: usize) -> (name: &String)
        requires
            index < self@.len(),
        ensures
            name@ == self@[index as int].0,
    {
        &self.entries[index].0
    }

    /// The report text of the entry at `index`.
    pub fn text_at(&self, index: usize) -> (text: &String)
        requires
            index < self@.len(),
        ensures
            text@ == self@[index as int].1,
    {
        &self.entries[index].1
    }

    /// Stores `text` as the report for `name`, replacing an earlier report for
    /// the same feature.
    pub fn insert(&mut self, name: String, text: String)
        requires
            old(self).wf(),
        ensures
            final(self).wf(),
            final(self)@ == with_report(old(self)@, name@, text@),
    {
        match self.position(&name) {
            Some(i) => {
                self.entries.set(i, (name, text));
            },
            None => {
                self.entries.push((name, text));
            },
        }
        proof {
            assert(self@ =~= with_report(old(self)@, name@, text@));
            lemma_with_report(old(self)@, name@, text@);
        }
    }
}

impl Clone for ReportMap {
    fn clone(&self) -> (copy: Self)
        ensures
            copy@ == self@,
    {
        let mut entries: Vec<(String, String)> = Vec::new();
        let mut i: usize = 0;
        while i < self.entries.len()
            invariant
                i <= self.entries@.len(),
                entries@.len() == i,
                forall|j: int|
                    0 <= j < i ==> entries@[j].0@ == self.entries@[j].0@ && entries@[j].1@
                        == self.entries@[j].1@,
            decreases self.entries@.len() - i,
        {
            entries.push((self.entries[i].0.clone(), self.entries[i].1.clone()));
            i += 1;
        }
        let copy = ReportMap { entries };
        assert(copy@ =~= self@);
        copy
    }
}

} // verus!
