//! Reading whole documents: a sequence of lines through one record builder at a time.
use vstd::prelude::*;
use crate::error::{ErrorKind, MgfError, fails_as};
use crate::mascot_generic_format::{MascotGenericFormat, RecordView};
use crate::mascot_generic_format_builder::{
    BuilderPhase, MascotGenericFormatBuilder, RecordState, empty_record_state, record_build_outcome,
    record_buildable, record_digest, record_partial,
};

verus! {

/// The views of a sequence of records.
pub open spec fn records_view(v: Seq<MascotGenericFormat>) -> Seq<RecordView> {
    v.map_values(|m: MascotGenericFormat| m.view())
}

/// The characters of each line.
pub open spec fn lines_view(lines: Seq<&str>) -> Seq<Seq<char>> {
    lines.map_values(|l: &str| l@)
}

/// One line read in strict mode: the builder after it, the records so far, or the
/// first error.
pub open spec fn strict_scan(lines: Seq<Seq<char>>) -> Result<(RecordState, Seq<RecordView>), ErrorKind>
    decreases lines.len(),
{
    if lines.len() == 0 {
        Ok((empty_record_state(), Seq::empty()))
    } else {
        match strict_scan(lines.drop_last()) {
            Err(k) => Err(k),
            Ok((b, rs)) => {
                let (b2, e) = record_digest(b, lines.last());
                if e is Some {
                    Err(e->0)
                } else if record_buildable(b2) {
                    match record_build_outcome(b2) {
                        Err(k) => Err(k),
                        Ok(r) => Ok((empty_record_state(), rs.push(r))),
                    }
                } else {
                    Ok((b2, rs))
                }
            },
        }
    }
}

/// The number of records whose feature id an earlier record already has.
pub open spec fn duplicate_count(rs: Seq<RecordView>) -> nat
    decreases rs.len(),
{
    if rs.len() == 0 {
        0
    } else {
        duplicate_count(rs.drop_last()) + if exists|i: int|
            0 <= i < rs.len() - 1 && #[trigger] rs[i].metadata.feature_id
                == rs.last().metadata.feature_id {
            1nat
        } else {
            0nat
        }
    }
}

/// The records of a document read in strict mode, or the first error; records that
/// share a feature id are an error too.
pub open spec fn strict_of(lines: Seq<Seq<char>>) -> Result<Seq<RecordView>, ErrorKind> {
    match strict_scan(lines) {
        Err(k) => Err(k),
        Ok((_, rs)) => if duplicate_count(rs) > 0 {
            Err(ErrorKind::DuplicateFeatureIds(duplicate_count(rs) as usize))
        } else {
            Ok(rs)
        },
    }
}

/// A diagnostic of the lenient reading, as the reading states it.
pub enum LogEntry {
    /// A line or a record raised an error.
    Error(ErrorKind),
    /// The live builder was corrupted and the backup builder took its place; the
    /// feature ids of both, if known.
    Recovered(Option<usize>, Option<usize>),
    /// The live builder and the backup builder are both corrupted.
    RecoveryFailed(Option<usize>, Option<usize>),
}

/// A diagnostic of the lenient reading.
#[derive(Debug)]
pub enum Diagnostic {
    /// A line or a record raised this error.
    Error(MgfError),
    /// The live builder was corrupted and the backup builder took its place.
    Recovered { corrupted: Option<usize>, backup: Option<usize> },
    /// The live builder and the backup builder are both corrupted: lines are skipped
    /// up to the next record.
    RecoveryFailed { corrupted: Option<usize>, backup: Option<usize> },
}

impl Diagnostic {
    /// What the diagnostic states.
    pub open spec fn view(self) -> LogEntry {
        match self {
            Diagnostic::Error(e) => LogEntry::Error(e.kind),
            Diagnostic::Recovered { corrupted, backup } => LogEntry::Recovered(corrupted, backup),
            Diagnostic::RecoveryFailed { corrupted, backup } => LogEntry::RecoveryFailed(corrupted, backup),
        }
    }
}

/// The views of a sequence of diagnostics.
pub open spec fn log_view(v: Seq<Diagnostic>) -> Seq<LogEntry> {
    v.map_values(|d: Diagnostic| d.view())
}

/// Where the lenient reading stands: the live builder, the backup builder, the records
/// built and the diagnostics.
pub struct ScanState {
    pub live: RecordState,
    pub backup: Option<RecordState>,
    pub records: Seq<RecordView>,
    pub log: Seq<LogEntry>,
}

/// The lenient reading before any line.
pub open spec fn lenient_start() -> ScanState {
    ScanState { live: empty_record_state(), backup: None, records: Seq::empty(), log: Seq::empty() }
}

/// The error that a digest raised, as a diagnostic (none if it raised none).
pub open spec fn error_entries(e: Option<ErrorKind>) -> Seq<LogEntry> {
    match e {
        Some(k) => seq![LogEntry::Error(k)],
        None => Seq::empty(),
    }
}

/// One line of the lenient reading. A corrupted live builder skips lines up to the
/// next `BEGIN IONS`, where reading starts afresh. A builder that waits for a
/// continuation gets a backup builder, which is fed every following line too; when
/// the live builder is corrupted and the backup is not, the backup takes its place.
/// A buildable live builder is built, and reading starts afresh.
pub open spec fn lenient_step(s: ScanState, line: Seq<char>) -> ScanState {
    if s.live.phase == BuilderPhase::Corrupted && line != "BEGIN IONS"@ {
        s
    } else {
        let s1 = if s.live.phase == BuilderPhase::Corrupted {
            ScanState { live: empty_record_state(), backup: None, ..s }
        } else {
            s
        };
        let backup1 = if record_partial(s1.live) && s1.backup is None {
            Some(empty_record_state())
        } else {
            s1.backup
        };
        let backup2 = match backup1 {
            Some(b) => Some(record_digest(b, line).0),
            None => None,
        };
        let (live2, e) = record_digest(s1.live, line);
        let log2 = s1.log + error_entries(e);
        let (live3, backup3, log3) = if live2.phase == BuilderPhase::Corrupted && backup2 is Some
            && backup2->0.phase != BuilderPhase::Corrupted {
            (
                backup2->0,
                None,
                log2.push(LogEntry::Recovered(live2.metadata.feature_id, backup2->0.metadata.feature_id)),
            )
        } else if live2.phase == BuilderPhase::Corrupted && backup2 is Some {
            (
                live2,
                backup2,
                log2.push(LogEntry::RecoveryFailed(live2.metadata.feature_id, backup2->0.metadata.feature_id)),
            )
        } else {
            (live2, backup2, log2)
        };
        if record_buildable(live3) {
            match record_build_outcome(live3) {
                Ok(r) => ScanState { live: empty_record_state(), backup: None, records: s1.records.push(r), log: log3 },
                Err(k) => ScanState { live: empty_record_state(), backup: None, records: s1.records, log: log3.push(LogEntry::Error(k)) },
            }
        } else {
            ScanState { live: live3, backup: backup3, records: s1.records, log: log3 }
        }
    }
}

/// The lenient reading of the lines.
pub open spec fn lenient_scan(lines: Seq<Seq<char>>) -> ScanState
    decreases lines.len(),
{
    if lines.len() == 0 {
        lenient_start()
    } else {
        lenient_step(lenient_scan(lines.drop_last()), lines.last())
    }
}

/// Where a document reads without error in strict mode, the lenient reading builds the
/// same records, in the same order, and reports nothing.
pub proof fn lemma_strict_agrees_with_lenient(lines: Seq<Seq<char>>)
    requires
        strict_of(lines) is Ok,
    ensures
        lenient_scan(lines).records == strict_of(lines)->Ok_0,
        lenient_scan(lines).log.len() == 0,
{
    lemma_strict_scan_lenient(lines);
}

/// Along a strict reading without error, the lenient reading has the same live builder
/// and the same records.
pub proof fn lemma_strict_scan_lenient(lines: Seq<Seq<char>>)
    requires
        strict_scan(lines) is Ok,
    ensures
        lenient_scan(lines).live == strict_scan(lines)->Ok_0.0,
        lenient_scan(lines).records == strict_scan(lines)->Ok_0.1,
        lenient_scan(lines).live.phase != BuilderPhase::Corrupted,
        lenient_scan(lines).log.len() == 0,
    decreases lines.len(),
{
    if lines.len() > 0 {
        lemma_strict_scan_lenient(lines.drop_last());
    }
}

/// A sequence of records.
#[derive(Debug)]
pub struct MGFVec {
    mascot_generic_formats: Vec<MascotGenericFormat>,
}

impl MGFVec {
    /// The records.
    pub closed spec fn view(self) -> Seq<RecordView> {
        records_view(self.mascot_generic_formats@)
    }

    /// An empty sequence.
    pub fn new() -> (r: MGFVec)
        ensures
            r.view() == Seq::<RecordView>::empty(),
    {
        let r = MGFVec { mascot_generic_formats: Vec::new() };
        assert(r.view() =~= Seq::<RecordView>::empty());
        r
    }

    /// Appends a record.
    pub fn push(&mut self, mascot_generic_format: MascotGenericFormat)
        ensures
            final(self).view() == old(self).view().push(mascot_generic_format.view()),
    {
        self.mascot_generic_formats.push(mascot_generic_format);
        assert(self.view() =~= old(self).view().push(mascot_generic_format.view()));
    }

    /// Returns the number of records.
    pub fn len(&self) -> (r: usize)
        ensures
            r == self.view().len(),
    {
        self.mascot_generic_formats.len()
    }

    /// Returns whether there is no record.
    pub fn is_empty(&self) -> (r: bool)
        ensures
            r == (self.view().len() == 0),
    {
        self.mascot_generic_formats.len() == 0
    }

    /// Returns the record at `index`.
    pub fn get(&self, index: usize) -> (r: &MascotGenericFormat)
        requires
            index < self.view().len(),
        ensures
            r.view() == self.view()[index as int],
    {
        &self.mascot_generic_formats[index]
    }

    /// Returns the records as a slice.
    pub fn as_slice(&self) -> (r: &[MascotGenericFormat])
        ensures
            records_view(r@) == self.view(),
    {
        self.mascot_generic_formats.as_slice()
    }

    /// Returns the records as a mutable slice.
    pub fn as_mut_slice(&mut self) -> (r: &mut [MascotGenericFormat])
        ensures
            records_view(r@) == old(self).view(),
            final(self).view() == records_view(final(r)@),
    {
        self.mascot_generic_formats.as_mut_slice()
    }

    /// Returns an iterator over the records.
    pub fn iter(&self) -> (r: std::slice::Iter<'_, MascotGenericFormat>)
        ensures
            records_view(vstd::std_specs::slice::into_iter_elts(r)) == self.view(),
    {
        self.mascot_generic_formats.as_slice().iter()
    }

    /// Returns the records as a vector.
    pub fn into_vec(self) -> (r: Vec<MascotGenericFormat>)
        ensures
            records_view(r@) == self.view(),
    {
        self.mascot_generic_formats
    }

    /// Removes every record.
    pub fn clear(&mut self)
        ensures
            final(self).view() == Seq::<RecordView>::empty(),
    {
        self.mascot_generic_formats.clear();
        assert(self.view() =~= Seq::<RecordView>::empty());
    }

    /// Reads a document in strict mode: the records, or the first error of a line or of
    /// a record, or an error naming how many records repeat a feature id.
    pub fn try_from_iter(lines: &[&str]) -> (r: Result<MGFVec, MgfError>)
        ensures
            match strict_of(lines_view(lines@)) {
                Err(k) => fails_as(r, k),
                Ok(rs) => r matches Ok(v) && v.view() == rs,
            },
    {
        let ghost all = lines_view(lines@);
        let mut records = MGFVec::new();
        let mut builder = MascotGenericFormatBuilder::new();
        let mut i: usize = 0;
        assert(all.subrange(0, 0) =~= Seq::<Seq<char>>::empty());
        while i < lines.len()
            invariant
                i <= lines@.len(),
                all == lines_view(lines@),
                all.len() == lines@.len(),
                strict_scan(all.subrange(0, i as int)) == Ok::<_, ErrorKind>((builder.state(), records.view())),
            decreases lines.len() - i,
        {
            let line = lines[i];
            assert(all.subrange(0, i + 1).drop_last() =~= all.subrange(0, i as int));
            assert(all.subrange(0, i + 1).last() == line@);
            match builder.digest_line(line) {
                Ok(()) => {},
                Err(e) => {
                    assert(strict_scan(all.subrange(0, i + 1)) is Err);
                    proof { lemma_strict_error_stays(all, i as int + 1); }
                    assert(all.subrange(0, all.len() as int) =~= all);
                    return Err(e);
                },
            }
            if builder.can_build() {
                let finished = builder;
                builder = MascotGenericFormatBuilder::new();
                match finished.build() {
                    Ok(m) => records.push(m),
                    Err(e) => {
                        proof { lemma_strict_error_stays(all, i as int + 1); }
                        assert(all.subrange(0, all.len() as int) =~= all);
                        return Err(e);
                    },
                }
            }
            i += 1;
        }
        assert(all.subrange(0, all.len() as int) =~= all);
        let count = duplicate_feature_ids(&records);
        if count > 0 {
            return Err(MgfError::of_kind(ErrorKind::DuplicateFeatureIds(count)));
        }
        Ok(records)
    }
}

/// The states of an optional builder.
pub open spec fn backup_state(b: Option<MascotGenericFormatBuilder>) -> Option<RecordState> {
    match b {
        Some(x) => Some(x.state()),
        None => None,
    }
}

impl MGFVec {
    /// Reads a document in lenient mode, as [`lenient_scan`] says: the records that
    /// could be built, and the diagnostics of the reading. It never fails: a corrupted
    /// record is dropped, and reading resumes at the next one.
    pub fn from_iter_with_error_log(lines: &[&str]) -> (r: (MGFVec, Vec<Diagnostic>))
        ensures
            r.0.view() == lenient_scan(lines_view(lines@)).records,
            log_view(r.1@) == lenient_scan(lines_view(lines@)).log,
    {
        let ghost all = lines_view(lines@);
        let mut records = MGFVec::new();
        let mut log: Vec<Diagnostic> = Vec::new();
        let mut live = MascotGenericFormatBuilder::new();
        let mut backup: Option<MascotGenericFormatBuilder> = None;
        let mut i: usize = 0;
        assert(all.subrange(0, 0) =~= Seq::<Seq<char>>::empty());
        assert(log_view(log@) =~= Seq::<LogEntry>::empty());
        while i < lines.len()
            invariant
                i <= lines@.len(),
                all == lines_view(lines@),
                all.len() == lines@.len(),
                lenient_scan(all.subrange(0, i as int)) == (ScanState {
                    live: live.state(),
                    backup: backup_state(backup),
                    records: records.view(),
                    log: log_view(log@),
                }),
            decreases lines.len() - i,
        {
            let line = lines[i];
            assert(all.subrange(0, i + 1).drop_last() =~= all.subrange(0, i as int));
            assert(all.subrange(0, i + 1).last() == line@);
            let ghost s0 = lenient_scan(all.subrange(0, i as int));
            if live.is_corrupted() {
                if MascotGenericFormatBuilder::is_start_of_new_entry(line) {
                    live = MascotGenericFormatBuilder::new();
                    backup = None;
                } else {
                    i += 1;
                    continue;
                }
            }
            if live.is_partial() && backup.is_none() {
                backup = Some(MascotGenericFormatBuilder::new());
            }
            match backup.take() {
                Some(mut b) => {
                    let _ = b.digest_line(line);
                    backup = Some(b);
                },
                None => {},
            }
            let ghost log_before = log@;
            match live.digest_line(line) {
                Ok(()) => {},
                Err(e) => {
                    log.push(Diagnostic::Error(e));
                },
            }
            assert(log_view(log@) =~= log_view(log_before) + error_entries(
                record_digest(if s0.live.phase == BuilderPhase::Corrupted { empty_record_state() } else { s0.live }, line@).1,
            ));
            if live.is_corrupted() {
                match backup.take() {
                    Some(b) => {
                        if !b.is_corrupted() {
                            let ghost lb = log@;
                            log.push(Diagnostic::Recovered { corrupted: live.feature_id(), backup: b.feature_id() });
                            assert(log_view(log@) =~= log_view(lb).push(LogEntry::Recovered(live.state().metadata.feature_id, b.state().metadata.feature_id)));
                            live = b;
                        } else {
                            let ghost lb = log@;
                            log.push(Diagnostic::RecoveryFailed { corrupted: live.feature_id(), backup: b.feature_id() });
                            assert(log_view(log@) =~= log_view(lb).push(LogEntry::RecoveryFailed(live.state().metadata.feature_id, b.state().metadata.feature_id)));
                            backup = Some(b);
                        }
                    },
                    None => {},
                }
            }
            if live.can_build() {
                let finished = live;
                live = MascotGenericFormatBuilder::new();
                backup = None;
                match finished.build() {
                    Ok(m) => records.push(m),
                    Err(e) => {
                        let ghost lb = log@;
                        log.push(Diagnostic::Error(e));
                        assert(log_view(log@) =~= log_view(lb).push(LogEntry::Error(e.kind)));
                    },
                }
            }
            i += 1;
        }
        assert(all.subrange(0, all.len() as int) =~= all);
        (records, log)
    }
}

/// Once the strict reading has failed, it stays failed with the same error.
pub proof fn lemma_strict_error_stays(all: Seq<Seq<char>>, i: int)
    requires
        0 <= i <= all.len(),
        strict_scan(all.subrange(0, i)) is Err,
    ensures
        strict_scan(all) == strict_scan(all.subrange(0, i)),
    decreases all.len() - i,
{
    if i < all.len() {
        assert(all.subrange(0, i + 1).drop_last() =~= all.subrange(0, i));
        lemma_strict_error_stays(all, i + 1);
    } else {
        assert(all.subrange(0, i) =~= all);
    }
}

/// The number of records whose feature id an earlier record already has.
fn duplicate_feature_ids(records: &MGFVec) -> (r: usize)
    ensures
        r == duplicate_count(records.view()),
{
    let rs = records.as_slice();
    let ghost v = records.view();
    let mut count: usize = 0;
    let mut i: usize = 0;
    assert(v.subrange(0, 0) =~= Seq::<RecordView>::empty());
    while i < rs.len()
        invariant
            i <= rs@.len(),
            v == records_view(rs@),
            v.len() == rs@.len(),
            count == duplicate_count(v.subrange(0, i as int)),
            count <= i,
        decreases rs.len() - i,
    {
        let id = rs[i].feature_id();
        let mut j: usize = 0;
        let mut seen = false;
        while j < i
            invariant
                j <= i,
                i < rs@.len(),
                v == records_view(rs@),
                id == v[i as int].metadata.feature_id,
                seen == exists|k: int| 0 <= k < j && #[trigger] v[k].metadata.feature_id == id,
            decreases i - j,
        {
            let other = rs[j].feature_id();
            assert(v[j as int] == rs@[j as int].view());
            if other == id {
                seen = true;
                assert(v[j as int].metadata.feature_id == id);
            }
            proof {
                if !seen {
                    assert forall|k: int| 0 <= k < j + 1 implies #[trigger] v[k].metadata.feature_id != id by {
                        if k == j {
                            assert(v[k].metadata.feature_id == other);
                        }
                    }
                }
            }
            j += 1;
        }
        let ghost pre = v.subrange(0, i + 1);
        assert(pre.drop_last() =~= v.subrange(0, i as int));
        assert(pre.last() == v[i as int]);
        assert((exists|k: int| 0 <= k < pre.len() - 1 && #[trigger] pre[k].metadata.feature_id == pre.last().metadata.feature_id) == seen) by {
            if seen {
                let k = choose|k: int| 0 <= k < i && #[trigger] v[k].metadata.feature_id == id;
                assert(pre[k] == v[k]);
            }
            if exists|k: int| 0 <= k < pre.len() - 1 && #[trigger] pre[k].metadata.feature_id == pre.last().metadata.feature_id {
                let k = choose|k: int| 0 <= k < pre.len() - 1 && #[trigger] pre[k].metadata.feature_id == pre.last().metadata.feature_id;
                assert(v[k] == pre[k]);
            }
        }
        if seen {
            count += 1;
        }
        i += 1;
    }
    assert(v.subrange(0, i as int) =~= v);
    count
}

} // verus!
