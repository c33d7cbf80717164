//! Reads the `MERGED_SCANS=` and `MERGED_STATS=` lines of a record.
use vstd::prelude::*;
use crate::error::{ErrorKind, MgfError, fails_as, fails_with};
use crate::merge_scans_metadata::MergeScansMetadata;
use crate::text::{
    after, before, find_char, index_of, is_prefix_of, parse_usize, split_once, starts_with,
    strip_prefix, trim, trim_spaces, usize_of,
};

verus! {

/// What a merged-scans builder has gathered.
pub struct MergeState {
    pub scans: Seq<usize>,
    pub low_quality: Option<usize>,
    pub low_cosine: Option<usize>,
    pub total: Option<usize>,
}

/// The scan numbers of a comma-separated list such as `1567,1540`.
pub open spec fn scan_list_of(s: Seq<char>) -> Option<Seq<usize>>
    decreases s.len(),
{
    let i = index_of(s, ',');
    match usize_of(s.subrange(0, i)) {
        None => None,
        Some(h) => if i < 0 || i >= s.len() {
            Some(seq![h])
        } else {
            match scan_list_of(s.subrange(i + 1, s.len() as int)) {
                None => None,
                Some(t) => Some(seq![h] + t),
            }
        },
    }
}

/// The text between the first and the second `c` of `s` (up to its end if there is
/// only one), if `s` holds a `c`.
pub open spec fn second_part(s: Seq<char>, c: char) -> Option<Seq<char>> {
    match after(s, c) {
        None => None,
        Some(t) => Some(before(t, c)),
    }
}

/// The four numbers of the text after `MERGED_STATS=`, laid out as in
/// `2 / 5 (1 removed due to low quality, 2 removed due to low cosine).`: the merged
/// count, the total, and the two removed counts.
pub open spec fn merged_stats_of(body: Seq<char>) -> Option<(usize, usize, usize, usize)> {
    let fraction = before(body, '(');
    match (second_part(fraction, '/'), second_part(body, '(')) {
        (Some(total), Some(removed)) => match second_part(removed, ',') {
            None => None,
            Some(cosine) => {
                let merged = usize_of(trim(before(fraction, '/')));
                let total = usize_of(trim(total));
                let quality = usize_of(before(trim(before(removed, ',')), ' '));
                let cosine = usize_of(before(trim(cosine), ' '));
                if merged is Some && total is Some && quality is Some && cosine is Some {
                    Some((merged->0, total->0, quality->0, cosine->0))
                } else {
                    None
                }
            },
        },
        _ => None,
    }
}

/// The state after one line, or the error that the line raises (the state then
/// stays as it was).
pub open spec fn merge_digest(st: MergeState, line: Seq<char>) -> Result<MergeState, ErrorKind> {
    if is_prefix_of("MERGED_SCANS="@, line) {
        match scan_list_of(line.subrange("MERGED_SCANS="@.len() as int, line.len() as int)) {
            None => Err(ErrorKind::InvalidScanList),
            Some(scans) => Ok(MergeState { scans, ..st }),
        }
    } else if is_prefix_of("MERGED_STATS="@, line) {
        match merged_stats_of(line.subrange("MERGED_STATS="@.len() as int, line.len() as int)) {
            None => Err(ErrorKind::InvalidMergedStats),
            Some((merged, total, quality, cosine)) => if merged + quality + cosine != total {
                Err(ErrorKind::MergedStatsMismatch)
            } else {
                Ok(
                    MergeState {
                        low_quality: Some(quality),
                        low_cosine: Some(cosine),
                        total: Some(total),
                        ..st
                    },
                )
            },
        }
    } else {
        Err(ErrorKind::UnexpectedLine)
    }
}

/// Whether the statistics line has been read.
pub open spec fn merge_buildable(st: MergeState) -> bool {
    st.low_quality is Some && st.low_cosine is Some && st.total is Some
}

/// What building from the state `st` gives: the scans and the two removed counts, or
/// the error.
pub open spec fn merge_build_outcome(st: MergeState) -> Result<(Seq<usize>, usize, usize), ErrorKind> {
    if !merge_buildable(st) {
        Err(ErrorKind::MissingMergedStats)
    } else if st.total->0 != st.scans.len() + st.low_quality->0 + st.low_cosine->0 {
        Err(ErrorKind::MergedStatsMismatch)
    } else if st.scans.len() == 0 {
        Err(ErrorKind::NoScans)
    } else {
        Ok((st.scans, st.low_quality->0, st.low_cosine->0))
    }
}

/// Whether `line` is a merged-scans line.
pub open spec fn merge_line(line: Seq<char>) -> bool {
    is_prefix_of("MERGED_SCANS="@, line) || is_prefix_of("MERGED_STATS="@, line)
}

/// Builder of a [`MergeScansMetadata`], fed one line at a time.
#[derive(Clone, Debug)]
pub struct MergeScansMetadataBuilder {
    scans: Vec<usize>,
    removed_due_to_low_quality: Option<usize>,
    removed_due_to_low_cosine: Option<usize>,
    total_scans: Option<usize>,
}

impl Default for MergeScansMetadataBuilder {
    fn default() -> (r: MergeScansMetadataBuilder)
        ensures
            r.state() == (MergeState {
                scans: Seq::<usize>::empty(),
                low_quality: None,
                low_cosine: None,
                total: None,
            }),
    {
        MergeScansMetadataBuilder {
            scans: Vec::new(),
            removed_due_to_low_quality: None,
            removed_due_to_low_cosine: None,
            total_scans: None,
        }
    }
}

/// Reads a comma-separated list of scan numbers.
fn parse_scan_list(s: &str) -> (r: Option<Vec<usize>>)
    ensures
        match scan_list_of(s@) {
            None => r is None,
            Some(v) => r matches Some(x) && x@ == v,
        },
{
    let mut out: Vec<usize> = Vec::new();
    let mut rest: &str = s;
    loop
        invariant
            scan_list_of(s@) == match scan_list_of(rest@) {
                None => None,
                Some(t) => Some(out@ + t),
            },
        decreases rest@.len(),
    {
        let n = rest.unicode_len();
        let i = find_char(rest, 0, ',');
        assert(rest@.subrange(0, n as int) =~= rest@);
        let h = match parse_usize(rest.substring_char(0, i)) {
            Some(h) => h,
            None => {
                return None;
            },
        };
        let ghost before_push = out@;
        out.push(h);
        if i == n {
            assert(out@ =~= before_push + seq![h]);
            return Some(out);
        }
        let next = rest.substring_char(i + 1, n);
        proof {
            let t = scan_list_of(next@);
            if t is Some {
                assert(before_push + (seq![h] + t->0) =~= out@ + t->0);
            }
        }
        rest = next;
    }
}

/// The text between the first and the second `c` of `s`, if `s` holds a `c`.
fn second_part_exec(s: &str, c: char) -> (r: Option<&str>)
    ensures
        match second_part(s@, c) {
            None => r is None,
            Some(t) => r matches Some(x) && x@ == t,
        },
{
    match split_once(s, c).1 {
        None => None,
        Some(t) => Some(split_once(t, c).0),
    }
}

/// Reads a count: the first space-separated word of the trimmed text.
fn parse_count(s: &str) -> (r: Option<usize>)
    ensures
        r == usize_of(before(trim(s@), ' ')),
{
    parse_usize(split_once(trim_spaces(s), ' ').0)
}

/// Reads the four numbers of the text after `MERGED_STATS=`.
fn parse_merged_stats(body: &str) -> (r: Option<(usize, usize, usize, usize)>)
    ensures
        r == merged_stats_of(body@),
{
    let fraction = split_once(body, '(').0;
    let total = match second_part_exec(fraction, '/') {
        Some(t) => t,
        None => {
            return None;
        },
    };
    let removed = match second_part_exec(body, '(') {
        Some(t) => t,
        None => {
            return None;
        },
    };
    let cosine = match second_part_exec(removed, ',') {
        Some(t) => t,
        None => {
            return None;
        },
    };
    let merged = parse_usize(trim_spaces(split_once(fraction, '/').0));
    let total = parse_usize(trim_spaces(total));
    let quality = parse_count(split_once(removed, ',').0);
    let cosine = parse_count(cosine);
    match (merged, total, quality, cosine) {
        (Some(m), Some(t), Some(q), Some(c)) => Some((m, t, q, c)),
        _ => None,
    }
}

impl MergeScansMetadataBuilder {
    /// What the builder has gathered.
    pub closed spec fn state(self) -> MergeState {
        MergeState {
            scans: self.scans@,
            low_quality: self.removed_due_to_low_quality,
            low_cosine: self.removed_due_to_low_cosine,
            total: self.total_scans,
        }
    }

    /// Returns whether `line` is a `MERGED_SCANS=` or `MERGED_STATS=` line.
    pub fn can_parse_line(line: &str) -> (r: bool)
        ensures
            r == merge_line(line@),
    {
        starts_with(line, "MERGED_SCANS=") || starts_with(line, "MERGED_STATS=")
    }

    /// Returns whether the statistics line has been read.
    pub fn can_build(&self) -> (r: bool)
        ensures
            r == merge_buildable(self.state()),
    {
        self.removed_due_to_low_quality.is_some() && self.removed_due_to_low_cosine.is_some()
            && self.total_scans.is_some()
    }

    /// Reads one line: `MERGED_SCANS=<id>,<id>,...` (replacing any earlier list) or
    /// `MERGED_STATS=<merged> / <total> (<n> removed due to low quality, <m> removed due to low cosine).`,
    /// whose counts must add up.
    pub fn digest_line(&mut self, line: &str) -> (r: Result<(), MgfError>)
        ensures
            match merge_digest(old(self).state(), line@) {
                Ok(st) => r is Ok && final(self).state() == st,
                Err(k) => fails_with(r, k, line@) && final(self).state() == old(self).state(),
            },
    {
        if let Some(rest) = strip_prefix(line, "MERGED_SCANS=") {
            assert(rest@ =~= line@.subrange("MERGED_SCANS="@.len() as int, line@.len() as int));
            match parse_scan_list(rest) {
                Some(scans) => {
                    self.scans = scans;
                    return Ok(());
                },
                None => {
                    return Err(MgfError::new(ErrorKind::InvalidScanList, line));
                },
            }
        }
        if let Some(rest) = strip_prefix(line, "MERGED_STATS=") {
            assert(rest@ =~= line@.subrange("MERGED_STATS="@.len() as int, line@.len() as int));
            match parse_merged_stats(rest) {
                Some((merged, total, quality, cosine)) => {
                    let sum: u128 = merged as u128 + quality as u128 + cosine as u128;
                    if sum != total as u128 {
                        return Err(MgfError::new(ErrorKind::MergedStatsMismatch, line));
                    }
                    self.removed_due_to_low_quality = Some(quality);
                    self.removed_due_to_low_cosine = Some(cosine);
                    self.total_scans = Some(total);
                    return Ok(());
                },
                None => {
                    return Err(MgfError::new(ErrorKind::InvalidMergedStats, line));
                },
            }
        }
        Err(MgfError::new(ErrorKind::UnexpectedLine, line))
    }

    /// Builds the provenance: the statistics must have been read, the listed scans and
    /// the removed counts must add up to the total, and the list must not be empty.
    pub fn build(self) -> (r: Result<MergeScansMetadata, MgfError>)
        ensures
            match merge_build_outcome(self.state()) {
                Err(k) => fails_as(r, k),
                Ok((scans, quality, cosine)) => r matches Ok(m) && m.scans_spec() == scans
                    && m.low_quality_spec() == quality && m.low_cosine_spec() == cosine,
            },
    {
        let (quality, cosine, total) = match (
            self.removed_due_to_low_quality,
            self.removed_due_to_low_cosine,
            self.total_scans,
        ) {
            (Some(q), Some(c), Some(t)) => (q, c, t),
            _ => {
                return Err(MgfError::of_kind(ErrorKind::MissingMergedStats));
            },
        };
        let sum: u128 = self.scans.len() as u128 + quality as u128 + cosine as u128;
        if sum != total as u128 {
            return Err(MgfError::of_kind(ErrorKind::MergedStatsMismatch));
        }
        MergeScansMetadata::new(self.scans, quality, cosine)
    }
}

} // verus!
