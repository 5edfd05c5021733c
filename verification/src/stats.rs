//! Figures about the branch: how long work on it took, how many commits it
//! holds, who made them, and how many files changed per hour.

use vstd::prelude::*;
use crate::decimal::{parse_i64, parsed_i64};
use crate::error::RunError;
use crate::inspect::{read_output, read_trimmed, trimmed_answer, vcs_text, CommandOutput};
use crate::text::{first_line, lines, split_lines, take_first_line, texts};

verus! {

/// Figures about the commits that the current branch has and the base lacks.
pub struct RepoStats {
    /// Whole hours from the oldest of those commits to the newest commit of
    /// the current branch; zero or negative where the times say so.
    pub duration_hours: i64,
    /// How many such commits there are.
    pub commit_count: u64,
    /// One line per author, a commit count and a name, merges left out, the
    /// author with most commits first.
    pub contributors: String,
    /// How many files differ between the two branches.
    pub changed_files: usize,
}

/// `RepoStats` as mathematical values.
pub struct StatsView {
    pub duration_hours: int,
    pub commit_count: nat,
    pub contributors: Seq<char>,
    pub changed_files: nat,
}

impl View for RepoStats {
    type V = StatsView;

    open spec fn view(&self) -> StatsView {
        StatsView {
            duration_hours: self.duration_hours as int,
            commit_count: self.commit_count as nat,
            contributors: self.contributors@,
            changed_files: self.changed_files as nat,
        }
    }
}

/// The quotient of `a` by a positive `b`, rounded toward zero.
pub open spec fn truncated_quotient(a: int, b: int) -> int {
    if a >= 0 {
        a / b
    } else {
        -((-a) / b)
    }
}

/// Whole hours from `first` to `last`, both in seconds, rounded toward zero.
pub open spec fn hours_from(first: int, last: int) -> int {
    truncated_quotient(last - first, 3600)
}

/// The number of hours by which the changed files are divided: the duration
/// where that is positive, else one.
pub open spec fn denominator_for(duration_hours: int) -> int {
    if duration_hours > 0 {
        duration_hours
    } else {
        1
    }
}

impl StatsView {
    /// Code velocity is `velocity_numerator() / velocity_denominator()`
    /// changed files per hour.
    pub open spec fn velocity_numerator(self) -> int {
        self.changed_files as int
    }

    pub open spec fn velocity_denominator(self) -> int {
        denominator_for(self.duration_hours)
    }
}

/// The number that a line holds; meaningful where the line is a number.
pub open spec fn time_on(line: Seq<char>) -> int {
    parsed_i64(line)->0 as int
}

/// Whether every one of `ls` is a number.
pub open spec fn all_times(ls: Seq<Seq<char>>) -> bool {
    forall|i: int| 0 <= i < ls.len() ==> parsed_i64(#[trigger] ls[i]) is Some
}

/// The least of the numbers on `ls`, and zero where there is no line.
pub open spec fn earliest(ls: Seq<Seq<char>>) -> int
    decreases ls.len(),
{
    if ls.len() == 0 {
        0
    } else if ls.len() == 1 {
        time_on(ls[0])
    } else if time_on(ls.last()) < earliest(ls.drop_last()) {
        time_on(ls.last())
    } else {
        earliest(ls.drop_last())
    }
}

/// The time of the oldest commit that an answer holds: the answer lists the
/// author times of the commits, one on each line, and the least of them
/// counts, in whatever order they stand. It is zero when the answer has no
/// line at all, and an error when any line is no number.
pub open spec fn first_commit_time_of(status: Option<i32>, stdout: Seq<u8>) -> Result<
    i64,
    RunError,
> {
    match vcs_text(status, stdout) {
        Err(e) => Err(e),
        Ok(t) => if all_times(lines(t)) {
            Ok(earliest(lines(t)) as i64)
        } else {
            Err(RunError::VcsCommand)
        },
    }
}

/// The time of the newest commit that an answer holds: the number on its
/// first line, and zero when it has no line at all.
pub open spec fn commit_time_of(status: Option<i32>, stdout: Seq<u8>) -> Result<i64, RunError> {
    match vcs_text(status, stdout) {
        Err(e) => Err(e),
        Ok(t) => match first_line(t) {
            None => Ok(0i64),
            Some(l) => match parsed_i64(l) {
                Some(v) => Ok(v),
                None => Err(RunError::VcsCommand),
            },
        },
    }
}

/// The commit count that an answer holds: the trimmed answer as a number
/// that is not negative.
pub open spec fn commit_count_of(status: Option<i32>, stdout: Seq<u8>) -> Result<u64, RunError> {
    match trimmed_answer(status, stdout) {
        Err(e) => Err(e),
        Ok(t) => match parsed_i64(t) {
            Some(v) => if v >= 0 {
                Ok(v as u64)
            } else {
                Err(RunError::VcsCommand)
            },
            None => Err(RunError::VcsCommand),
        },
    }
}

/// The figures that the four answers and the number of changed files give:
/// `first` answers `FirstCommitTime`, `last` answers `LastCommitTime`. The
/// answers are looked at in the order of the parameters, and the first one
/// that is unusable decides the error.
pub open spec fn stats_of(
    first: CommandOutput,
    last: CommandOutput,
    count: CommandOutput,
    contributors: CommandOutput,
    changed_files: nat,
) -> Result<StatsView, RunError> {
    match first_commit_time_of(first.status, first.stdout@) {
        Err(e) => Err(e),
        Ok(f) => match commit_time_of(last.status, last.stdout@) {
            Err(e) => Err(e),
            Ok(l) => match commit_count_of(count.status, count.stdout@) {
                Err(e) => Err(e),
                Ok(c) => match trimmed_answer(contributors.status, contributors.stdout@) {
                    Err(e) => Err(e),
                    Ok(names) => Ok(
                        StatsView {
                            duration_hours: hours_from(f as int, l as int),
                            commit_count: c as nat,
                            contributors: names,
                            changed_files,
                        },
                    ),
                },
            },
        },
    }
}

/// Whole hours from `first` to `last`, rounded toward zero.
pub fn hours_between(first: i64, last: i64) -> (h: i64)
    ensures
        h == hours_from(first as int, last as int),
{
    let d: i128 = last as i128 - first as i128;
    let h: i128 = if d >= 0 {
        d / 3600
    } else {
        -((-d) / 3600)
    };
    h as i64
}

/// The least of the numbers on some lines is one of them, and none of them
/// is less.
pub proof fn lemma_earliest_is_least(ls: Seq<Seq<char>>)
    requires
        ls.len() > 0,
    ensures
        forall|i: int| 0 <= i < ls.len() ==> earliest(ls) <= time_on(#[trigger] ls[i]),
        exists|i: int| 0 <= i < ls.len() && earliest(ls) == time_on(#[trigger] ls[i]),
    decreases ls.len(),
{
    if ls.len() == 1 {
        assert(earliest(ls) == time_on(ls[0]));
    } else {
        let head = ls.drop_last();
        lemma_earliest_is_least(head);
        assert forall|i: int| 0 <= i < ls.len() implies earliest(ls) <= time_on(
            #[trigger] ls[i],
        ) by {
            if i < head.len() {
                assert(head[i] == ls[i]);
            }
        }
        let k = choose|i: int| 0 <= i < head.len() && earliest(head) == time_on(#[trigger] head[i]);
        assert(head[k] == ls[k]);
        if time_on(ls.last()) < earliest(head) {
            assert(earliest(ls) == time_on(ls[ls.len() - 1]));
        } else {
            assert(earliest(ls) == time_on(ls[k]));
        }
    }
}

/// Reads the answer to `FirstCommitTime`: the least of the times that it
/// lists.
pub fn read_first_commit_time(out: &CommandOutput) -> (r: Result<i64, RunError>)
    ensures
        r == first_commit_time_of(out.status, out.stdout@),
{
    let text = match read_output(out) {
        Ok(t) => t,
        Err(e) => {
            return Err(e);
        },
    };
    let all = split_lines(text.as_str());
    let ghost ls = texts(all@);
    let mut least: i64 = 0;
    let mut i: usize = 0;
    proof {
        assert(ls.take(0) =~= Seq::<Seq<char>>::empty());
    }
    while i < all.len()
        invariant
            i <= all.len(),
            ls == texts(all@),
            first_commit_time_of(out.status, out.stdout@) == (if all_times(ls) {
                Ok::<i64, RunError>(earliest(ls) as i64)
            } else {
                Err::<i64, RunError>(RunError::VcsCommand)
            }),
            all_times(ls.take(i as int)),
            least == earliest(ls.take(i as int)),
        decreases all.len() - i,
    {
        let ghost before = ls.take(i as int);
        let ghost after = ls.take(i + 1);
        proof {
            assert(after.drop_last() =~= before);
            assert(after.last() == all@[i as int]@);
        }
        match parse_i64(all[i].as_str()) {
            None => {
                proof {
                    assert(parsed_i64(ls[i as int]) is None);
                }
                return Err(RunError::VcsCommand);
            },
            Some(v) => {
                proof {
                    assert forall|k: int| 0 <= k < after.len() implies parsed_i64(
                        #[trigger] after[k],
                    ) is Some by {
                        if k < before.len() {
                            assert(after[k] == before[k]);
                        }
                    }
                }
                if i == 0 || v < least {
                    least = v;
                }
            },
        }
        i += 1;
    }
    proof {
        assert(ls.take(all@.len() as int) =~= ls);
    }
    Ok(least)
}

/// Reads the answer to `LastCommitTime`.
pub fn read_commit_time(out: &CommandOutput) -> (r: Result<i64, RunError>)
    ensures
        r == commit_time_of(out.status, out.stdout@),
{
    let text = match read_output(out) {
        Ok(t) => t,
        Err(e) => {
            return Err(e);
        },
    };
    match take_first_line(text.as_str()) {
        None => Ok(0),
        Some(line) => match parse_i64(line.as_str()) {
            Some(v) => Ok(v),
            None => Err(RunError::VcsCommand),
        },
    }
}

/// Reads the answer to `CommitCount`.
pub fn read_commit_count(out: &CommandOutput) -> (r: Result<u64, RunError>)
    ensures
        r == commit_count_of(out.status, out.stdout@),
{
    let text = match read_trimmed(out) {
        Ok(t) => t,
        Err(e) => {
            return Err(e);
        },
    };
    match parse_i64(text.as_str()) {
        Some(v) => if v >= 0 {
            Ok(v as u64)
        } else {
            Err(RunError::VcsCommand)
        },
        None => Err(RunError::VcsCommand),
    }
}

impl RepoStats {
    /// The number of changed files: what code velocity divides by the hours.
    pub fn velocity_numerator(&self) -> (n: usize)
        ensures
            n == self@.velocity_numerator(),
    {
        self.changed_files
    }

    /// The number of hours by which the changed files are divided: never
    /// less than one, and exactly one where the duration is zero or negative.
    pub fn velocity_denominator(&self) -> (d: i64)
        ensures
            d == self@.velocity_denominator(),
            d >= 1,
            self.duration_hours <= 0 ==> d == 1,
            self.duration_hours > 0 ==> d == self.duration_hours,
    {
        if self.duration_hours > 0 {
            self.duration_hours
        } else {
            1
        }
    }
}

/// Reads the figures out of the answers to `FirstCommitTime`,
/// `LastCommitTime`, `CommitCount` and `Contributors`.
pub fn read_stats(
    first: &CommandOutput,
    last: &CommandOutput,
    count: &CommandOutput,
    contributors: &CommandOutput,
    changed_files: usize,
) -> (r: Result<RepoStats, RunError>)
    ensures
        match r {
            Ok(stats) => stats_of(*first, *last, *count, *contributors, changed_files as nat)
                == Ok::<StatsView, RunError>(stats@),
            Err(e) => stats_of(*first, *last, *count, *contributors, changed_files as nat)
                == Err::<StatsView, RunError>(e),
        },
{
    let f = match read_first_commit_time(first) {
        Ok(v) => v,
        Err(e) => {
            return Err(e);
        },
    };
    let l = match read_commit_time(last) {
        Ok(v) => v,
        Err(e) => {
            return Err(e);
        },
    };
    let c = match read_commit_count(count) {
        Ok(v) => v,
        Err(e) => {
            return Err(e);
        },
    };
    let names = match read_trimmed(contributors) {
        Ok(v) => v,
        Err(e) => {
            return Err(e);
        },
    };
    Ok(
        RepoStats {
            duration_hours: hours_between(f, l),
            commit_count: c,
            contributors: names,
            changed_files,
        },
    )
}

/// Code velocity is a quotient of a number that is not negative by a number
/// that is at least one, so it is finite and not negative; where the duration
/// is zero or negative the divisor is exactly one.
pub proof fn lemma_velocity_well_defined(stats: StatsView)
    ensures
        stats.velocity_numerator() >= 0,
        stats.velocity_denominator() >= 1,
        stats.duration_hours <= 0 ==> stats.velocity_denominator() == 1,
        stats.duration_hours > 0 ==> stats.velocity_denominator() == stats.duration_hours,
{
}

/// Whenever the four answers can be read, the figures are owed, and their
/// code velocity is a quotient of a number that is not negative by a number
/// that is at least one: exactly one where the duration is zero or negative.
/// Reading the commit count is a condition of its own: an answer such as
/// `many` leaves no figures.
pub proof fn lemma_stats_are_owed(
    first: CommandOutput,
    last: CommandOutput,
    count: CommandOutput,
    contributors: CommandOutput,
    changed_files: nat,
)
    requires
        first_commit_time_of(first.status, first.stdout@) is Ok,
        commit_time_of(last.status, last.stdout@) is Ok,
        commit_count_of(count.status, count.stdout@) is Ok,
        trimmed_answer(contributors.status, contributors.stdout@) is Ok,
    ensures
        stats_of(first, last, count, contributors, changed_files) matches Ok(stats) && {
            &&& stats.changed_files == changed_files
            &&& stats.velocity_numerator() == changed_files
            &&& stats.velocity_denominator() >= 1
            &&& stats.duration_hours <= 0 ==> stats.velocity_denominator() == 1
            &&& stats.duration_hours > 0 ==> stats.velocity_denominator() == stats.duration_hours
        },
{
}

/// Commits made at the same second are zero hours apart, whatever the second.
pub proof fn lemma_same_time_is_zero_hours(t: int)
    ensures
        hours_from(t, t) == 0,
        denominator_for(hours_from(t, t)) == 1,
{
}

} // verus!
