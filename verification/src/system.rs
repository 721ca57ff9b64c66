//! The lines on the user, the shell, the disk and the memory.

use crate::ancestry::{resolved, ProcessRecord, ShellWalk, WalkStep, DEFAULT_SHELL};
use crate::colors::Colors;
use crate::error::{text_of, QueryError};
use crate::text::{decimal, push_decimal, push_two_decimals, two_decimals};
use crate::units::{
    gib_hundredths, hundredths_of_gib, lemma_percent_at_most_100, lemma_rounding_ignores_scale,
    percent_half_even, percent_half_up, rounded_half_even, rounded_half_up,
};
use vstd::prelude::*;

verus! {

/// What stands for a user name that could not be read.
pub const INVALID_USERNAME: &'static str = "invalid_username";

/// What stands for a host name that could not be read.
pub const INVALID_HOSTNAME: &'static str = "invalid_hostname";

/// A name as it was read, or `fallback` where reading it failed.
pub open spec fn name_or(name: Option<&str>, fallback: Seq<char>) -> Seq<char> {
    match name {
        Some(name) => name@,
        None => fallback,
    }
}

/// `user@host`, each of the three in its colour.
pub open spec fn identity_text(username: Seq<char>, hostname: Seq<char>, colors: Colors) -> Seq<
    char,
> {
    colors.yellow@ + username + colors.red@ + "@"@ + colors.green@ + hostname + colors.reset@
}

/// The identity line for the two names as they were read: a name that could
/// not be read gives way to its placeholder, and to no more than that.
pub open spec fn identity_line(username: Option<&str>, hostname: Option<&str>, colors: Colors) -> Seq<
    char,
> {
    identity_text(
        name_or(username, INVALID_USERNAME@),
        name_or(hostname, INVALID_HOSTNAME@),
        colors,
    )
}

/// The identity line: `<username>@<hostname>` in colour. `None` says that a
/// name could not be read, or did not fit its buffer; its placeholder then
/// takes its place, and the other name stands as it was read.
pub fn get_username_and_hostname(
    username: Option<&str>,
    hostname: Option<&str>,
    colors: &Colors,
) -> (line: String)
    ensures
        line@ == identity_line(username, hostname, *colors),
        line@.len() > 0,
{
    let username = match username {
        Some(name) => name,
        None => INVALID_USERNAME,
    };
    let hostname = match hostname {
        Some(name) => name,
        None => INVALID_HOSTNAME,
    };
    proof {
        reveal_strlit("@");
    }
    let mut line = colors.yellow.clone();
    line.append(username);
    line.append(colors.red.as_str());
    line.append("@");
    line.append(colors.green.as_str());
    line.append(hostname);
    line.append(colors.reset.as_str());
    line
}

/// The identity line rests on the two names and the colours alone: two
/// answers to the same of them are the same line.
pub proof fn lemma_identity_repeats(
    username: Option<&str>,
    hostname: Option<&str>,
    colors: Colors,
    first: String,
    second: String,
)
    requires
        first@ == identity_line(username, hostname, colors),
        second@ == identity_line(username, hostname, colors),
    ensures
        first@ == second@,
{
}

/// The name of the shell for an ancestry: where the walk from the default
/// name ends.
pub open spec fn shell_name(ancestry: Seq<Option<ProcessRecord>>) -> Seq<char> {
    resolved(DEFAULT_SHELL@, ancestry)
}

/// The display name of the shell, from the outcomes of reading the running
/// process, its parent, and so on up, in that order: the name of the first
/// process that is no launcher. A read that failed ends the walk on the last
/// name that was read, and so does the end of `ancestry`; where not even the
/// first read gave a name, the answer is `cmd.exe`.
pub fn get_shell(ancestry: &[Option<ProcessRecord>]) -> (name: String)
    ensures
        name@ == shell_name(ancestry@),
{
    let mut walk = ShellWalk::start();
    let mut i: usize = 0;
    assert(ancestry@.subrange(0, ancestry@.len() as int) =~= ancestry@);
    while i < ancestry.len()
        invariant
            i <= ancestry.len(),
            resolved(DEFAULT_SHELL@, ancestry@) == resolved(
                walk.name@,
                ancestry@.subrange(i as int, ancestry@.len() as int),
            ),
        decreases ancestry.len() - i,
    {
        let ghost rest = ancestry@.subrange(i as int, ancestry@.len() as int);
        assert(rest.drop_first() =~= ancestry@.subrange(i + 1, ancestry@.len() as int));
        match walk.advance(&ancestry[i]) {
            WalkStep::Done(name) => {
                return name;
            },
            WalkStep::Query(next) => {
                walk = next;
            },
        }
        i += 1;
    }
    walk.name
}

/// The name of the shell rests on the ancestry alone: two answers to the
/// same ancestry are the same name.
pub proof fn lemma_shell_repeats(
    ancestry: Seq<Option<ProcessRecord>>,
    first: String,
    second: String,
)
    requires
        first@ == shell_name(ancestry),
        second@ == shell_name(ancestry),
    ensures
        first@ == second@,
{
}

/// Where the first process cannot be read, the shell is the default one.
pub proof fn lemma_shell_of_unreadable_start(ancestry: Seq<Option<ProcessRecord>>)
    requires
        ancestry.len() == 0 || ancestry[0] is None,
    ensures
        shell_name(ancestry) == DEFAULT_SHELL@,
{
}

/// A size in bytes, written in gibibytes with two decimals.
pub open spec fn gib_text(bytes: nat) -> Seq<char> {
    two_decimals(gib_hundredths(bytes))
}

/// A usage line: `<used> GiB / <total> GiB (<percent>%)`, the percentage
/// between the colour for it and the reset.
pub open spec fn usage_text(used: Seq<char>, total: Seq<char>, percent: nat, colors: Colors) -> Seq<
    char,
> {
    used + " GiB / "@ + total + " GiB ("@ + colors.cyan@ + decimal(percent) + "%"@ + colors.reset@
        + ")"@
}

/// Builds a usage line from its parts.
fn usage_line(
    negative: bool,
    used_hundredths: u128,
    total_hundredths: u128,
    percent: u128,
    colors: &Colors,
) -> (line: String)
    ensures
        line@ == usage_text(
            if negative {
                "-"@ + two_decimals(used_hundredths as nat)
            } else {
                two_decimals(used_hundredths as nat)
            },
            two_decimals(total_hundredths as nat),
            percent as nat,
            *colors,
        ),
{
    let mut line = String::new();
    if negative {
        line.append("-");
    }
    push_two_decimals(&mut line, used_hundredths);
    line.append(" GiB / ");
    push_two_decimals(&mut line, total_hundredths);
    line.append(" GiB (");
    line.append(colors.cyan.as_str());
    push_decimal(&mut line, percent);
    line.append("%");
    line.append(colors.reset.as_str());
    line.append(")");
    line
}

/// The space on a volume, in allocation units, as the system reports it.
#[derive(Clone, Copy, Debug, PartialEq, Eq)]
pub struct DiskSnapshot {
    /// The allocation units on the volume.
    pub total_units: u64,
    /// The allocation units in use.
    pub used_units: u64,
    /// The sectors in one allocation unit.
    pub sectors_per_unit: u32,
    /// The bytes in one sector.
    pub bytes_per_sector: u32,
}

impl DiskSnapshot {
    /// The size of the volume in bytes.
    pub open spec fn total_bytes(&self) -> nat {
        (self.total_units * self.sectors_per_unit * self.bytes_per_sector) as nat
    }

    /// The bytes in use.
    pub open spec fn used_bytes(&self) -> nat {
        (self.used_units * self.sectors_per_unit * self.bytes_per_sector) as nat
    }

    /// The share of the volume that is in use, in whole percent; 0 for a
    /// volume of no size.
    pub open spec fn percent(&self) -> nat {
        percent_half_even(self.used_bytes(), self.total_bytes())
    }

    /// Computes the size of the volume in bytes.
    pub fn total_size(&self) -> (bytes: u128)
        ensures
            bytes == self.total_bytes(),
    {
        self.bytes_in(self.total_units)
    }

    /// Computes the bytes in use.
    pub fn used_size(&self) -> (bytes: u128)
        ensures
            bytes == self.used_bytes(),
    {
        self.bytes_in(self.used_units)
    }

    /// Computes the size in bytes of `units` allocation units.
    fn bytes_in(&self, units: u64) -> (bytes: u128)
        ensures
            bytes == units * self.sectors_per_unit * self.bytes_per_sector,
    {
        assert(units * self.sectors_per_unit <= 0xFFFF_FFFF_FFFF_FFFF * 0xFFFF_FFFF)
            by (nonlinear_arith);
        assert(units * self.sectors_per_unit * self.bytes_per_sector <= 0xFFFF_FFFF_FFFF_FFFF
            * 0xFFFF_FFFF * 0xFFFF_FFFF) by (nonlinear_arith)
            requires
                units * self.sectors_per_unit <= 0xFFFF_FFFF_FFFF_FFFF * 0xFFFF_FFFF,
        ;
        units as u128 * self.sectors_per_unit as u128 * self.bytes_per_sector as u128
    }

    /// Computes the share of the volume that is in use.
    pub fn percent_used(&self) -> (percent: u128)
        ensures
            percent == self.percent(),
    {
        if self.total_units == 0 || self.sectors_per_unit == 0 || self.bytes_per_sector == 0 {
            assert(self.total_units * self.sectors_per_unit * self.bytes_per_sector == 0)
                by (nonlinear_arith)
                requires
                    self.total_units == 0 || self.sectors_per_unit == 0 || self.bytes_per_sector
                        == 0,
            ;
            0
        } else {
            proof {
                let k = (self.sectors_per_unit * self.bytes_per_sector) as nat;
                assert(k > 0) by (nonlinear_arith)
                    requires
                        k == self.sectors_per_unit * self.bytes_per_sector,
                        self.sectors_per_unit > 0,
                        self.bytes_per_sector > 0,
                ;
                assert(100 * self.used_bytes() == (100 * self.used_units) * k
                    && self.total_bytes() == self.total_units * k) by (nonlinear_arith)
                    requires
                        k == self.sectors_per_unit * self.bytes_per_sector,
                        self.used_bytes() == self.used_units * self.sectors_per_unit
                            * self.bytes_per_sector,
                        self.total_bytes() == self.total_units * self.sectors_per_unit
                            * self.bytes_per_sector,
                ;
                assert(self.total_units * k > 0) by (nonlinear_arith)
                    requires
                        self.total_units > 0,
                        k > 0,
                ;
                lemma_rounding_ignores_scale(
                    (100 * self.used_units) as nat,
                    self.total_units as nat,
                    k,
                );
            }
            rounded_half_even(100 * (self.used_units as u128), self.total_units as u128)
        }
    }
}

/// A volume that holds no more than its size is between 0 and 100 percent
/// full, and a volume of no size is 0 percent full.
pub proof fn lemma_disk_percent_in_range(snapshot: DiskSnapshot)
    ensures
        snapshot.used_bytes() <= snapshot.total_bytes() ==> 0 <= snapshot.percent() <= 100,
        snapshot.used_units <= snapshot.total_units ==> snapshot.used_bytes()
            <= snapshot.total_bytes(),
        snapshot.total_bytes() == 0 ==> snapshot.percent() == 0,
{
    if snapshot.used_bytes() <= snapshot.total_bytes() {
        lemma_percent_at_most_100(snapshot.used_bytes(), snapshot.total_bytes());
    }
    if snapshot.used_units <= snapshot.total_units {
        assert(snapshot.used_units * snapshot.sectors_per_unit * snapshot.bytes_per_sector
            <= snapshot.total_units * snapshot.sectors_per_unit * snapshot.bytes_per_sector)
            by (nonlinear_arith)
            requires
                snapshot.used_units <= snapshot.total_units,
        ;
    }
}

/// The disk line for a snapshot.
pub open spec fn disk_usage_text(snapshot: DiskSnapshot, colors: Colors) -> Seq<char> {
    usage_text(
        gib_text(snapshot.used_bytes()),
        gib_text(snapshot.total_bytes()),
        snapshot.percent(),
        colors,
    )
}

/// The disk line for the outcome of the query: the line for the snapshot, or
/// the error of the query.
pub open spec fn disk_usage_line(snapshot: Result<DiskSnapshot, QueryError>, colors: Colors) -> Result<
    Seq<char>,
    QueryError,
> {
    match snapshot {
        Ok(disk) => Ok(disk_usage_text(disk, colors)),
        Err(error) => Err(error),
    }
}

/// The disk line: `<used> GiB / <total> GiB (<percent>%)` for the snapshot of
/// the root volume, sizes to two decimals and the percentage to none, each
/// rounded to the nearest value and a tie to the even one. A volume of no
/// size is 0 percent full. Where the query for the snapshot failed, its error
/// is handed on.
pub fn get_root_disk_usage(snapshot: Result<DiskSnapshot, QueryError>, colors: &Colors) -> (line:
    Result<String, QueryError>)
    ensures
        text_of(line) == disk_usage_line(snapshot, *colors),
{
    let disk = match snapshot {
        Ok(disk) => disk,
        Err(error) => {
            return Err(error);
        },
    };
    let used: u128 = hundredths_of_gib(disk.used_size());
    let total: u128 = hundredths_of_gib(disk.total_size());
    Ok(usage_line(false, used, total, disk.percent_used(), colors))
}

/// The disk line rests on the outcome of the query and the colours alone:
/// two answers to the same of them are the same line, or the same error.
pub proof fn lemma_disk_usage_repeats(
    snapshot: Result<DiskSnapshot, QueryError>,
    colors: Colors,
    first: Result<String, QueryError>,
    second: Result<String, QueryError>,
)
    requires
        text_of(first) == disk_usage_line(snapshot, colors),
        text_of(second) == disk_usage_line(snapshot, colors),
    ensures
        text_of(first) == text_of(second),
        first is Ok <==> snapshot is Ok,
{
}

/// The physical memory, in bytes, as the system reports it.
#[derive(Clone, Copy, Debug, PartialEq, Eq)]
pub struct MemorySnapshot {
    /// The memory installed.
    pub total: u64,
    /// The memory that is free to use.
    pub available: u64,
}

impl MemorySnapshot {
    /// The bytes in use: what is installed less what is available.
    pub open spec fn used(&self) -> int {
        self.total - self.available
    }

    /// The share of the memory that is in use, in whole percent; 0 where
    /// nothing is installed or nothing is in use.
    pub open spec fn percent(&self) -> nat {
        percent_half_up(self.used(), self.total as nat)
    }

    /// Computes the share of the memory that is in use.
    pub fn percent_used(&self) -> (percent: u128)
        ensures
            percent == self.percent(),
            percent <= 100,
    {
        if self.total == 0 || self.available >= self.total {
            0
        } else {
            let used: u64 = self.total - self.available;
            proof {
                lemma_percent_at_most_100(used as nat, self.total as nat);
            }
            rounded_half_up(100 * (used as u128), self.total as u128)
        }
    }
}

/// A size in bytes that may be negative, in gibibytes with two decimals.
pub open spec fn signed_gib_text(bytes: int) -> Seq<char> {
    if bytes < 0 {
        "-"@ + gib_text((-bytes) as nat)
    } else {
        gib_text(bytes as nat)
    }
}

/// The memory line for a snapshot.
pub open spec fn memory_usage_text(snapshot: MemorySnapshot, colors: Colors) -> Seq<char> {
    usage_text(
        signed_gib_text(snapshot.used()),
        gib_text(snapshot.total as nat),
        snapshot.percent(),
        colors,
    )
}

/// The memory line for the outcome of the query: the line for the snapshot,
/// or the error of the query.
pub open spec fn memory_usage_line(
    snapshot: Result<MemorySnapshot, QueryError>,
    colors: Colors,
) -> Result<Seq<char>, QueryError> {
    match snapshot {
        Ok(memory) => Ok(memory_usage_text(memory, colors)),
        Err(error) => Err(error),
    }
}

/// The memory line: `<used> GiB / <total> GiB (<percent>%)`, sizes to two
/// decimals, a tie rounded to the even one, and the percentage rounded to the
/// nearest whole number, a tie upwards. Where nothing is installed the
/// percentage is 0. Where more is reported available than installed, the used
/// size is negative and the percentage 0. Where the query for the snapshot
/// failed, its error is handed on.
pub fn get_memory_usage(snapshot: Result<MemorySnapshot, QueryError>, colors: &Colors) -> (line:
    Result<String, QueryError>)
    ensures
        text_of(line) == memory_usage_line(snapshot, *colors),
{
    let memory = match snapshot {
        Ok(memory) => memory,
        Err(error) => {
            return Err(error);
        },
    };
    let negative = memory.available > memory.total;
    let used: u64 = if negative {
        memory.available - memory.total
    } else {
        memory.total - memory.available
    };
    let used: u128 = hundredths_of_gib(used as u128);
    let total: u128 = hundredths_of_gib(memory.total as u128);
    Ok(usage_line(negative, used, total, memory.percent_used(), colors))
}

/// The memory line rests on the outcome of the query and the colours alone:
/// two answers to the same of them are the same line, or the same error.
pub proof fn lemma_memory_usage_repeats(
    snapshot: Result<MemorySnapshot, QueryError>,
    colors: Colors,
    first: Result<String, QueryError>,
    second: Result<String, QueryError>,
)
    requires
        text_of(first) == memory_usage_line(snapshot, colors),
        text_of(second) == memory_usage_line(snapshot, colors),
    ensures
        text_of(first) == text_of(second),
        first is Ok <==> snapshot is Ok,
{
}

/// The memory in use is between 0 and 100 percent of what is installed.
pub proof fn lemma_memory_percent_in_range(snapshot: MemorySnapshot)
    ensures
        0 <= snapshot.percent() <= 100,
        snapshot.total == 0 ==> snapshot.percent() == 0,
{
    if 0 < snapshot.used() && snapshot.total > 0 {
        lemma_percent_at_most_100(snapshot.used() as nat, snapshot.total as nat);
    }
}

} // verus!
