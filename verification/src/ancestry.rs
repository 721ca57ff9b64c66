//! The walk up the process ancestry to the shell the program was started from.
//!
//! The walk starts at the running process and moves to the parent for as long
//! as the process it looks at is a known launcher (a terminal wrapper, the
//! build tool, this program itself). Reading a process is the caller's part:
//! [`ShellWalk`] says which process to read next, and takes what was read.

use vstd::prelude::*;
use vstd::string::*;
use vstd::utf8::*;

verus! {

/// The name reported when not even the running process can be read.
pub const DEFAULT_SHELL: &'static str = "cmd.exe";

/// What stands for an image path that is not valid UTF-8.
pub const UNREADABLE_PATH: &'static str = "Invalid Exe";

/// The extension that is dropped from the end of an image path.
pub const EXE_SUFFIX: &'static str = ".exe";

/// The character that separates the segments of an image path.
pub const PATH_SEPARATOR: char = '\\';

/// The text of an image path as the system handed it out in bytes.
pub open spec fn path_text(bytes: Seq<u8>) -> Seq<char> {
    if valid_utf8(bytes) {
        decode_utf8(bytes)
    } else {
        UNREADABLE_PATH@
    }
}

/// `path` without one trailing `.exe`, if it ends in one.
pub open spec fn without_exe_suffix(path: Seq<char>) -> Seq<char> {
    if EXE_SUFFIX@.is_suffix_of(path) {
        path.subrange(0, path.len() - EXE_SUFFIX@.len())
    } else {
        path
    }
}

/// Where the last segment of `path` begins: just behind its last separator,
/// or at 0 if it has none.
pub open spec fn segment_start(path: Seq<char>) -> int
    decreases path.len(),
{
    if path.len() == 0 {
        0
    } else if path.last() == PATH_SEPARATOR {
        path.len() as int
    } else {
        segment_start(path.drop_last())
    }
}

/// The last segment of `path`.
pub open spec fn last_segment(path: Seq<char>) -> Seq<char> {
    path.subrange(segment_start(path), path.len() as int)
}

/// The display name of the process whose image path is `path`: the extension
/// is dropped first, then everything up to the last separator.
pub open spec fn display_name(path: Seq<char>) -> Seq<char> {
    last_segment(without_exe_suffix(path))
}

/// The last segment begins at the start of the path or just behind a
/// separator, and holds no separator.
pub proof fn lemma_segment_start(path: Seq<char>)
    ensures
        0 <= segment_start(path) <= path.len(),
        segment_start(path) == 0 || path[segment_start(path) - 1] == PATH_SEPARATOR,
        forall|i: int| segment_start(path) <= i < path.len() ==> path[i] != PATH_SEPARATOR,
    decreases path.len(),
{
    if path.len() > 0 && path.last() != PATH_SEPARATOR {
        let shorter = path.drop_last();
        lemma_segment_start(shorter);
        assert(forall|i: int| 0 <= i < shorter.len() ==> shorter[i] == path[i]);
    }
}

/// No other position than `segment_start` has a separator (or the start of
/// the path) just before it and no separator from it on.
pub proof fn lemma_segment_start_is_unique(path: Seq<char>, start: int)
    requires
        0 <= start <= path.len(),
        start == 0 || path[start - 1] == PATH_SEPARATOR,
        forall|i: int| start <= i < path.len() ==> path[i] != PATH_SEPARATOR,
    ensures
        start == segment_start(path),
{
    lemma_segment_start(path);
}

/// The characters of `s`, one by one.
fn chars_of(s: &str) -> (chars: Vec<char>)
    ensures
        chars@ == s@,
{
    let mut chars: Vec<char> = Vec::new();
    for c in it: s.chars()
        invariant
            chars@ == s@.subrange(0, it.index() as int),
            it.seq() == s@,
    {
        chars.push(c);
    }
    chars
}

/// Computes the display name of the process whose image path reads `path`.
pub fn executable_name(path: &str) -> (name: String)
    ensures
        name@ == display_name(path@),
{
    proof {
        reveal_strlit(".exe");
    }
    let chars = chars_of(path);
    let n: usize = chars.len();
    let end: usize = if n >= 4 && chars[n - 4] == '.' && chars[n - 3] == 'e' && chars[n - 2] == 'x'
        && chars[n - 1] == 'e' {
        n - 4
    } else {
        n
    };
    let ghost stem = path@.subrange(0, end as int);
    assert(stem == without_exe_suffix(path@)) by {
        if n >= 4 && end == n {
            // One of the last four characters differs from the suffix.
            let tail = path@.subrange(n - 4, n as int);
            assert(tail[0] == path@[n - 4] && tail[1] == path@[n - 3] && tail[2] == path@[n - 2]
                && tail[3] == path@[n - 1]);
        }
    }
    let mut start: usize = end;
    while start > 0 && chars[start - 1] != PATH_SEPARATOR
        invariant
            start <= end <= n,
            chars@ == path@,
            n == path@.len(),
            stem == path@.subrange(0, end as int),
            forall|i: int| start <= i < end ==> stem[i] != PATH_SEPARATOR,
        decreases start,
    {
        start -= 1;
    }
    proof {
        lemma_segment_start_is_unique(stem, start as int);
    }
    path.substring_char(start, end).to_owned()
}

/// How a launcher's pattern is held against a lower-case process name.
#[derive(Clone, Copy, Debug, PartialEq, Eq)]
pub enum MatchRule {
    /// The name begins with the pattern.
    Prefix,
    /// The name is the pattern.
    Exact,
}

/// One process name that the walk passes over.
#[derive(Clone, Copy, Debug, PartialEq, Eq)]
pub struct Launcher {
    /// The name, or the beginning of it, in lower case.
    pub pattern: &'static str,
    /// How the pattern is applied.
    pub rule: MatchRule,
}

/// How many launchers are known.
pub const LAUNCHER_COUNT: usize = 3;

/// Whether `lower` meets `pattern` under `rule`.
pub open spec fn rule_matches(rule: MatchRule, pattern: Seq<char>, lower: Seq<char>) -> bool {
    match rule {
        MatchRule::Prefix => pattern.is_prefix_of(lower),
        MatchRule::Exact => lower == pattern,
    }
}

/// The known launchers, each with its rule: the terminal wrappers, whose
/// names begin with `conemu`, this program, and its build tool.
pub open spec fn launcher_table() -> Seq<(MatchRule, Seq<char>)> {
    seq![
        (MatchRule::Prefix, "conemu"@),
        (MatchRule::Exact, "microfetch"@),
        (MatchRule::Exact, "cargo"@),
    ]
}

/// Whether the lower-case name `lower` is that of a launcher: it meets an
/// entry of the table.
pub open spec fn launcher_name(lower: Seq<char>) -> bool {
    exists|i: int|
        0 <= i < launcher_table().len() && rule_matches(
            #[trigger] launcher_table()[i].0,
            launcher_table()[i].1,
            lower,
        )
}

/// A lower-case name is a launcher's exactly if it begins with `conemu`, or
/// is `microfetch` or `cargo`.
pub proof fn lemma_launcher_names(lower: Seq<char>)
    ensures
        launcher_name(lower) <==> "conemu"@.is_prefix_of(lower) || lower == "microfetch"@ || lower
            == "cargo"@,
{
    let table = launcher_table();
    if "conemu"@.is_prefix_of(lower) {
        assert(rule_matches(table[0].0, table[0].1, lower));
    }
    if lower == "microfetch"@ {
        assert(rule_matches(table[1].0, table[1].1, lower));
    }
    if lower == "cargo"@ {
        assert(rule_matches(table[2].0, table[2].1, lower));
    }
}

impl Launcher {
    /// The entry of the table that this launcher is.
    pub open spec fn entry(&self) -> (MatchRule, Seq<char>) {
        (self.rule, self.pattern@)
    }

    /// Whether this launcher is the process named `lower`.
    pub open spec fn matches(&self, lower: Seq<char>) -> bool {
        rule_matches(self.rule, self.pattern@, lower)
    }

    /// Holds the pattern against the characters of a lower-case name.
    fn is_match(&self, lower: &Vec<char>) -> (hit: bool)
        ensures
            hit == self.matches(lower@),
    {
        let pattern = chars_of(self.pattern);
        if pattern.len() > lower.len() {
            return false;
        }
        let same_length = pattern.len() == lower.len();
        let whole = match self.rule {
            MatchRule::Prefix => false,
            MatchRule::Exact => true,
        };
        if whole && !same_length {
            return false;
        }
        let mut i: usize = 0;
        while i < pattern.len()
            invariant
                i <= pattern.len() <= lower.len(),
                pattern@ == self.pattern@,
                forall|j: int| 0 <= j < i ==> pattern[j] == lower[j],
            decreases pattern.len() - i,
        {
            if pattern[i] != lower[i] {
                return false;
            }
            i += 1;
        }
        assert(pattern@ =~= lower@.subrange(0, pattern.len() as int));
        if same_length {
            assert(lower@.subrange(0, pattern.len() as int) =~= lower@);
        }
        true
    }
}

/// The table of launchers, in the order in which they are tried.
pub fn launchers() -> (table: [Launcher; 3])
    ensures
        table@.len() == launcher_table().len(),
        forall|i: int| 0 <= i < table@.len() ==> (#[trigger] table@[i]).entry() == launcher_table()[i],
{
    [
        Launcher { pattern: "conemu", rule: MatchRule::Prefix },
        Launcher { pattern: "microfetch", rule: MatchRule::Exact },
        Launcher { pattern: "cargo", rule: MatchRule::Exact },
    ]
}

/// Decides whether a name that is already in lower case is a launcher's.
pub fn is_launcher_name(lower: &str) -> (skip: bool)
    ensures
        skip == launcher_name(lower@),
{
    let chars = chars_of(lower);
    let table = launchers();
    let mut i: usize = 0;
    while i < LAUNCHER_COUNT
        invariant
            i <= LAUNCHER_COUNT == table@.len() == launcher_table().len(),
            chars@ == lower@,
            forall|j: int| 0 <= j < table@.len() ==> (#[trigger] table@[j]).entry() == launcher_table()[j],
            forall|j: int|
                0 <= j < i ==> !rule_matches(
                    #[trigger] launcher_table()[j].0,
                    launcher_table()[j].1,
                    lower@,
                ),
        decreases LAUNCHER_COUNT - i,
    {
        if table[i].is_match(&chars) {
            assert(rule_matches(
                launcher_table()[i as int].0,
                launcher_table()[i as int].1,
                lower@,
            ));
            return true;
        }
        i += 1;
    }
    false
}

/// The lower-case form of a text, as `str::to_lowercase` gives it.
pub uninterp spec fn lowercase(text: Seq<char>) -> Seq<char>;

/// Whether the walk passes over a process with this display name.
pub open spec fn skipped(name: Seq<char>) -> bool {
    launcher_name(lowercase(name))
}

/// `str::to_lowercase` of the standard library. Nothing is proved of it: the
/// result is only given the name `lowercase`, a function of the characters
/// of `name` alone.
#[verifier::external_body]
fn to_lowercase(name: &str) -> (lower: String)
    ensures
        lower@ == lowercase(name@),
{
    name.to_lowercase()
}

/// Decides whether the walk passes over a process with this display name.
pub fn is_skipped(name: &str) -> (skip: bool)
    ensures
        skip == skipped(name@),
{
    let lower = to_lowercase(name);
    is_launcher_name(lower.as_str())
}

/// `std::str::from_utf8` of the standard library. Believed of it: it accepts
/// exactly the byte strings that are valid UTF-8, and the text it hands out
/// is made of the very bytes it was given.
#[verifier::external_body]
fn utf8_text(bytes: &[u8]) -> (text: Option<&str>)
    ensures
        text is Some <==> valid_utf8(bytes@),
        text matches Some(s) ==> s.spec_bytes() == bytes@,
{
    std::str::from_utf8(bytes).ok()
}

/// Computes the display name of the process whose image path the system
/// handed out as `image_path`.
pub fn process_name(image_path: &[u8]) -> (name: String)
    ensures
        name@ == display_name(path_text(image_path@)),
{
    match utf8_text(image_path) {
        Some(text) => {
            proof {
                encode_utf8_decode_utf8(text@);
            }
            executable_name(text)
        },
        None => executable_name(UNREADABLE_PATH),
    }
}

/// A process that the caller is asked to read.
#[derive(Clone, Copy, Debug, PartialEq, Eq, Structural)]
pub enum Target {
    /// The running process itself.
    Current,
    /// The process with this identifier.
    Process(u32),
}

/// What reading one process gave.
#[derive(Clone, Debug, PartialEq, Eq)]
pub struct ProcessRecord {
    /// The identifier of the parent process; `None` where it could not be
    /// read. An identifier of 0 stands for no parent.
    pub parent: Option<u32>,
    /// The full image path, in the bytes the system handed out.
    pub image_path: Vec<u8>,
}

impl ProcessRecord {
    /// The display name of the process.
    pub open spec fn name(&self) -> Seq<char> {
        display_name(path_text(self.image_path@))
    }

    /// The parent that the walk moves on to: there is one where the process
    /// is a launcher and has a parent.
    pub open spec fn next_target(&self) -> Option<Target> {
        match self.parent {
            Some(parent) => if parent != 0 && skipped(self.name()) {
                Some(Target::Process(parent))
            } else {
                None
            },
            None => None,
        }
    }
}

/// The name that the walk holds once it has seen `outcome`: that of the
/// process read, or the name it held before where the read failed.
pub open spec fn name_after(name: Seq<char>, outcome: Option<ProcessRecord>) -> Seq<char> {
    match outcome {
        Some(record) => record.name(),
        None => name,
    }
}

/// The process that the walk reads after `outcome`; `None` where it ends.
pub open spec fn target_after(outcome: Option<ProcessRecord>) -> Option<Target> {
    match outcome {
        Some(record) => record.next_target(),
        None => None,
    }
}

/// The name that a walk holding `name` ends on when its reads give `chain`,
/// one outcome after the other. A chain that runs out ends the walk as a
/// failed read does.
pub open spec fn resolved(name: Seq<char>, chain: Seq<Option<ProcessRecord>>) -> Seq<char>
    decreases chain.len(),
{
    if chain.len() == 0 {
        name
    } else if target_after(chain[0]) is Some {
        resolved(name_after(name, chain[0]), chain.drop_first())
    } else {
        name_after(name, chain[0])
    }
}

/// A walk that cannot read its first process ends on the name it began with.
pub proof fn lemma_unreadable_start(name: Seq<char>, chain: Seq<Option<ProcessRecord>>)
    requires
        chain.len() == 0 || chain[0] is None,
    ensures
        resolved(name, chain) == name,
{
}

/// A walk that reads a process which is no launcher ends on its name.
pub proof fn lemma_stops_at_shell(name: Seq<char>, chain: Seq<Option<ProcessRecord>>)
    requires
        chain.len() > 0,
        chain[0] matches Some(record) && !skipped(record.name()),
    ensures
        resolved(name, chain) == chain[0]->Some_0.name(),
{
}

/// A walk that reads a launcher with a parent goes on from the launcher's
/// name with what the reads after it give.
pub proof fn lemma_passes_over_launcher(name: Seq<char>, chain: Seq<Option<ProcessRecord>>)
    requires
        chain.len() > 0,
        chain[0] matches Some(record) && record.next_target() is Some,
    ensures
        resolved(name, chain) == resolved(chain[0]->Some_0.name(), chain.drop_first()),
{
}

/// A walk in progress: the name found so far and the process to read next.
#[derive(Clone, Debug, PartialEq, Eq)]
pub struct ShellWalk {
    /// The display name of the last process that was read, or the default.
    pub name: String,
    /// The process to read next.
    pub target: Target,
}

/// What a walk asks for after an outcome.
#[derive(Clone, Debug, PartialEq, Eq)]
pub enum WalkStep {
    /// Read the target of this walk, and hand the outcome to it.
    Query(ShellWalk),
    /// The walk has ended on this name.
    Done(String),
}

impl ShellWalk {
    /// The walk before anything was read: it asks for the running process.
    pub fn start() -> (walk: ShellWalk)
        ensures
            walk.name@ == DEFAULT_SHELL@,
            walk.target == Target::Current,
    {
        ShellWalk { name: DEFAULT_SHELL.to_owned(), target: Target::Current }
    }

    /// Takes the outcome of reading `self.target`: `None` where the process
    /// could not be opened or its image path could not be read.
    pub fn advance(self, outcome: &Option<ProcessRecord>) -> (step: WalkStep)
        ensures
            match target_after(*outcome) {
                Some(target) => {
                    &&& step matches WalkStep::Query(next)
                    &&& next.name@ == name_after(self.name@, *outcome)
                    &&& next.target == target
                },
                None => {
                    &&& step matches WalkStep::Done(name)
                    &&& name@ == name_after(self.name@, *outcome)
                },
            },
    {
        match outcome {
            None => WalkStep::Done(self.name),
            Some(record) => {
                let name = process_name(record.image_path.as_slice());
                match record.parent {
                    Some(parent) => {
                        if parent != 0 && is_skipped(name.as_str()) {
                            WalkStep::Query(ShellWalk { name, target: Target::Process(parent) })
                        } else {
                            WalkStep::Done(name)
                        }
                    },
                    None => WalkStep::Done(name),
                }
            },
        }
    }
}

} // verus!
