//! Per-session indirection paths: a fresh symlink name for each shell session,
//! and the decisions of the search for a name that is not taken yet.
use crate::text::{decimal, decimal_string, is_digit, join, join_path, lemma_decimal_digits, lemma_decimal_injective};
use vstd::prelude::*;

verus! {

/// The file name of a session's symlink, from the process id and the time in
/// milliseconds since the Unix epoch.
pub open spec fn symlink_name(pid: nat, millis: nat) -> Seq<char> {
    "fnm_multishell_"@ + decimal(pid) + "_"@ + decimal(millis)
}

/// The full path of a session's symlink under the temporary directory `root`.
pub open spec fn symlink_path(root: Seq<char>, pid: nat, millis: nat) -> Seq<char> {
    join_path(root, symlink_name(pid, millis))
}

/// The path of the symlink for process `pid` at time `millis`, under `root`.
pub fn symlink_path_for(root: &str, pid: u32, millis: u64) -> (r: String)
    ensures
        r@ == symlink_path(root@, pid as nat, millis as nat),
{
    let mut name = String::from_str("fnm_multishell_");
    let p = decimal_string(pid as u64);
    name.append(p.as_str());
    name.append("_");
    let m = decimal_string(millis);
    name.append(m.as_str());
    join(root, name.as_str())
}

/// Relies on chrono::Utc::now and DateTime::timestamp_millis: the current
/// time in milliseconds since the Unix epoch. `Utc::now` does not return
/// for a clock set before the epoch, so the value is never negative.
#[verifier::external_body]
fn now_millis() -> (r: i64)
    ensures
        r >= 0,
{
    chrono::Utc::now().timestamp_millis()
}

/// A candidate symlink path for process `pid` under `root`, stamped with the
/// current time.
pub fn generate_symlink_path(root: &str, pid: u32) -> (r: String)
    ensures
        exists|millis: nat| r@ == symlink_path(root@, pid as nat, millis),
{
    let millis = now_millis();
    let r = symlink_path_for(root, pid, millis as u64);
    assert(r@ == symlink_path(root@, pid as nat, millis as u64 as nat));
    r
}

/// The directory to put on the search path: the session path itself on
/// Windows, its `bin` child elsewhere.
pub open spec fn binary_dir_of(multishell_path: Seq<char>, windows: bool) -> Seq<char> {
    if windows {
        multishell_path
    } else {
        join_path(multishell_path, "bin"@)
    }
}

/// The directory of a session's executables.
pub fn binary_dir(multishell_path: &str, windows: bool) -> (r: String)
    ensures
        r@ == binary_dir_of(multishell_path@, windows),
{
    if windows {
        String::from_str(multishell_path)
    } else {
        join(multishell_path, "bin")
    }
}

proof fn lemma_split_at_mark(a: Seq<char>, b: Seq<char>, c: Seq<char>, d: Seq<char>, u: char)
    requires
        !a.contains(u),
        !c.contains(u),
        a + seq![u] + b == c + seq![u] + d,
    ensures
        a == c,
        b == d,
{
    let l = a + seq![u] + b;
    let m = c + seq![u] + d;
    if a.len() < c.len() {
        assert(l[a.len() as int] == u);
        assert(m[a.len() as int] == c[a.len() as int]);
        assert(c.contains(c[a.len() as int]));
    } else if c.len() < a.len() {
        assert(m[c.len() as int] == u);
        assert(l[c.len() as int] == a[c.len() as int]);
        assert(a.contains(a[c.len() as int]));
    } else {
        assert(a =~= l.take(a.len() as int));
        assert(c =~= m.take(c.len() as int));
        assert(b =~= l.skip(a.len() as int + 1));
        assert(d =~= m.skip(c.len() as int + 1));
    }
}

proof fn lemma_decimal_no_underscore(n: nat)
    ensures
        !decimal(n).contains('_'),
{
    lemma_decimal_digits(n);
    if decimal(n).contains('_') {
        let i = choose|i: int| 0 <= i < decimal(n).len() && decimal(n)[i] == '_';
        assert(is_digit(decimal(n)[i]));
    }
}

/// Two sessions that differ in process id or in millisecond stamp never get
/// the same symlink path.
pub proof fn lemma_symlink_paths_distinct(root: Seq<char>, pid1: nat, millis1: nat, pid2: nat, millis2: nat)
    requires
        pid1 != pid2 || millis1 != millis2,
    ensures
        symlink_path(root, pid1, millis1) != symlink_path(root, pid2, millis2),
{
    reveal_strlit("_");
    let n1 = symlink_name(pid1, millis1);
    let n2 = symlink_name(pid2, millis2);
    if symlink_path(root, pid1, millis1) == symlink_path(root, pid2, millis2) {
        let k = (join_path(root, n1).len() - n1.len()) as int;
        assert(join_path(root, n1).skip(k) =~= n1);
        assert(join_path(root, n2).skip(k) =~= n2);
        let pre = "fnm_multishell_"@;
        assert(n1.skip(pre.len() as int) =~= decimal(pid1) + seq!['_'] + decimal(millis1));
        assert(n2.skip(pre.len() as int) =~= decimal(pid2) + seq!['_'] + decimal(millis2));
        lemma_decimal_no_underscore(pid1);
        lemma_decimal_no_underscore(pid2);
        lemma_split_at_mark(decimal(pid1), decimal(millis1), decimal(pid2), decimal(millis2), '_');
        lemma_decimal_injective(pid1, pid2);
        lemma_decimal_injective(millis1, millis2);
    }
}

/// How many taken candidates the search for a free path tolerates before it
/// gives up.
pub const MAX_SYMLINK_ATTEMPTS: u32 = 16;

/// What to do after probing a candidate path.
#[derive(Clone, Copy, Debug, PartialEq, Eq, Structural)]
pub enum SymlinkStep {
    /// The candidate is free: create the symlink there.
    Create,
    /// The candidate is taken: generate another one and probe it.
    Retry,
    /// Too many candidates were taken: fail.
    GiveUp,
}

/// The step after a probe, given how many candidates were taken before it.
pub open spec fn next_step(taken_before: nat, taken: bool) -> SymlinkStep {
    if !taken {
        SymlinkStep::Create
    } else if taken_before + 1 >= MAX_SYMLINK_ATTEMPTS {
        SymlinkStep::GiveUp
    } else {
        SymlinkStep::Retry
    }
}

/// How a search that has seen `taken_before` taken candidates ends on the
/// given probe results, or `None` if it is still retrying when they run out.
pub open spec fn search_outcome(taken_before: nat, probes: Seq<bool>) -> Option<SymlinkStep>
    decreases probes.len(),
{
    if probes.len() == 0 {
        None
    } else if next_step(taken_before, probes[0]) == SymlinkStep::Retry {
        search_outcome(taken_before + 1, probes.skip(1))
    } else {
        Some(next_step(taken_before, probes[0]))
    }
}

/// The state of the search for a free symlink path.
#[derive(Clone, Copy, Debug)]
pub struct SymlinkSearch {
    /// How many candidates were found taken so far.
    pub taken: u32,
}

impl SymlinkSearch {
    pub open spec fn wf(&self) -> bool {
        self.taken < MAX_SYMLINK_ATTEMPTS
    }

    /// A search that has probed nothing yet.
    pub fn new() -> (r: SymlinkSearch)
        ensures
            r.taken == 0,
            r.wf(),
    {
        SymlinkSearch { taken: 0 }
    }

    /// Takes the result of probing the current candidate (whether something
    /// already exists at it) and says what to do next.
    pub fn observe(&mut self, exists: bool) -> (r: SymlinkStep)
        requires
            old(self).wf(),
        ensures
            r == next_step(old(self).taken as nat, exists),
            r == SymlinkStep::Retry ==> final(self).taken == old(self).taken + 1,
            r != SymlinkStep::Retry ==> *final(self) == *old(self),
            final(self).wf(),
    {
        if !exists {
            SymlinkStep::Create
        } else if self.taken + 1 >= MAX_SYMLINK_ATTEMPTS {
            SymlinkStep::GiveUp
        } else {
            self.taken = self.taken + 1;
            SymlinkStep::Retry
        }
    }
}

/// Searches for a symlink path under `root` at which nothing exists yet,
/// asking `is_taken` about each candidate; `None` once `MAX_SYMLINK_ATTEMPTS`
/// candidates in a row were taken.
pub fn find_free_symlink_path<E: Fn(&str) -> bool>(root: &str, pid: u32, is_taken: E) -> (r: Option<String>)
    requires
        forall|p: &str| is_taken.requires((p,)),
    ensures
        r is Some ==> exists|millis: nat| r->0@ == symlink_path(root@, pid as nat, millis),
        r is Some ==> exists|p: &str| p@ == r->0@ && is_taken.ensures((p,), false),
{
    let mut search = SymlinkSearch::new();
    loop
        invariant
            search.wf(),
            forall|p: &str| is_taken.requires((p,)),
        decreases MAX_SYMLINK_ATTEMPTS - search.taken,
    {
        let candidate = generate_symlink_path(root, pid);
        let probe = candidate.as_str();
        let taken = is_taken(probe);
        match search.observe(taken) {
            SymlinkStep::Create => {
                assert(probe@ == candidate@ && is_taken.ensures((probe,), false));
                return Some(candidate);
            },
            SymlinkStep::Retry => {},
            SymlinkStep::GiveUp => {
                return None;
            },
        }
    }
}

proof fn lemma_search_ends_from(taken_before: nat, probes: Seq<bool>)
    requires
        taken_before < MAX_SYMLINK_ATTEMPTS,
        probes.len() + taken_before >= MAX_SYMLINK_ATTEMPTS,
    ensures
        search_outcome(taken_before, probes) is Some,
    decreases probes.len(),
{
    if next_step(taken_before, probes[0]) == SymlinkStep::Retry {
        lemma_search_ends_from(taken_before + 1, probes.skip(1));
    }
}

/// Whatever the probes report, a search ends, with a free path or by giving
/// up, by its `MAX_SYMLINK_ATTEMPTS`-th probe.
pub proof fn lemma_search_ends(probes: Seq<bool>)
    requires
        probes.len() >= MAX_SYMLINK_ATTEMPTS,
    ensures
        search_outcome(0, probes) is Some,
{
    lemma_search_ends_from(0, probes);
}

} // verus!
