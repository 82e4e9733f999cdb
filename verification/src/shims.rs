//! Shim publication: the per-platform entrypoint names, the ordered link
//! strategies, and a model of the shims directory under publication.
//!
//! A shim is a file in the shared shims directory that redirects to the
//! managing executable.  Publishing removes whatever sat at the path and
//! links the current executable there, trying the platform's strategies in
//! order; it fails only when every strategy fails.

use vstd::prelude::*;
use vstd::string::StringExecFns;

verus! {

/// The host platform, identified at startup.
#[derive(Clone, Copy, Debug, PartialEq, Eq, Structural)]
pub enum Platform {
    Linux,
    Mac,
    Windows,
}

/// A way to create a shim file pointing at the managing executable.
#[derive(Clone, Copy, Debug, PartialEq, Eq, Structural)]
pub enum LinkStrategy {
    Symlink,
    HardLink,
}

/// One filesystem step of publishing a single shim.
#[derive(Clone, Copy, Debug, PartialEq, Eq, Structural)]
pub enum ShimAction {
    /// Remove whatever file sits at the shim path, treating "not found"
    /// as success.
    RemoveExisting,
    /// Attempt to create the shim with this strategy.
    Link(LinkStrategy),
}

/// The two entrypoint names for the platform.
pub open spec fn shim_names_spec(platform: Platform) -> Seq<Seq<char>> {
    match platform {
        Platform::Windows => seq!["python.exe"@, "pythonw.exe"@],
        _ => seq!["python"@, "python3"@],
    }
}

/// The entrypoint names to publish on `platform`: a primary name and an
/// aliased one.
pub fn shim_names(platform: Platform) -> (r: Vec<String>)
    ensures
        r@.map_values(|s: String| s@) =~= shim_names_spec(platform),
{
    let mut out: Vec<String> = Vec::new();
    match platform {
        Platform::Windows => {
            out.push(String::from_str("python.exe"));
            out.push(String::from_str("pythonw.exe"));
        },
        _ => {
            out.push(String::from_str("python"));
            out.push(String::from_str("python3"));
        },
    }
    out
}

/// The ordered link strategies for `platform`.
pub open spec fn link_strategies_spec(platform: Platform) -> Seq<LinkStrategy> {
    match platform {
        Platform::Linux => seq![LinkStrategy::HardLink, LinkStrategy::Symlink],
        _ => seq![LinkStrategy::Symlink, LinkStrategy::HardLink],
    }
}

/// The link strategies to try, in order.  This ordering is policy, not an
/// API guarantee: symbolic links are preferred where their creation is
/// unprivileged, while on Linux a hard link has proven the more reliable
/// first try; every platform keeps the other strategy as fallback.
pub fn link_strategies(platform: Platform) -> (r: Vec<LinkStrategy>)
    ensures
        r@ =~= link_strategies_spec(platform),
        r@.len() > 0,
{
    let mut out: Vec<LinkStrategy> = Vec::new();
    match platform {
        Platform::Linux => {
            out.push(LinkStrategy::HardLink);
            out.push(LinkStrategy::Symlink);
        },
        _ => {
            out.push(LinkStrategy::Symlink);
            out.push(LinkStrategy::HardLink);
        },
    }
    out
}

/// The steps for one shim: first the unconditional removal of whatever is
/// at the path, then the link attempts in strategy order.
pub fn shim_steps(platform: Platform) -> (r: Vec<ShimAction>)
    ensures
        r@ =~= seq![ShimAction::RemoveExisting] + link_strategies_spec(platform).map_values(
            |s: LinkStrategy| ShimAction::Link(s),
        ),
{
    let strategies = link_strategies(platform);
    let mut out: Vec<ShimAction> = Vec::new();
    out.push(ShimAction::RemoveExisting);
    let n = strategies.len();
    let mut i: usize = 0;
    while i < n
        invariant
            0 <= i <= n,
            n == strategies@.len(),
            strategies@ =~= link_strategies_spec(platform),
            out@ =~= seq![ShimAction::RemoveExisting] + strategies@.subrange(
                0,
                i as int,
            ).map_values(|s: LinkStrategy| ShimAction::Link(s)),
        decreases n - i,
    {
        out.push(ShimAction::Link(strategies[i]));
        proof {
            assert(strategies@.subrange(0, i + 1).drop_last() =~= strategies@.subrange(
                0,
                i as int,
            ));
            assert(out@ =~= seq![ShimAction::RemoveExisting] + strategies@.subrange(
                0,
                i + 1,
            ).map_values(|s: LinkStrategy| ShimAction::Link(s)));
        }
        i = i + 1;
    }
    proof {
        assert(strategies@.subrange(0, n as int) =~= strategies@);
    }
    out
}

/// What to do after one link attempt for a shim.
#[derive(Clone, Copy, Debug, PartialEq, Eq, Structural)]
pub enum LinkDecision {
    /// The attempt succeeded; the shim now resolves to the executable.
    Published,
    /// The attempt failed; try the strategy at this index next.
    TryNext { next: usize },
    /// Every strategy failed: shim publication has failed.
    GiveUp,
}

/// Decides how publication of one shim goes on after the attempt with
/// strategy `idx` reported `succeeded`: success publishes the shim, a
/// failure moves to the next strategy, and a failure of the last strategy
/// gives up.
pub fn link_fallback_decision(strategies: &Vec<LinkStrategy>, idx: usize, succeeded: bool) -> (r:
    LinkDecision)
    requires
        idx < strategies@.len(),
    ensures
        succeeded ==> r == LinkDecision::Published,
        !succeeded && idx + 1 < strategies@.len() ==> r == (LinkDecision::TryNext {
            next: (idx + 1) as usize,
        }),
        !succeeded && idx + 1 >= strategies@.len() ==> r == LinkDecision::GiveUp,
{
    if succeeded {
        LinkDecision::Published
    } else if idx < strategies.len() - 1 {
        LinkDecision::TryNext { next: idx + 1 }
    } else {
        LinkDecision::GiveUp
    }
}

/// Judges the publication of one shim: it fails, with the publication
/// error, exactly when every fallback strategy has failed.
pub fn shim_publish_result(decision: LinkDecision) -> (r: Result<(), crate::BootstrapError>)
    ensures
        r is Ok <==> decision != LinkDecision::GiveUp,
        r is Err ==> r->Err_0 is ShimPublishFailed,
{
    if decision == LinkDecision::GiveUp {
        Err(crate::BootstrapError::ShimPublishFailed)
    } else {
        Ok(())
    }
}

/// A model of the shims directory: each entry maps a shim name to the
/// path of the executable it resolves to.  Names are unique.
pub struct ShimSet {
    pub entries: Vec<(String, String)>,
}

/// The map an entry list denotes, later entries overriding earlier ones.
pub open spec fn shim_map(entries: Seq<(String, String)>) -> Map<Seq<char>, Seq<char>>
    decreases entries.len(),
{
    if entries.len() == 0 {
        Map::empty()
    } else {
        shim_map(entries.drop_last()).insert(entries.last().0@, entries.last().1@)
    }
}

/// Publication of each name in turn: afterwards every published name
/// resolves to `exe`, and nothing else changed.
pub open spec fn publish_map(
    m: Map<Seq<char>, Seq<char>>,
    names: Seq<Seq<char>>,
    exe: Seq<char>,
) -> Map<Seq<char>, Seq<char>>
    decreases names.len(),
{
    if names.len() == 0 {
        m
    } else {
        publish_map(m, names.drop_last(), exe).insert(names.last(), exe)
    }
}

impl ShimSet {
    /// Entry names are pairwise distinct.
    pub open spec fn wf(self) -> bool {
        forall|i: int, j: int|
            0 <= i < j < self.entries@.len() ==> (#[trigger] self.entries@[i]).0@ != (
            #[trigger] self.entries@[j]).0@
    }

    /// The name-to-target map this set denotes.
    pub open spec fn as_map(self) -> Map<Seq<char>, Seq<char>> {
        shim_map(self.entries@)
    }

    /// An empty shims directory.
    pub fn new() -> (r: ShimSet)
        ensures
            r.wf(),
            r.as_map() == Map::<Seq<char>, Seq<char>>::empty(),
    {
        ShimSet { entries: Vec::new() }
    }

    /// Publishes one shim: whatever `name` resolved to before, it
    /// resolves to `exe` afterwards; all other entries are untouched.
    pub fn publish_one(&mut self, name: &String, exe: &String)
        requires
            old(self).wf(),
        ensures
            final(self).wf(),
            final(self).as_map() == old(self).as_map().insert(name@, exe@),
    {
        let n = self.entries.len();
        let mut i: usize = 0;
        while i < n
            invariant
                0 <= i <= n,
                n == self.entries@.len(),
                self.entries@ == old(self).entries@,
                self.wf(),
                forall|j: int| 0 <= j < i ==> (#[trigger] self.entries@[j]).0@ != name@,
        decreases n - i,
        {
            if self.entries[i].0 == *name {
                let ghost prev = self.entries@;
                self.entries[i] = (name.clone(), exe.clone());
                proof {
                    assert(self.entries@ =~= prev.update(i as int, (*name, *exe)));
                    lemma_shim_map_update(prev, i as int, (*name, *exe));
                }
                return ;
            }
            i = i + 1;
        }
        let ghost prev = self.entries@;
        self.entries.push((name.clone(), exe.clone()));
        proof {
            assert(self.entries@.drop_last() =~= prev);
            assert(self.entries@.last() == (*name, *exe));
        }
    }

    /// Publishes every name in `names`, in order.
    pub fn publish_all(&mut self, names: &Vec<String>, exe: &String)
        requires
            old(self).wf(),
        ensures
            final(self).wf(),
            final(self).as_map() == publish_map(
                old(self).as_map(),
                names@.map_values(|s: String| s@),
                exe@,
            ),
    {
        let n = names.len();
        let mut i: usize = 0;
        while i < n
            invariant
                0 <= i <= n,
                n == names@.len(),
                self.wf(),
                self.as_map() == publish_map(
                    old(self).as_map(),
                    names@.map_values(|s: String| s@).subrange(0, i as int),
                    exe@,
                ),
        decreases n - i,
        {
            self.publish_one(&names[i], exe);
            proof {
                let m = names@.map_values(|s: String| s@);
                assert(m.subrange(0, i + 1).drop_last() =~= m.subrange(0, i as int));
                assert(m.subrange(0, i + 1).last() == names@[i as int]@);
            }
            i = i + 1;
        }
        proof {
            let m = names@.map_values(|s: String| s@);
            assert(m.subrange(0, n as int) =~= m);
        }
    }
}

/// Replacing the entry at `i` with one of the same name denotes the same
/// map as inserting that name, provided names are distinct.
proof fn lemma_shim_map_update(entries: Seq<(String, String)>, i: int, p: (String, String))
    requires
        0 <= i < entries.len(),
        entries[i].0@ == p.0@,
        forall|a: int, b: int|
            0 <= a < b < entries.len() ==> (#[trigger] entries[a]).0@ != (#[trigger] entries[b]).0@,
    ensures
        shim_map(entries.update(i, p)) == shim_map(entries).insert(p.0@, p.1@),
    decreases entries.len(),
{
    let u = entries.update(i, p);
    if i == entries.len() - 1 {
        assert(u.drop_last() =~= entries.drop_last());
        assert(u.last() == p);
        assert(shim_map(entries).insert(p.0@, p.1@) =~= shim_map(entries.drop_last()).insert(
            entries[i].0@,
            entries[i].1@,
        ).insert(p.0@, p.1@));
        assert(shim_map(u) =~= shim_map(entries).insert(p.0@, p.1@));
    } else {
        let last = entries.last();
        assert(u.drop_last() =~= entries.drop_last().update(i, p));
        assert(u.last() == last);
        lemma_shim_map_update(entries.drop_last(), i, p);
        assert(entries.drop_last()[i] == entries[i]);
        // the replaced name differs from the last entry's name, so the
        // two inserts commute
        assert(entries[i].0@ != last.0@);
        assert(shim_map(u) =~= shim_map(entries.drop_last()).insert(p.0@, p.1@).insert(
            last.0@,
            last.1@,
        ));
        assert(shim_map(entries.drop_last()).insert(p.0@, p.1@).insert(last.0@, last.1@)
            =~= shim_map(entries.drop_last()).insert(last.0@, last.1@).insert(p.0@, p.1@));
    }
}

/// What `publish_map` does pointwise: a published name resolves to the
/// executable, any other key keeps its old target, and no key disappears.
pub proof fn lemma_publish_map_value(
    m: Map<Seq<char>, Seq<char>>,
    names: Seq<Seq<char>>,
    exe: Seq<char>,
    k: Seq<char>,
)
    ensures
        publish_map(m, names, exe).contains_key(k) <==> m.contains_key(k) || names.contains(k),
        names.contains(k) ==> publish_map(m, names, exe)[k] == exe,
        !names.contains(k) && m.contains_key(k) ==> publish_map(m, names, exe)[k] == m[k],
    decreases names.len(),
{
    if names.len() > 0 {
        lemma_publish_map_value(m, names.drop_last(), exe, k);
        if names.contains(k) && k != names.last() {
            let j = choose|j: int| 0 <= j < names.len() && names[j] == k;
            assert(names.drop_last()[j] == k);
            assert(names.drop_last().contains(k));
        }
        if names.drop_last().contains(k) {
            assert(names.contains(k));
        }
    }
}

/// Publishing the same names to the same executable twice yields the same
/// shim set as publishing them once: every entry still resolves to the
/// executable and no stale target survives.
pub proof fn lemma_publish_idempotent(
    m: Map<Seq<char>, Seq<char>>,
    names: Seq<Seq<char>>,
    exe: Seq<char>,
)
    ensures
        publish_map(publish_map(m, names, exe), names, exe) == publish_map(m, names, exe),
{
    let once = publish_map(m, names, exe);
    let twice = publish_map(once, names, exe);
    assert forall|k: Seq<char>| twice.contains_key(k) <==> once.contains_key(k) by {
        lemma_publish_map_value(m, names, exe, k);
        lemma_publish_map_value(once, names, exe, k);
    }
    assert forall|k: Seq<char>| #[trigger] twice.contains_key(k) implies twice[k] == once[k] by {
        lemma_publish_map_value(m, names, exe, k);
        lemma_publish_map_value(once, names, exe, k);
    }
    assert(twice =~= once);
}

} // verus!
