use vstd::prelude::*;

verus! {

/// A persistent entity identifier: stable across entity recreation and
/// network round trips, as opposed to a transient in-process handle. The
/// world mirror owns the mapping from these to live entities; the embedding
/// reads that mapping under the world lock and hands the library the set of
/// identifiers that currently resolve.
#[derive(Clone, Copy, Debug, PartialEq, Eq, Structural)]
pub struct EntityUid(pub u64);

/// The resolved targets for `selection` against the identifiers `live` that
/// currently resolve to an existing entity: the selection filtered to live
/// identifiers, in selection order, each duplicate kept only at its first
/// occurrence.
pub open spec fn spec_resolved(selection: Seq<EntityUid>, live: Seq<EntityUid>) -> Seq<EntityUid>
    decreases selection.len(),
{
    if selection.len() == 0 {
        Seq::empty()
    } else {
        let prefix = selection.drop_last();
        let rest = spec_resolved(prefix, live);
        let uid = selection.last();
        if live.contains(uid) && !prefix.contains(uid) {
            rest.push(uid)
        } else {
            rest
        }
    }
}

/// Resolved targets hold exactly the selected identifiers that exist: they
/// are a subset of the selection and never contain an identifier that failed
/// the existence lookup.
pub proof fn lemma_resolved_membership(
    selection: Seq<EntityUid>,
    live: Seq<EntityUid>,
    uid: EntityUid,
)
    ensures
        spec_resolved(selection, live).contains(uid) <==> selection.contains(uid)
            && live.contains(uid),
    decreases selection.len(),
{
    if selection.len() > 0 {
        let prefix = selection.drop_last();
        lemma_resolved_membership(prefix, live, uid);
        if prefix.contains(uid) {
            let i = choose|i: int| 0 <= i < prefix.len() && prefix[i] == uid;
            assert(selection[i] == uid);
        }
        if selection.contains(uid) && !prefix.contains(uid) {
            let i = choose|i: int| 0 <= i < selection.len() && selection[i] == uid;
            if i < selection.len() - 1 {
                assert(prefix[i] == uid);
            }
            assert(selection.last() == uid);
        }
        let rest = spec_resolved(prefix, live);
        if live.contains(selection.last()) && !prefix.contains(selection.last()) {
            assert(rest.push(selection.last()).contains(uid) <==> rest.contains(uid) || uid
                == selection.last()) by {
                if rest.contains(uid) {
                    let i = choose|i: int| 0 <= i < rest.len() && rest[i] == uid;
                    assert(rest.push(selection.last())[i] == uid);
                }
                assert(rest.push(selection.last())[rest.len() as int] == selection.last());
                if rest.push(selection.last()).contains(uid) {
                    let i = choose|i: int|
                        0 <= i < rest.len() + 1 && rest.push(selection.last())[i] == uid;
                    if i < rest.len() {
                        assert(rest[i] == uid);
                    }
                }
            }
        }
    }
}

/// The resolved targets never repeat an identifier.
pub proof fn lemma_resolved_no_duplicates(selection: Seq<EntityUid>, live: Seq<EntityUid>)
    ensures
        spec_resolved(selection, live).no_duplicates(),
    decreases selection.len(),
{
    if selection.len() > 0 {
        let prefix = selection.drop_last();
        let rest = spec_resolved(prefix, live);
        let uid = selection.last();
        lemma_resolved_no_duplicates(prefix, live);
        if live.contains(uid) && !prefix.contains(uid) {
            lemma_resolved_membership(prefix, live, uid);
            assert(!rest.contains(uid));
            assert forall|i: int, j: int|
                0 <= i < rest.push(uid).len() && 0 <= j < rest.push(uid).len() && i != j
                implies rest.push(uid)[i] != rest.push(uid)[j] by {
                if i < rest.len() && j < rest.len() {
                } else if i < rest.len() && j == rest.len() {
                    assert(rest[i] != uid);
                } else if j < rest.len() && i == rest.len() {
                    assert(rest[j] != uid);
                }
            }
        }
    }
}

/// Linear scan: does `uids` hold `uid`?
pub fn contains_uid(uids: &Vec<EntityUid>, uid: EntityUid) -> (found: bool)
    ensures
        found == uids@.contains(uid),
{
    let mut i: usize = 0;
    while i < uids.len()
        invariant
            0 <= i <= uids@.len(),
            forall|j: int| 0 <= j < i ==> uids@[j] != uid,
        decreases uids@.len() - i,
    {
        if uids[i] == uid {
            return true;
        }
        i = i + 1;
    }
    false
}

/// One resolution pass: keep the selected identifiers that currently
/// resolve, preserving selection order, first occurrence of a duplicate
/// winning. Unresolvable entries are not an error, only filtered.
pub fn resolve_targets(selection: &Vec<EntityUid>, live: &Vec<EntityUid>) -> (resolved: Vec<
    EntityUid,
>)
    ensures
        resolved@ == spec_resolved(selection@, live@),
{
    let mut resolved: Vec<EntityUid> = Vec::new();
    let mut i: usize = 0;
    while i < selection.len()
        invariant
            0 <= i <= selection@.len(),
            resolved@ == spec_resolved(selection@.take(i as int), live@),
        decreases selection@.len() - i,
    {
        let uid = selection[i];
        let is_live = contains_uid(live, uid);
        let seen = contains_uid(&resolved, uid);
        proof {
            let prefix = selection@.take(i as int);
            let step = selection@.take(i + 1 as int);
            assert(step.drop_last() =~= prefix);
            assert(step.last() == selection@[i as int]);
            lemma_resolved_membership(prefix, live@, uid);
        }
        if is_live && !seen {
            resolved.push(uid);
        }
        i = i + 1;
    }
    proof {
        assert(selection@.take(selection@.len() as int) =~= selection@);
    }
    resolved
}

/// Elementwise comparison of two target lists: same identifiers in the same
/// order.
pub fn uid_vec_eq(a: &Vec<EntityUid>, b: &Vec<EntityUid>) -> (eq: bool)
    ensures
        eq == (a@ == b@),
{
    if a.len() != b.len() {
        return false;
    }
    let mut i: usize = 0;
    while i < a.len()
        invariant
            a@.len() == b@.len(),
            0 <= i <= a@.len(),
            forall|j: int| 0 <= j < i ==> a@[j] == b@[j],
        decreases a@.len() - i,
    {
        if a[i].0 != b[i].0 {
            return false;
        }
        i = i + 1;
    }
    proof {
        assert(a@ =~= b@);
    }
    true
}

/// A fresh copy of a target list.
fn copy_uids(uids: &Vec<EntityUid>) -> (copy: Vec<EntityUid>)
    ensures
        copy@ == uids@,
{
    let mut copy: Vec<EntityUid> = Vec::new();
    let mut i: usize = 0;
    while i < uids.len()
        invariant
            0 <= i <= uids@.len(),
            copy@ == uids@.take(i as int),
        decreases uids@.len() - i,
    {
        copy.push(uids[i]);
        proof {
            assert(copy@ =~= uids@.take(i + 1 as int));
        }
        i = i + 1;
    }
    proof {
        assert(uids@.take(uids@.len() as int) =~= uids@);
    }
    copy
}

/// Driver state of the target resolution loop: remembers the previously
/// published resolution so dependents are notified only on change.
#[derive(Debug)]
pub struct TargetResolver {
    pub prev: Option<Vec<EntityUid>>,
}

impl TargetResolver {
    /// The previous resolution as a value, `None` before the first tick.
    pub open spec fn prev_view(self) -> Option<Seq<EntityUid>> {
        match self.prev {
            Some(p) => Some(p@),
            None => None,
        }
    }

    /// Whether a tick over `(selection, live)` publishes: exactly when the
    /// resolution differs, as a value, from the previous one.
    pub open spec fn spec_publishes(self, selection: Seq<EntityUid>, live: Seq<EntityUid>) -> bool {
        self.prev_view() != Some(spec_resolved(selection, live))
    }

    /// A loop that has published nothing yet: its first tick always
    /// publishes.
    pub fn new() -> (resolver: Self)
        ensures
            resolver.prev_view() == None::<Seq<EntityUid>>,
    {
        TargetResolver { prev: None }
    }

    /// One timer tick: resolve the current selection against the live
    /// identifiers and return the new resolved targets when they differ from
    /// the previous resolution, `None` when nothing changed and no publish
    /// is owed.
    pub fn step(&mut self, selection: &Vec<EntityUid>, live: &Vec<EntityUid>) -> (publish: Option<
        Vec<EntityUid>,
    >)
        ensures
            final(self).prev_view() == Some(spec_resolved(selection@, live@)),
            publish matches Some(p) ==> p@ == spec_resolved(selection@, live@),
            publish is Some <==> old(self).spec_publishes(selection@, live@),
    {
        let resolved = resolve_targets(selection, live);
        let changed = match &self.prev {
            Some(p) => !uid_vec_eq(p, &resolved),
            None => true,
        };
        let publish = if changed {
            Some(copy_uids(&resolved))
        } else {
            None
        };
        self.prev = Some(resolved);
        publish
    }
}

/// Resolution is idempotent: once a tick has run over `(selection, live)`,
/// re-running it over the unchanged inputs reproduces the identical resolved
/// sequence — `spec_resolved` is a function of the two inputs alone — and
/// publishes nothing.
pub proof fn lemma_resolution_idempotent(
    resolver: TargetResolver,
    selection: Seq<EntityUid>,
    live: Seq<EntityUid>,
)
    requires
        resolver.prev_view() == Some(spec_resolved(selection, live)),
    ensures
        !resolver.spec_publishes(selection, live),
{
}

} // verus!
