use vstd::prelude::*;

verus! {

/// A remote-tracking branch that a local branch follows.
#[derive(Debug, Default, Clone, PartialEq, Eq)]
pub struct GitRemoteBranch {
    pub name: String,
}

/// A local branch as seen in one listing of the repository.
#[derive(Debug, Default, Clone, PartialEq, Eq)]
pub struct GitBranch {
    pub name: String,
    pub is_head: bool,
    pub upstream: Option<GitRemoteBranch>,
}

/// What a branch is made of: its name, whether head points at it, and the
/// name of its upstream when one is configured and resolvable.
pub type BranchView = (Seq<char>, bool, Option<Seq<char>>);

impl View for GitRemoteBranch {
    type V = Seq<char>;

    open spec fn view(&self) -> Seq<char> {
        self.name@
    }
}

pub open spec fn upstream_view(u: Option<GitRemoteBranch>) -> Option<Seq<char>> {
    match u {
        Some(r) => Some(r.name@),
        None => None,
    }
}

impl View for GitBranch {
    type V = BranchView;

    open spec fn view(&self) -> BranchView {
        (self.name@, self.is_head, upstream_view(self.upstream))
    }
}

impl GitRemoteBranch {
    pub fn new(name: String) -> (r: GitRemoteBranch)
        ensures
            r.name == name,
    {
        GitRemoteBranch { name }
    }
}

impl GitBranch {
    /// A branch that is not head and has no upstream.
    pub fn new(name: String) -> (r: GitBranch)
        ensures
            r.name == name,
            !r.is_head,
            r.upstream is None,
    {
        GitBranch { name, is_head: false, upstream: None }
    }
}

/// What one entry of the repository's branch store yielded. `name` is `None`
/// when the entry could not be read or its name is not valid UTF-8; `upstream`
/// is `None` when no upstream is configured or it could not be resolved.
#[derive(Debug, Clone)]
pub struct BranchRecord {
    pub name: Option<String>,
    pub is_head: bool,
    pub upstream: Option<String>,
}

pub open spec fn opt_str_view(o: Option<String>) -> Option<Seq<char>> {
    match o {
        Some(s) => Some(s@),
        None => None,
    }
}

/// The branch that a readable record stands for.
pub open spec fn record_branch(r: BranchRecord) -> BranchView {
    (r.name.unwrap()@, r.is_head, opt_str_view(r.upstream))
}

/// Whether a record could be read with a UTF-8 name.
pub open spec fn readable() -> spec_fn(BranchRecord) -> bool {
    |r: BranchRecord| r.name is Some
}

/// The listing made of a sequence of records: the branches of the readable
/// ones, in their order.
pub open spec fn listing(recs: Seq<BranchRecord>) -> Seq<BranchView> {
    recs.filter(readable()).map_values(|r: BranchRecord| record_branch(r))
}

/// A listing holds exactly the readable records: each of its branches is the
/// branch of some readable record, and each readable record gives a branch of
/// the listing, with the same name, head flag and upstream.
pub proof fn lemma_listing_exact(recs: Seq<BranchRecord>)
    ensures
        forall|b: BranchView| #[trigger] listing(recs).contains(b) ==> exists|r: BranchRecord|
            #[trigger] recs.contains(r) && r.name is Some && b == record_branch(r),
        forall|r: BranchRecord| #[trigger] recs.contains(r) && r.name is Some
            ==> listing(recs).contains(record_branch(r)),
{
    let kept = recs.filter(readable());
    assert forall|b: BranchView| #[trigger] listing(recs).contains(b) implies exists|r: BranchRecord|
        #[trigger] recs.contains(r) && r.name is Some && b == record_branch(r) by {
        let k = choose|k: int| 0 <= k < listing(recs).len() && listing(recs)[k] == b;
        recs.lemma_filter_pred(readable(), k);
        assert(kept.contains(kept[k]));
        recs.lemma_filter_contains_rev(readable(), kept[k]);
    }
    assert forall|r: BranchRecord| #[trigger] recs.contains(r) && r.name is Some
        implies listing(recs).contains(record_branch(r)) by {
        let i = choose|i: int| 0 <= i < recs.len() && recs[i] == r;
        recs.lemma_filter_contains(readable(), i);
        let k = choose|k: int| 0 <= k < kept.len() && kept[k] == r;
        assert(listing(recs)[k] == record_branch(r));
    }
}

pub open spec fn branches_view(v: Seq<GitBranch>) -> Seq<BranchView> {
    v.map_values(|b: GitBranch| b@)
}

/// Whether some branch of a listing carries the name `name`.
pub open spec fn name_taken(v: Seq<BranchView>, name: Seq<char>) -> bool {
    exists|i: int| 0 <= i < v.len() && (#[trigger] v[i]).0 == name
}

fn record_to_branch(rec: &BranchRecord) -> (r: Option<GitBranch>)
    ensures
        r is Some <==> rec.name is Some,
        r matches Some(b) ==> b@ == record_branch(*rec),
{
    match &rec.name {
        None => None,
        Some(n) => {
            let upstream = match &rec.upstream {
                None => None,
                Some(u) => Some(GitRemoteBranch::new(u.clone())),
            };
            Some(GitBranch { name: n.clone(), is_head: rec.is_head, upstream })
        },
    }
}

/// Keeps the readable records, in their order, as branches; the others are
/// skipped.
pub fn branches_from_records(records: &Vec<BranchRecord>) -> (r: Vec<GitBranch>)
    ensures
        branches_view(r@) == listing(records@),
{
    let mut out: Vec<GitBranch> = Vec::new();
    let mut i: usize = 0;
    while i < records.len()
        invariant
            i <= records.len(),
            branches_view(out@) == listing(records@.subrange(0, i as int)),
        decreases records.len() - i,
    {
        let ghost before = out@;
        assert(records@.subrange(0, i + 1) =~= records@.subrange(0, i as int).push(records@[i as int]));
        proof {
            records@.subrange(0, i as int).lemma_filter_push(records@[i as int], readable());
        }
        match record_to_branch(&records[i]) {
            Some(b) => {
                out.push(b);
                assert(branches_view(out@) =~= branches_view(before).push(b@));
            },
            None => {},
        }
        i = i + 1;
    }
    assert(records@.subrange(0, records.len() as int) =~= records@);
    out
}

/// Whether `name` may be given to a new branch: it is syntactically valid
/// (`valid`) and no branch of `branches` has it.
pub fn name_is_available(branches: &Vec<GitBranch>, name: &String, valid: bool) -> (r: bool)
    ensures
        r == (valid && !name_taken(branches_view(branches@), name@)),
{
    let mut i: usize = 0;
    while i < branches.len()
        invariant
            i <= branches.len(),
            forall|j: int| 0 <= j < i ==> branches@[j].name@ != name@,
        decreases branches.len() - i,
    {
        if branches[i].name == *name {
            assert(branches_view(branches@)[i as int].0 == name@);
            return false;
        }
        i = i + 1;
    }
    assert(!name_taken(branches_view(branches@), name@));
    valid
}

/// The first position whose name is `target`, if any.
pub fn position_of_name(names: &Vec<Option<String>>, target: &String) -> (r: Option<usize>)
    ensures
        r matches Some(k) ==> k < names@.len() && opt_str_view(names@[k as int]) == Some(target@)
            && forall|j: int| 0 <= j < k ==> opt_str_view(#[trigger] names@[j]) != Some(target@),
        r is None ==> forall|j: int|
            0 <= j < names@.len() ==> opt_str_view(#[trigger] names@[j]) != Some(target@),
{
    let mut i: usize = 0;
    while i < names.len()
        invariant
            i <= names.len(),
            forall|j: int| 0 <= j < i ==> opt_str_view(#[trigger] names@[j]) != Some(target@),
        decreases names.len() - i,
    {
        match &names[i] {
            Some(n) => {
                if *n == *target {
                    return Some(i);
                }
            },
            None => {},
        }
        i = i + 1;
    }
    None
}

} // verus!
