use vstd::prelude::*;
use git2::{Branch, Error, Repository};
use crate::branch::{
    branches_from_records, branches_view, name_is_available, name_taken,
    position_of_name, BranchRecord, GitBranch,
};
use crate::git_calls::{
    branch_is_head, branch_name, branch_name_valid, branch_ref_name, branch_tree, branch_upstream,
    checkout_tree, create_local_branch, delete, discover, find_commit, find_local_branch, head,
    local_branch_entries, name_is_valid, reference_target, set_head,
};

verus! {

/// Why an operation on the repository failed.
#[derive(Debug, Clone, Copy, PartialEq, Eq, Structural)]
pub enum GitError {
    /// No repository encloses the given directory.
    DiscoveryFailed,
    /// The branch store could not be walked at all.
    ListingFailed,
    /// No local branch has the requested name.
    BranchNotFound,
    /// The branch's tree could not be written to the working directory.
    CheckoutFailed,
    /// The tree was written, but head could not be moved to the branch.
    HeadUpdateFailed,
    /// Head does not resolve to a commit directly.
    DetachedOrSymbolicHead,
    /// The commit that head points at could not be loaded.
    CommitLookupFailed,
    /// The store refused to create the branch (the name is taken or invalid).
    BranchCreationFailed,
    /// The store refused to delete the branch.
    BranchDeletionFailed,
}

/// A handle on one repository on disk.
pub struct GitRepo {
    repo: Repository,
}

/// The name that a lookup of a branch's name gave, when it gave one: `None`
/// when the lookup failed or the name is not UTF-8.
pub fn name_from_lookup(looked_up: Result<Option<String>, Error>) -> (r: Option<String>)
    ensures
        r == (match looked_up {
            Ok(Some(n)) => Some(n),
            _ => None::<String>,
        }),
{
    match looked_up {
        Ok(Some(n)) => Some(n),
        _ => None,
    }
}

/// Reads what one entry of the branch store holds: its name, whether head
/// points at it, and the name of the branch it tracks. An entry that failed,
/// or whose name cannot be read, gives a record without a name, head flag or
/// upstream.
fn read_record(entry: &Result<Branch, Error>) -> (r: BranchRecord)
    ensures
        r.name is Some ==> entry is Ok,
        r.name is None ==> !r.is_head && r.upstream is None,
{
    match entry {
        Err(_) => BranchRecord { name: None, is_head: false, upstream: None },
        Ok(b) => match name_from_lookup(branch_name(b)) {
            None => BranchRecord { name: None, is_head: false, upstream: None },
            Some(n) => {
                let upstream = match branch_upstream(b) {
                    Ok(u) => name_from_lookup(branch_name(&u)),
                    Err(_) => None,
                };
                BranchRecord { name: Some(n), is_head: branch_is_head(b), upstream }
            },
        },
    }
}

/// Decides on a name from a listing of the branches: `true` exactly when no
/// listed branch has it (a case-sensitive comparison), it holds no NUL byte,
/// and git accepts it. A taken name is refused without asking git.
pub fn validate_name_among(branches: &Vec<GitBranch>, name: &String) -> (r: bool)
    ensures
        r == (!name_taken(branches_view(branches@), name@) && !name@.contains('\0')
            && branch_name_valid(name@)),
        r ==> name@.len() > 0 && name@[0] != '-',
{
    if !name_is_available(branches, name, true) {
        return false;
    }
    match name_is_valid(name.as_str()) {
        Ok(valid) => name_is_available(branches, name, valid),
        Err(_) => false,
    }
}

impl GitRepo {
    /// Opens the repository that encloses `path`, searching upward through its
    /// parent directories.
    pub fn discover(path: &str) -> (r: Result<GitRepo, GitError>)
        ensures
            r matches Err(e) ==> e == GitError::DiscoveryFailed,
    {
        match discover(path) {
            Ok(repo) => Ok(GitRepo { repo }),
            Err(_) => Err(GitError::DiscoveryFailed),
        }
    }

    /// The local branches in the store's order. Entries that cannot be read,
    /// or whose name is not UTF-8, are left out: the result is the listing
    /// (`branches_from_records`) of the records read from the store.
    pub fn local_branches(&self) -> (r: Result<Vec<GitBranch>, GitError>)
        ensures
            r matches Err(e) ==> e == GitError::ListingFailed,
    {
        let entries = match local_branch_entries(&self.repo) {
            Ok(e) => e,
            Err(_) => return Err(GitError::ListingFailed),
        };
        let mut records: Vec<BranchRecord> = Vec::new();
        let mut i: usize = 0;
        while i < entries.len()
            invariant
                i <= entries.len(),
            decreases entries.len() - i,
        {
            records.push(read_record(&entries[i]));
            i = i + 1;
        }
        let v = branches_from_records(&records);
        Ok(v)
    }

    /// Writes the tree of the local branch `branch_name` into the working
    /// directory, then points head at the branch. The two steps are not
    /// atomic: `HeadUpdateFailed` leaves the tree written.
    pub fn checkout_branch_from_name(&self, branch_name: &String) -> (r: Result<(), GitError>)
        ensures
            r matches Err(e) ==> (e == GitError::BranchNotFound || e == GitError::CheckoutFailed
                || e == GitError::HeadUpdateFailed),
    {
        let branch = match find_local_branch(&self.repo, branch_name.as_str()) {
            Ok(b) => b,
            Err(_) => return Err(GitError::BranchNotFound),
        };
        let tree = match branch_tree(&branch) {
            Ok(t) => t,
            Err(_) => return Err(GitError::CheckoutFailed),
        };
        match checkout_tree(&self.repo, &tree) {
            Ok(()) => {},
            Err(_) => return Err(GitError::CheckoutFailed),
        }
        let refname = match branch_ref_name(&branch) {
            Some(n) => n,
            None => return Err(GitError::HeadUpdateFailed),
        };
        match set_head(&self.repo, refname.as_str()) {
            Ok(()) => Ok(()),
            Err(_) => Err(GitError::HeadUpdateFailed),
        }
    }

    /// Checks out the branch of that name, as `checkout_branch_from_name`.
    pub fn checkout_branch(&self, branch: &GitBranch) -> (r: Result<(), GitError>)
        ensures
            r matches Err(e) ==> (e == GitError::BranchNotFound || e == GitError::CheckoutFailed
                || e == GitError::HeadUpdateFailed),
    {
        self.checkout_branch_from_name(&branch.name)
    }

    /// Whether `name` can be given to a new branch: no local branch has it and
    /// git accepts it, as `validate_name_among` decides over the branches
    /// listed now. An invalid name gives `false`, never an error. Nothing is
    /// changed.
    pub fn validate_branch_name(&self, name: &String) -> (r: Result<bool, GitError>)
        ensures
            r matches Ok(b) ==> (b ==> !name@.contains('\0') && branch_name_valid(name@)
                && name@.len() > 0 && name@[0] != '-'),
            r matches Err(e) ==> e == GitError::ListingFailed,
    {
        let branches = match self.local_branches() {
            Ok(v) => v,
            Err(e) => return Err(e),
        };
        Ok(validate_name_among(&branches, name))
    }

    /// Creates a local branch named `to_create.name` at the commit that head
    /// points at.
    pub fn create_branch(&self, to_create: &GitBranch) -> (r: Result<(), GitError>)
        ensures
            r matches Err(e) ==> (e == GitError::DetachedOrSymbolicHead || e == GitError::CommitLookupFailed
                || e == GitError::BranchCreationFailed),
    {
        let head_ref = match head(&self.repo) {
            Ok(h) => h,
            Err(_) => return Err(GitError::DetachedOrSymbolicHead),
        };
        let id = match reference_target(&head_ref) {
            Some(id) => id,
            None => return Err(GitError::DetachedOrSymbolicHead),
        };
        let commit = match find_commit(&self.repo, id) {
            Ok(c) => c,
            Err(_) => return Err(GitError::CommitLookupFailed),
        };
        match create_local_branch(&self.repo, to_create.name.as_str(), &commit) {
            Ok(_) => Ok(()),
            Err(_) => Err(GitError::BranchCreationFailed),
        }
    }

    /// Deletes the first local branch named `to_delete.name`. Entries that
    /// cannot be read are passed over; when no branch has the name nothing
    /// happens and the call succeeds.
    pub fn delete_branch(&self, to_delete: &GitBranch) -> (r: Result<(), GitError>)
        ensures
            r matches Err(e) ==> (e == GitError::ListingFailed || e == GitError::BranchDeletionFailed),
    {
        let mut entries = match local_branch_entries(&self.repo) {
            Ok(e) => e,
            Err(_) => return Err(GitError::ListingFailed),
        };
        let mut names: Vec<Option<String>> = Vec::new();
        let mut i: usize = 0;
        while i < entries.len()
            invariant
                i <= entries.len(),
                names@.len() == i,
                forall|j: int| 0 <= j < i ==> (#[trigger] names@[j] is Some ==> entries@[j] is Ok),
            decreases entries.len() - i,
        {
            let name = match &entries[i] {
                Ok(b) => name_from_lookup(branch_name(b)),
                Err(_) => None,
            };
            names.push(name);
            i = i + 1;
        }
        match position_of_name(&names, &to_delete.name) {
            None => Ok(()),
            Some(k) => {
                assert(names@[k as int] is Some);
                match entries.remove(k) {
                    Ok(b) => match delete(b) {
                        Ok(()) => Ok(()),
                        Err(_) => Err(GitError::BranchDeletionFailed),
                    },
                    Err(_) => {
                        assert(false);
                        Ok(())
                    },
                }
            },
        }
    }
}

} // verus!
