use vstd::prelude::*;
use git2::{Branch, BranchType, Commit, Error, Oid, Reference, Repository, Tree};

verus! {

/// An open repository of git2.
#[verifier::external_type_specification]
#[verifier::external_body]
pub struct ExRepository(Repository);

/// git2's error value.
#[verifier::external_type_specification]
#[verifier::external_body]
pub struct ExError(Error);

/// A branch of git2, borrowed from its repository.
#[verifier::external_type_specification]
#[verifier::external_body]
pub struct ExBranch<'repo>(Branch<'repo>);

/// A reference of git2, borrowed from its repository.
#[verifier::external_type_specification]
#[verifier::external_body]
pub struct ExReference<'repo>(Reference<'repo>);

/// A tree object of git2, borrowed from its repository.
#[verifier::external_type_specification]
#[verifier::external_body]
pub struct ExTree<'repo>(Tree<'repo>);

/// A commit object of git2, borrowed from its repository.
#[verifier::external_type_specification]
#[verifier::external_body]
pub struct ExCommit<'repo>(Commit<'repo>);

/// An object id of git2.
#[verifier::external_type_specification]
#[verifier::external_body]
pub struct ExOid(Oid);

/// Whether git accepts a string as the name of a local branch.
pub uninterp spec fn branch_name_valid(name: Seq<char>) -> bool;

/// Relies on `Repository::discover`: opens the repository that encloses `path`.
#[verifier::external_body]
pub(crate) fn discover(path: &str) -> (r: Result<Repository, Error>) {
    Repository::discover(path)
}

/// Relies on `Repository::branches` with `BranchType::Local`: the local
/// branches in the store's order, each entry read or failed on its own.
#[verifier::external_body]
pub(crate) fn local_branch_entries<'a>(repo: &'a Repository) -> (r: Result<Vec<Result<Branch<'a>, Error>>, Error>) {
    repo.branches(Some(BranchType::Local)).map(|it| it.map(|e| e.map(|(b, _)| b)).collect())
}

/// Relies on `Branch::name`: the short name, `None` when it is not UTF-8.
#[verifier::external_body]
pub(crate) fn branch_name(b: &Branch) -> (r: Result<Option<String>, Error>) {
    b.name().map(|n| n.map(String::from))
}

/// Relies on `Branch::is_head`: whether head points at the branch.
#[verifier::external_body]
pub(crate) fn branch_is_head(b: &Branch) -> (r: bool) {
    b.is_head()
}

/// Relies on `Branch::upstream`: the branch that `b` tracks.
#[verifier::external_body]
pub(crate) fn branch_upstream<'a>(b: &Branch<'a>) -> (r: Result<Branch<'a>, Error>) {
    b.upstream()
}

/// Relies on `Branch::name_is_valid`. It fails exactly when the name holds a
/// NUL byte (`CString::new` refuses it); otherwise the answer depends on the
/// name alone, and libgit2 refuses an empty name and one that starts with `-`.
#[verifier::external_body]
pub(crate) fn name_is_valid(name: &str) -> (r: Result<bool, Error>)
    ensures
        r is Ok <==> !name@.contains('\0'),
        r matches Ok(b) ==> b == branch_name_valid(name@),
        r matches Ok(b) ==> (name@.len() == 0 ==> !b),
        r matches Ok(b) ==> (name@.len() > 0 && name@[0] == '-' ==> !b),
{
    Branch::name_is_valid(name)
}

/// Relies on `Repository::find_branch` with `BranchType::Local`: the local
/// branch of that exact name.
#[verifier::external_body]
pub(crate) fn find_local_branch<'a>(repo: &'a Repository, name: &str) -> (r: Result<Branch<'a>, Error>) {
    repo.find_branch(name, BranchType::Local)
}

/// Relies on `Reference::peel_to_tree` of the branch's reference: the tree of
/// the commit it points at.
#[verifier::external_body]
pub(crate) fn branch_tree<'a>(b: &Branch<'a>) -> (r: Result<Tree<'a>, Error>) {
    b.get().peel_to_tree()
}

/// Relies on `Repository::checkout_tree` with default options: writes the
/// tree into the working directory.
#[verifier::external_body]
pub(crate) fn checkout_tree(repo: &Repository, tree: &Tree) -> (r: Result<(), Error>) {
    repo.checkout_tree(tree.as_object(), None)
}

/// Relies on `Reference::name` of the branch's reference: its full name,
/// `None` when it is not UTF-8.
#[verifier::external_body]
pub(crate) fn branch_ref_name(b: &Branch) -> (r: Option<String>) {
    b.get().name().map(String::from)
}

/// Relies on `Repository::set_head`: points head at the named reference.
#[verifier::external_body]
pub(crate) fn set_head(repo: &Repository, refname: &str) -> (r: Result<(), Error>) {
    repo.set_head(refname)
}

/// Relies on `Repository::head`: the reference head resolves to.
#[verifier::external_body]
pub(crate) fn head<'a>(repo: &'a Repository) -> (r: Result<Reference<'a>, Error>) {
    repo.head()
}

/// Relies on `Reference::target`: the object a direct reference points at,
/// `None` for a symbolic one.
#[verifier::external_body]
pub(crate) fn reference_target(reference: &Reference) -> (r: Option<Oid>) {
    reference.target()
}

/// Relies on `Repository::find_commit`: the commit of that id.
#[verifier::external_body]
pub(crate) fn find_commit<'a>(repo: &'a Repository, id: Oid) -> (r: Result<Commit<'a>, Error>) {
    repo.find_commit(id)
}

/// Relies on `Repository::branch` without `force`: a new local branch named
/// `name` at `commit`.
#[verifier::external_body]
pub(crate) fn create_local_branch<'a>(repo: &'a Repository, name: &str, commit: &Commit) -> (r: Result<Branch<'a>, Error>) {
    repo.branch(name, commit, false)
}

/// Relies on `Branch::delete`: removes the branch from the store.
#[verifier::external_body]
pub(crate) fn delete(b: Branch) -> (r: Result<(), Error>) {
    let mut b = b;
    b.delete()
}

} // verus!
