//! The path model.
//!
//! A filesystem path is carried as its component names, root first. The
//! process around the library canonicalizes real paths before handing them
//! in, so plain component equality is path equality here. On top of the
//! model sit the two path questions the pipeline asks: which ancestor of an
//! event path is the home dir under a watched root, and whether one path
//! lies under another; and the 64-bit fingerprint used as the registry key.

use vstd::prelude::*;

use crate::errors::PathError;

verus! {

/// Fowler–Noll–Vo offset basis for 64-bit fingerprints.
pub const FNV_OFFSET: u64 = 0xcbf29ce484222325;

/// Fowler–Noll–Vo prime for 64-bit fingerprints.
pub const FNV_PRIME: u64 = 0x100000001b3;

/// One step of the fingerprint: fold a character into the hash.
pub open spec fn hash_step(h: u64, c: char) -> u64 {
    (((h ^ (c as u64)) * FNV_PRIME) % 0x10000000000000000) as u64
}

/// A character sequence folded into a running fingerprint, left to right.
pub open spec fn hash_chars_from(h: u64, s: Seq<char>) -> u64
    decreases s.len(),
{
    if s.len() == 0 {
        h
    } else {
        hash_step(hash_chars_from(h, s.drop_last()), s.last())
    }
}

/// The fingerprint of a character sequence.
pub open spec fn hash_chars(s: Seq<char>) -> u64 {
    hash_chars_from(FNV_OFFSET, s)
}

/// The fingerprint of a component path: each component folded in turn,
/// closed with a separator.
pub open spec fn path_hash_spec(p: Seq<Seq<char>>) -> u64
    decreases p.len(),
{
    if p.len() == 0 {
        FNV_OFFSET
    } else {
        hash_step(hash_chars_from(path_hash_spec(p.drop_last()), p.last()), '/')
    }
}

/// Folds the characters of `s` into a running fingerprint.
pub fn hash_fold(h0: u64, s: &str) -> (h: u64)
    ensures
        h == hash_chars_from(h0, s@),
{
    let n: usize = s.unicode_len();
    let mut h: u64 = h0;
    let mut i: usize = 0;
    while i < n
        invariant
            i <= n,
            n == s@.len(),
            h == hash_chars_from(h0, s@.take(i as int)),
        decreases n - i,
    {
        let c = s.get_char(i);
        assert(s@.take(i + 1 as int).drop_last() =~= s@.take(i as int));
        assert(s@.take(i + 1 as int).last() == s@[i as int]);
        h = (h ^ (c as u64)).wrapping_mul(FNV_PRIME);
        i = i + 1;
    }
    assert(s@.take(n as int) =~= s@);
    h
}

/// The 64-bit fingerprint of a path string. Two different home dirs are
/// expected to collide only with negligible probability; nothing here
/// depends on injectivity.
pub fn hasher(path: &String) -> (h: u64)
    ensures
        h == hash_chars(path@),
{
    hash_fold(FNV_OFFSET, path.as_str())
}

/// An absolute filesystem path as its component names, root first.
#[derive(Debug)]
pub struct DirPath {
    /// The component names, without separators.
    pub components: Vec<String>,
}

impl View for DirPath {
    type V = Seq<Seq<char>>;

    open spec fn view(&self) -> Seq<Seq<char>> {
        self.components@.map_values(|s: String| s@)
    }
}

/// Clones a vector of strings; the copy holds the same text.
pub fn clone_string_vec(v: &Vec<String>) -> (r: Vec<String>)
    ensures
        r@ == v@,
{
    let r = v.clone();
    proof {
        assert forall|i: int| 0 <= i < v@.len() implies r@[i] == v@[i] by {
            assert(cloned::<String>(v@[i], r@[i]));
        }
        assert(r@ =~= v@);
    }
    r
}

impl Clone for DirPath {
    fn clone(&self) -> (r: Self)
        ensures
            r@ == self@,
    {
        DirPath { components: clone_string_vec(&self.components) }
    }
}

impl DirPath {
    /// The path with the given components.
    pub fn new(components: Vec<String>) -> (r: Self)
        ensures
            r.components@ == components@,
    {
        DirPath { components }
    }

    /// The number of components.
    pub fn depth(&self) -> (n: usize)
        ensures
            n == self@.len(),
    {
        self.components.len()
    }

    /// The fingerprint of this path.
    pub fn path_hasher(&self) -> (h: u64)
        ensures
            h == path_hash_spec(self@),
    {
        let n: usize = self.components.len();
        let mut h: u64 = FNV_OFFSET;
        let mut i: usize = 0;
        while i < n
            invariant
                i <= n,
                n == self@.len(),
                h == path_hash_spec(self@.take(i as int)),
            decreases n - i,
        {
            assert(self@.take(i + 1 as int).drop_last() =~= self@.take(i as int));
            assert(self@.take(i + 1 as int).last() == self@[i as int]);
            assert(self@[i as int] == self.components@[i as int]@);
            h = hash_fold(h, self.components[i].as_str());
            h = (h ^ ('/' as u64)).wrapping_mul(FNV_PRIME);
            i = i + 1;
        }
        assert(self@.take(n as int) =~= self@);
        h
    }
}

impl PartialEq for DirPath {
    fn eq(&self, other: &Self) -> (r: bool)
        ensures
            r == (self@ == other@),
    {
        let n: usize = self.components.len();
        if n != other.components.len() {
            assert(self@.len() != other@.len());
            return false;
        }
        let mut i: usize = 0;
        while i < n
            invariant
                i <= n,
                n == self@.len(),
                n == other@.len(),
                forall|j: int| 0 <= j < i ==> self@[j] == other@[j],
            decreases n - i,
        {
            if !crate::text::str_eq(self.components[i].as_str(), other.components[i].as_str()) {
                assert(self@[i as int] != other@[i as int]);
                return false;
            }
            i = i + 1;
        }
        assert(self@ =~= other@);
        true
    }
}

impl vstd::std_specs::cmp::PartialEqSpecImpl for DirPath {
    open spec fn obeys_eq_spec() -> bool {
        true
    }

    open spec fn eq_spec(&self, other: &Self) -> bool {
        self@ == other@
    }
}

/// Where under `root` the event at `leaf` has its home dir: the direct
/// child of the root that the leaf lies beneath, if the leaf lies strictly
/// beneath the root at all.
pub open spec fn home_dir_of(leaf: Seq<Seq<char>>, root: Seq<Seq<char>>) -> Option<Seq<Seq<char>>> {
    if root.is_prefix_of(leaf) && root.len() < leaf.len() {
        Some(root.push(leaf[root.len() as int]))
    } else {
        None
    }
}

/// Walks upward from `leaf` until the parent is exactly `root`, yielding
/// the topmost directory of the event below the watched root. An event at
/// the root itself, or outside it, has no home dir and is refused.
pub fn walk_up_to_event_home_dir(leaf: &DirPath, root: &DirPath) -> (r: Result<DirPath, PathError>)
    ensures
        match r {
            Ok(home) => home_dir_of(leaf@, root@) == Some(home@),
            Err(e) => home_dir_of(leaf@, root@) is None && e == PathError::TraversalError,
        },
{
    let rn: usize = root.components.len();
    if rn >= leaf.components.len() {
        return Err(PathError::TraversalError);
    }
    if !path_contains_subdir(root, leaf) {
        return Err(PathError::TraversalError);
    }
    let mut components = clone_string_vec(&root.components);
    components.push(leaf.components[rn].clone());
    let home = DirPath { components };
    proof {
        assert(home@ =~= root@.push(leaf@[root@.len() as int]));
    }
    Ok(home)
}

/// Whether `subdir` lies at or below `path`: some ancestor of `subdir`
/// (itself included) is `path`.
pub fn path_contains_subdir(path: &DirPath, subdir: &DirPath) -> (r: bool)
    ensures
        r == path@.is_prefix_of(subdir@),
{
    let n: usize = path.components.len();
    if n > subdir.components.len() {
        assert(!path@.is_prefix_of(subdir@));
        return false;
    }
    let mut i: usize = 0;
    while i < n
        invariant
            i <= n,
            n == path@.len(),
            n <= subdir@.len(),
            forall|j: int| 0 <= j < i ==> path@[j] == subdir@[j],
        decreases n - i,
    {
        if !crate::text::str_eq(path.components[i].as_str(), subdir.components[i].as_str()) {
            assert(path@[i as int] != subdir@[i as int]);
            assert(!path@.is_prefix_of(subdir@));
            return false;
        }
        i = i + 1;
    }
    assert(path@ =~= subdir@.subrange(0, n as int));
    true
}

/// The directory holding a file: the path above the last component. The
/// caller says whether the path names a file; a path that is no file has no
/// parent dir of interest.
pub fn get_parent_dir_of_file(path: &DirPath, is_file: bool) -> (r: Option<DirPath>)
    ensures
        match r {
            Some(parent) => is_file && path@.len() > 0 && parent@ == path@.drop_last(),
            None => !is_file || path@.len() == 0,
        },
{
    if !is_file {
        return None;
    }
    let n: usize = path.components.len();
    if n == 0 {
        return None;
    }
    let mut components = clone_string_vec(&path.components);
    components.pop();
    let parent = DirPath { components };
    proof {
        assert(parent@ =~= path@.drop_last());
    }
    Some(parent)
}

} // verus!
