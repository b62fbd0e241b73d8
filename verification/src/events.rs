//! The event model: the kind tags of filesystem notifications and the
//! normalized event record the pipeline works on.
//!
//! The kind space mirrors the notification backend closely enough to tell
//! apart the one class the pipeline acts on — the rename-to completion that
//! ends an atomic write — from everything it ignores.

use vstd::prelude::*;

use crate::paths::DirPath;

verus! {

/// How a path was accessed.
#[derive(Debug, Clone, Copy, PartialEq, Eq, Structural)]
pub enum AccessKind {
    /// Any access.
    Any,
    /// A read.
    Read,
    /// An open.
    Open,
    /// A close.
    Close,
    /// Some other access.
    Other,
}

/// What was created.
#[derive(Debug, Clone, Copy, PartialEq, Eq, Structural)]
pub enum CreateKind {
    /// Anything.
    Any,
    /// A file.
    File,
    /// A folder.
    Folder,
    /// Something else.
    Other,
}

/// What was removed.
#[derive(Debug, Clone, Copy, PartialEq, Eq, Structural)]
pub enum RemoveKind {
    /// Anything.
    Any,
    /// A file.
    File,
    /// A folder.
    Folder,
    /// Something else.
    Other,
}

/// Which side of a rename the notification reports.
#[derive(Debug, Clone, Copy, PartialEq, Eq, Structural)]
pub enum RenameMode {
    /// Unspecified.
    Any,
    /// The destination of a completed rename.
    To,
    /// The source of a rename.
    From,
    /// Both sides in one notification.
    Both,
    /// Some other rename report.
    Other,
}

/// How a path was modified.
#[derive(Debug, Clone, Copy, PartialEq, Eq, Structural)]
pub enum ModifyKind {
    /// Unspecified.
    Any,
    /// File contents changed.
    Data,
    /// Metadata changed.
    Metadata,
    /// The path was renamed.
    Name(RenameMode),
    /// Some other modification.
    Other,
}

/// The kind tag of a filesystem notification.
#[derive(Debug, Clone, Copy, PartialEq, Eq, Structural)]
pub enum EventKind {
    /// Unclassified.
    Any,
    /// An access.
    Access(AccessKind),
    /// A creation.
    Create(CreateKind),
    /// A modification.
    Modify(ModifyKind),
    /// A removal.
    Remove(RemoveKind),
    /// Anything else.
    Other,
}

/// A normalized filesystem event: a kind tag and the absolute paths it
/// touched.
#[derive(Debug)]
pub struct FsEvent {
    /// The kind tag.
    pub kind: EventKind,
    /// The touched paths.
    pub paths: Vec<DirPath>,
}

impl View for FsEvent {
    type V = (EventKind, Seq<Seq<Seq<char>>>);

    open spec fn view(&self) -> (EventKind, Seq<Seq<Seq<char>>>) {
        (self.kind, self.paths@.map_values(|p: DirPath| p@))
    }
}

impl Clone for FsEvent {
    fn clone(&self) -> (r: Self)
        ensures
            r@ == self@,
    {
        let mut paths: Vec<DirPath> = Vec::new();
        let n: usize = self.paths.len();
        let mut i: usize = 0;
        while i < n
            invariant
                i <= n,
                n == self.paths@.len(),
                paths@.len() == i,
                forall|j: int| 0 <= j < i ==> paths@[j]@ == self.paths@[j]@,
            decreases n - i,
        {
            paths.push(self.paths[i].clone());
            i = i + 1;
        }
        let r = FsEvent { kind: self.kind, paths };
        proof {
            assert(r@.1 =~= self@.1);
        }
        r
    }
}

/// A numeric code for each kind tag, distinct for distinct tags; the key
/// under which the script cache files a kind.
pub open spec fn kind_key(k: EventKind) -> int {
    match k {
        EventKind::Any => 0x00,
        EventKind::Access(a) => 0x10 + sub_code_access(a),
        EventKind::Create(c) => 0x20 + sub_code_create(c),
        EventKind::Modify(m) => sub_code_modify(m),
        EventKind::Remove(rm) => 0x50 + sub_code_remove(rm),
        EventKind::Other => 0x60,
    }
}

/// The code of an access sub-kind.
pub open spec fn sub_code_access(a: AccessKind) -> int {
    match a {
        AccessKind::Any => 0,
        AccessKind::Read => 1,
        AccessKind::Open => 2,
        AccessKind::Close => 3,
        AccessKind::Other => 4,
    }
}

/// The code of a create sub-kind.
pub open spec fn sub_code_create(c: CreateKind) -> int {
    match c {
        CreateKind::Any => 0,
        CreateKind::File => 1,
        CreateKind::Folder => 2,
        CreateKind::Other => 3,
    }
}

/// The code of a remove sub-kind.
pub open spec fn sub_code_remove(rm: RemoveKind) -> int {
    match rm {
        RemoveKind::Any => 0,
        RemoveKind::File => 1,
        RemoveKind::Folder => 2,
        RemoveKind::Other => 3,
    }
}

/// The code of a modify sub-kind, offset into its own range.
pub open spec fn sub_code_modify(m: ModifyKind) -> int {
    match m {
        ModifyKind::Any => 0x30,
        ModifyKind::Data => 0x31,
        ModifyKind::Metadata => 0x32,
        ModifyKind::Other => 0x33,
        ModifyKind::Name(r) => 0x40 + sub_code_rename(r),
    }
}

/// The code of a rename mode.
pub open spec fn sub_code_rename(r: RenameMode) -> int {
    match r {
        RenameMode::Any => 0,
        RenameMode::To => 1,
        RenameMode::From => 2,
        RenameMode::Both => 3,
        RenameMode::Other => 4,
    }
}

/// Computes the numeric code of a kind tag.
pub fn event_kind_key(k: &EventKind) -> (r: u64)
    ensures
        r == kind_key(*k),
{
    match k {
        EventKind::Any => 0x00,
        EventKind::Access(a) => match a {
            AccessKind::Any => 0x10,
            AccessKind::Read => 0x11,
            AccessKind::Open => 0x12,
            AccessKind::Close => 0x13,
            AccessKind::Other => 0x14,
        },
        EventKind::Create(c) => match c {
            CreateKind::Any => 0x20,
            CreateKind::File => 0x21,
            CreateKind::Folder => 0x22,
            CreateKind::Other => 0x23,
        },
        EventKind::Modify(m) => match m {
            ModifyKind::Any => 0x30,
            ModifyKind::Data => 0x31,
            ModifyKind::Metadata => 0x32,
            ModifyKind::Other => 0x33,
            ModifyKind::Name(rm) => match rm {
                RenameMode::Any => 0x40,
                RenameMode::To => 0x41,
                RenameMode::From => 0x42,
                RenameMode::Both => 0x43,
                RenameMode::Other => 0x44,
            },
        },
        EventKind::Remove(rm) => match rm {
            RemoveKind::Any => 0x50,
            RemoveKind::File => 0x51,
            RemoveKind::Folder => 0x52,
            RemoveKind::Other => 0x53,
        },
        EventKind::Other => 0x60,
    }
}

/// Distinct kind tags have distinct codes.
pub proof fn lemma_kind_key_injective(k1: EventKind, k2: EventKind)
    requires
        kind_key(k1) == kind_key(k2),
    ensures
        k1 == k2,
{
}

} // verus!
