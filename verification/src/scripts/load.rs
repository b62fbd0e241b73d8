//! Loading and filing scripts.
//!
//! A validated script list is filed into a cache keyed by the numeric code
//! of the triggering event kind. Each canonical trigger word — `Access`,
//! `Create`, `Modify`, `Remove`, `Other` — maps to one kind; a script
//! appears under a kind once, first occurrence winning, names compared
//! blind to ascii case.

use vstd::prelude::*;

use crate::events::{
    event_kind_key, kind_key, AccessKind, CreateKind, EventKind, ModifyKind, RemoveKind,
    RenameMode,
};
use crate::errors::{ScriptConfigError, ScriptError};
use crate::scripts::structs::{
    blocks_view, clone_script_vec, loaded_script, scripts_view, Script, ScriptBlock, ScriptBlockV,
    ScriptV, Scripts, ScriptsByEventTrigger,
};
use crate::text::{eq_ignore_ascii_case, eq_lowered, str_eq};
use std::collections::HashMap;

verus! {

broadcast use vstd::std_specs::hash::group_hash_axioms;

/// Whether the script lists the given trigger word.
pub open spec fn script_has_trigger(s: ScriptV, name: Seq<char>) -> bool {
    exists|i: int| 0 <= i < s.event_triggers.len() && s.event_triggers[i] == name
}

/// Whether some script of the sequence carries the given file name, blind
/// to ascii case.
pub open spec fn has_script_named(ss: Seq<ScriptV>, name: Seq<char>) -> bool {
    exists|i: int| 0 <= i < ss.len() && eq_lowered(#[trigger] ss[i].file_name, name)
}

/// The scripts that the given trigger word fires, in declaration order,
/// each file name appearing once: a later script whose name repeats an
/// earlier one is dropped.
pub open spec fn scripts_for_trigger(files: Seq<ScriptV>, name: Seq<char>) -> Seq<ScriptV>
    decreases files.len(),
{
    if files.len() == 0 {
        Seq::empty()
    } else {
        let prev = scripts_for_trigger(files.drop_last(), name);
        let f = files.last();
        if script_has_trigger(f, name) && !has_script_named(prev, f.file_name) {
            prev.push(f)
        } else {
            prev
        }
    }
}

/// Whether the cache holds exactly the scripts the given trigger word
/// fires, under the code of its kind; a word that fires nothing has no
/// entry.
pub open spec fn entry_matches(
    m: Map<u64, Vec<Script>>,
    kind: EventKind,
    files: Seq<ScriptV>,
    name: Seq<char>,
) -> bool {
    let expect = scripts_for_trigger(files, name);
    let key = kind_key(kind) as u64;
    if expect.len() == 0 {
        !m.contains_key(key)
    } else {
        m.contains_key(key) && scripts_view(m[key]@) == expect
    }
}

/// Whether the cache is exactly the filing of the given scripts: each
/// canonical trigger word pinned, and no other entries.
pub open spec fn cache_matches(m: Map<u64, Vec<Script>>, files: Seq<ScriptV>) -> bool {
    &&& entry_matches(m, EventKind::Access(AccessKind::Any), files, "Access"@)
    &&& entry_matches(m, EventKind::Create(CreateKind::Any), files, "Create"@)
    &&& entry_matches(m, EventKind::Modify(ModifyKind::Name(RenameMode::To)), files, "Modify"@)
    &&& entry_matches(m, EventKind::Remove(RemoveKind::Any), files, "Remove"@)
    &&& entry_matches(m, EventKind::Other, files, "Other"@)
    &&& forall|k: u64|
        m.contains_key(k) ==> k == kind_key(EventKind::Access(AccessKind::Any)) || k == kind_key(
            EventKind::Create(CreateKind::Any),
        ) || k == kind_key(EventKind::Modify(ModifyKind::Name(RenameMode::To))) || k == kind_key(
            EventKind::Remove(RemoveKind::Any),
        ) || k == kind_key(EventKind::Other)
}

/// Whether the script lists the given trigger word.
fn has_trigger(script: &Script, name: &str) -> (r: bool)
    ensures
        r == script_has_trigger(script@, name@),
{
    let n: usize = script.event_triggers.len();
    let mut i: usize = 0;
    while i < n
        invariant
            i <= n,
            n == script@.event_triggers.len(),
            n == script.event_triggers@.len(),
            forall|j: int| 0 <= j < i ==> script@.event_triggers[j] != name@,
        decreases n - i,
    {
        if str_eq(script.event_triggers[i].as_str(), name) {
            assert(script@.event_triggers[i as int] == name@);
            return true;
        }
        i = i + 1;
    }
    false
}

/// Whether some script of the vector carries the given file name, blind to
/// ascii case.
fn contains_named(ss: &Vec<Script>, name: &str) -> (r: bool)
    ensures
        r == has_script_named(scripts_view(ss@), name@),
{
    let n: usize = ss.len();
    let mut i: usize = 0;
    while i < n
        invariant
            i <= n,
            n == ss@.len(),
            forall|j: int|
                0 <= j < i ==> !eq_lowered(#[trigger] scripts_view(ss@)[j].file_name, name@),
        decreases n - i,
    {
        if eq_ignore_ascii_case(ss[i].file_name.as_str(), name) {
            assert(eq_lowered(scripts_view(ss@)[i as int].file_name, name@));
            return true;
        }
        i = i + 1;
    }
    false
}

/// The scripts the given trigger word fires, in declaration order, first
/// file name winning.
fn scripts_matching_trigger(files: &Vec<Script>, name: &str) -> (r: Vec<Script>)
    ensures
        scripts_view(r@) == scripts_for_trigger(scripts_view(files@), name@),
{
    let ghost fv = scripts_view(files@);
    let mut r: Vec<Script> = Vec::new();
    let n: usize = files.len();
    let mut i: usize = 0;
    while i < n
        invariant
            i <= n,
            n == files@.len(),
            fv == scripts_view(files@),
            scripts_view(r@) == scripts_for_trigger(fv.take(i as int), name@),
        decreases n - i,
    {
        proof {
            assert(fv.take(i + 1 as int).drop_last() =~= fv.take(i as int));
            assert(fv.take(i + 1 as int).last() == fv[i as int]);
        }
        if has_trigger(&files[i], name) && !contains_named(&r, files[i].file_name.as_str()) {
            r.push(files[i].clone());
            proof {
                assert(scripts_view(r@) =~= scripts_for_trigger(fv.take(i + 1 as int), name@));
            }
        } else {
            proof {
                assert(scripts_view(r@) =~= scripts_for_trigger(fv.take(i + 1 as int), name@));
            }
        }
        i = i + 1;
    }
    proof {
        assert(fv.take(n as int) =~= fv);
    }
    r
}

/// Files the scripts by the code of each canonical trigger kind.
pub fn cache_scripts_by_events(files: &Vec<Script>) -> (cache: ScriptsByEventTrigger)
    ensures
        cache_matches(cache@, scripts_view(files@)),
{
    let mut cache: ScriptsByEventTrigger = HashMap::new();
    let access = scripts_matching_trigger(files, "Access");
    if access.len() > 0 {
        cache.insert(event_kind_key(&EventKind::Access(AccessKind::Any)), access);
    }
    let create = scripts_matching_trigger(files, "Create");
    if create.len() > 0 {
        cache.insert(event_kind_key(&EventKind::Create(CreateKind::Any)), create);
    }
    let modify = scripts_matching_trigger(files, "Modify");
    if modify.len() > 0 {
        cache.insert(
            event_kind_key(&EventKind::Modify(ModifyKind::Name(RenameMode::To))),
            modify,
        );
    }
    let remove = scripts_matching_trigger(files, "Remove");
    if remove.len() > 0 {
        cache.insert(event_kind_key(&EventKind::Remove(RemoveKind::Any)), remove);
    }
    let other = scripts_matching_trigger(files, "Other");
    if other.len() > 0 {
        cache.insert(event_kind_key(&EventKind::Other), other);
    }
    cache
}

/// Whether the listing holds an entry of the given name.
pub open spec fn file_known(name: Seq<char>, listing: Seq<Seq<char>>) -> bool {
    exists|i: int| 0 <= i < listing.len() && listing[i] == name
}

/// Whether every block's executable appears in the listing of the script
/// directory.
pub open spec fn all_files_known(blocks: Seq<ScriptBlockV>, listing: Seq<Seq<char>>) -> bool {
    forall|i: int| 0 <= i < blocks.len() ==> file_known(#[trigger] blocks[i].file_name, listing)
}

/// Whether some block both has its executable in the listing and names the
/// given watch root.
pub open spec fn any_watch_match(
    blocks: Seq<ScriptBlockV>,
    listing: Seq<Seq<char>>,
    watch: Seq<char>,
) -> bool {
    exists|i: int|
        0 <= i < blocks.len() && file_known(#[trigger] blocks[i].file_name, listing)
            && blocks[i].watch_path == watch
}

/// Every block loaded into its script descriptor, in order, each
/// executable resolved against the script folder.
pub open spec fn loaded_scripts(folder: Seq<char>, blocks: Seq<ScriptBlockV>) -> Seq<ScriptV> {
    blocks.map_values(|b: ScriptBlockV| loaded_script(folder, b))
}

/// The watch roots of the enabled blocks, in order.
pub open spec fn enabled_paths(blocks: Seq<ScriptBlockV>) -> Seq<Seq<char>>
    decreases blocks.len(),
{
    if blocks.len() == 0 {
        Seq::empty()
    } else {
        let prev = enabled_paths(blocks.drop_last());
        if blocks.last().enabled {
            prev.push(blocks.last().watch_path)
        } else {
            prev
        }
    }
}

/// The scripts bound to the given watch root, in order.
pub open spec fn filter_by_watch(ss: Seq<ScriptV>, watch: Seq<char>) -> Seq<ScriptV>
    decreases ss.len(),
{
    if ss.len() == 0 {
        Seq::empty()
    } else {
        let prev = filter_by_watch(ss.drop_last(), watch);
        if ss.last().watch_path == watch {
            prev.push(ss.last())
        } else {
            prev
        }
    }
}

/// Whether the listing holds an entry of the given name.
fn listing_contains(listing: &Vec<String>, name: &str) -> (r: bool)
    ensures
        r == file_known(name@, listing@.map_values(|s: String| s@)),
{
    let n: usize = listing.len();
    let ghost lv = listing@.map_values(|s: String| s@);
    let mut i: usize = 0;
    while i < n
        invariant
            i <= n,
            n == listing@.len(),
            lv == listing@.map_values(|s: String| s@),
            forall|j: int| 0 <= j < i ==> lv[j] != name@,
        decreases n - i,
    {
        if str_eq(listing[i].as_str(), name) {
            assert(lv[i as int] == name@);
            return true;
        }
        i = i + 1;
    }
    false
}

impl Scripts {
    /// Checks the configured blocks against the script directory: every
    /// named executable must appear in the directory's listing, and at
    /// least one block with a present executable must name the given
    /// watch root. On success every block is loaded into its descriptor.
    pub fn validate_scripts(
        watch_path: &String,
        unvalidated_scripts: Vec<ScriptBlock>,
        script_directory: &String,
        dir_listing: &Vec<String>,
    ) -> (r: Result<Vec<Script>, ScriptConfigError>)
        ensures
            ({
                let bv = blocks_view(unvalidated_scripts@);
                let lv = dir_listing@.map_values(|s: String| s@);
                match r {
                    Ok(v) => {
                        &&& any_watch_match(bv, lv, watch_path@)
                        &&& all_files_known(bv, lv)
                        &&& scripts_view(v@) == loaded_scripts(script_directory@, bv)
                    },
                    Err(e) => {
                        &&& !(any_watch_match(bv, lv, watch_path@) && all_files_known(bv, lv))
                        &&& e is IoError
                    },
                }
            }),
    {
        let ghost bv = blocks_view(unvalidated_scripts@);
        let ghost lv = dir_listing@.map_values(|s: String| s@);
        let n: usize = unvalidated_scripts.len();
        proof {
            assert(bv.len() == n);
        }
        let mut all_known = true;
        let mut any_match = false;
        let mut i: usize = 0;
        while i < n
            invariant
                i <= n,
                n == unvalidated_scripts@.len(),
                bv == blocks_view(unvalidated_scripts@),
                bv.len() == n,
                lv == dir_listing@.map_values(|s: String| s@),
                all_known == (forall|j: int|
                    0 <= j < i ==> file_known(#[trigger] bv[j].file_name, lv)),
                any_match == (exists|j: int|
                    0 <= j < i && file_known(#[trigger] bv[j].file_name, lv) && bv[j].watch_path
                        == watch_path@),
            decreases n - i,
        {
            let known = listing_contains(dir_listing, unvalidated_scripts[i].file_name.as_str());
            let matches_watch = str_eq(
                watch_path.as_str(),
                unvalidated_scripts[i].watch_path.as_str(),
            );
            proof {
                assert(bv[i as int] == unvalidated_scripts@[i as int]@);
                assert(known == file_known(bv[i as int].file_name, lv));
                assert(matches_watch == (watch_path@ == bv[i as int].watch_path));
            }
            if !known {
                all_known = false;
            }
            if known && matches_watch {
                any_match = true;
            }
            i = i + 1;
        }
        if !any_match {
            return Err(
                ScriptConfigError::IoError(
                    String::from_str("no scripts matched the provided watch paths"),
                ),
            );
        }
        if !all_known {
            let mut message = String::from_str("script validation error under ");
            message.append(script_directory.as_str());
            return Err(ScriptConfigError::IoError(message));
        }
        let mut v: Vec<Script> = Vec::new();
        let mut i: usize = 0;
        while i < n
            invariant
                i <= n,
                n == unvalidated_scripts@.len(),
                bv == blocks_view(unvalidated_scripts@),
                bv.len() == n,
                v@.len() == i,
                forall|j: int| 0 <= j < i ==> v@[j]@ == loaded_script(script_directory@, bv[j]),
            decreases n - i,
        {
            v.push(Script::from_block(&unvalidated_scripts[i], script_directory.as_str()));
            i = i + 1;
        }
        proof {
            assert(scripts_view(v@) =~= loaded_scripts(script_directory@, bv));
        }
        Ok(v)
    }

    /// The watch roots of the enabled blocks, each already confirmed by
    /// the caller to be an existing readable directory; the first enabled
    /// block whose root failed that check refuses the whole configuration.
    pub fn all_watch_paths(blocks: &Vec<ScriptBlock>, dir_ok: &Vec<bool>) -> (r: Result<
        Vec<String>,
        ScriptError,
    >)
        requires
            dir_ok@.len() == blocks@.len(),
        ensures
            ({
                let bv = blocks_view(blocks@);
                match r {
                    Ok(v) => {
                        &&& forall|i: int|
                            0 <= i < bv.len() ==> (#[trigger] bv[i].enabled) ==> dir_ok@[i]
                        &&& v@.map_values(|s: String| s@) == enabled_paths(bv)
                    },
                    Err(e) => {
                        &&& exists|i: int| 0 <= i < bv.len() && (#[trigger] bv[i].enabled) && !dir_ok@[i]
                        &&& e is ConfigError
                    },
                }
            }),
    {
        let ghost bv = blocks_view(blocks@);
        let n: usize = blocks.len();
        proof {
            assert(bv.len() == n);
        }
        let mut v: Vec<String> = Vec::new();
        let mut i: usize = 0;
        while i < n
            invariant
                i <= n,
                n == blocks@.len(),
                n == dir_ok@.len(),
                bv == blocks_view(blocks@),
                bv.len() == n,
                v@.map_values(|s: String| s@) == enabled_paths(bv.take(i as int)),
                forall|j: int| 0 <= j < i ==> (#[trigger] bv[j].enabled) ==> dir_ok@[j],
            decreases n - i,
        {
            proof {
                assert(bv[i as int] == blocks@[i as int]@);
                assert(bv.take(i + 1 as int).drop_last() =~= bv.take(i as int));
                assert(bv.take(i + 1 as int).last() == bv[i as int]);
            }
            if blocks[i].enabled {
                if !dir_ok[i] {
                    assert(bv[i as int].enabled && !dir_ok@[i as int]);
                    let mut message = String::from_str("error with a provided watch path: ");
                    message.append(blocks[i].watch_path.as_str());
                    return Err(ScriptError::ConfigError(ScriptConfigError::UnexpectedError(message)));
                }
                v.push(blocks[i].watch_path.clone());
                proof {
                    assert(v@.map_values(|s: String| s@) =~= enabled_paths(bv.take(i + 1 as int)));
                }
            } else {
                proof {
                    assert(v@.map_values(|s: String| s@) =~= enabled_paths(bv.take(i + 1 as int)));
                }
            }
            i = i + 1;
        }
        proof {
            assert(bv.take(n as int) =~= bv);
        }
        Ok(v)
    }

    /// Loads the script set of one watch root: validates the blocks
    /// against the script directory, keeps every configured root in
    /// `watch_paths`, and files the scripts bound to this root by
    /// triggering kind.
    pub fn by_watch_path(
        watch_path: &String,
        blocks: Vec<ScriptBlock>,
        script_directory: &String,
        dir_listing: &Vec<String>,
    ) -> (r: Result<Scripts, ScriptError>)
        ensures
            ({
                let bv = blocks_view(blocks@);
                let lv = dir_listing@.map_values(|s: String| s@);
                match r {
                    Ok(s) => {
                        &&& any_watch_match(bv, lv, watch_path@)
                        &&& all_files_known(bv, lv)
                        &&& s.watch_paths@.map_values(|p: String| p@) == bv.map_values(
                            |b: ScriptBlockV| b.watch_path,
                        )
                        &&& cache_matches(
                            s.scripts_by_event_triggers@,
                            filter_by_watch(
                                loaded_scripts(script_directory@, bv),
                                watch_path@,
                            ),
                        )
                    },
                    Err(e) => {
                        &&& !(any_watch_match(bv, lv, watch_path@) && all_files_known(
                            bv,
                            lv,
                        ))
                        &&& e is ConfigError
                    },
                }
            }),
    {
        let ghost bv = blocks_view(blocks@);
        let validated = match Self::validate_scripts(
            watch_path,
            blocks,
            script_directory,
            dir_listing,
        ) {
            Ok(v) => v,
            Err(e) => {
                return Err(ScriptError::ConfigError(e));
            },
        };
        let n: usize = validated.len();
        proof {
            assert(scripts_view(validated@).len() == n);
            assert(loaded_scripts(script_directory@, bv).len() == bv.len());
        }
        let mut watch_paths: Vec<String> = Vec::new();
        let mut i: usize = 0;
        while i < n
            invariant
                i <= n,
                n == validated@.len(),
                scripts_view(validated@) == loaded_scripts(script_directory@, bv),
                bv.len() == n,
                watch_paths@.len() == i,
                forall|j: int| 0 <= j < i ==> watch_paths@[j]@ == bv[j].watch_path,
            decreases n - i,
        {
            assert(validated@[i as int]@ == loaded_scripts(script_directory@, bv)[i as int]);
            assert(loaded_scripts(script_directory@, bv)[i as int] == loaded_script(
                script_directory@,
                bv[i as int],
            ));
            watch_paths.push(validated[i].watch_path.clone());
            i = i + 1;
        }
        proof {
            assert(loaded_scripts(script_directory@, bv).len() == bv.len());
            assert(watch_paths@.map_values(|p: String| p@) =~= bv.map_values(
                |b: ScriptBlockV| b.watch_path,
            ));
        }
        let ghost vv = scripts_view(validated@);
        let mut filtered: Vec<Script> = Vec::new();
        let mut i: usize = 0;
        while i < n
            invariant
                i <= n,
                n == validated@.len(),
                vv == scripts_view(validated@),
                scripts_view(filtered@) == filter_by_watch(vv.take(i as int), watch_path@),
            decreases n - i,
        {
            proof {
                assert(vv.take(i + 1 as int).drop_last() =~= vv.take(i as int));
                assert(vv.take(i + 1 as int).last() == vv[i as int]);
            }
            if str_eq(validated[i].watch_path.as_str(), watch_path.as_str()) {
                filtered.push(validated[i].clone());
                proof {
                    assert(scripts_view(filtered@) =~= filter_by_watch(
                        vv.take(i + 1 as int),
                        watch_path@,
                    ));
                }
            } else {
                proof {
                    assert(scripts_view(filtered@) =~= filter_by_watch(
                        vv.take(i + 1 as int),
                        watch_path@,
                    ));
                }
            }
            i = i + 1;
        }
        proof {
            assert(vv.take(n as int) =~= vv);
        }
        let scripts_by_event_triggers = cache_scripts_by_events(&filtered);
        Ok(Scripts { scripts_by_event_triggers, watch_paths })
    }

    /// The scripts filed under the given kind tag; none when the kind has
    /// no entry.
    pub fn get_by_event(&self, event_kind: &EventKind) -> (r: Vec<Script>)
        ensures
            ({
                let key = kind_key(*event_kind) as u64;
                if self.scripts_by_event_triggers@.contains_key(key) {
                    scripts_view(r@) == scripts_view(self.scripts_by_event_triggers@[key]@)
                } else {
                    r@.len() == 0
                }
            }),
    {
        let key = event_kind_key(event_kind);
        match self.scripts_by_event_triggers.get(&key) {
            Some(scripts) => clone_script_vec(scripts),
            None => Vec::new(),
        }
    }
}

} // verus!
