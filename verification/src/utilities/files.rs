//! Questions over a directory listing, asked of the entry names alone. The
//! process around the library reads the directory and hands the names in.

use vstd::prelude::*;

verus! {

/// Whether the name carries the given extension: the text after the last
/// dot, which must not be the leading character.
pub open spec fn has_extension(name: Seq<char>, ext: Seq<char>) -> bool {
    exists|i: int|
        {
            &&& 1 <= i < name.len()
            &&& #[trigger] name[i] == '.'
            &&& forall|j: int| i < j < name.len() ==> name[j] != '.'
            &&& name.subrange(i + 1, name.len() as int) == ext
        }
}

/// Whether the entry name ends in the given extension.
pub fn extension_matches(name: &str, ext: &str) -> (r: bool)
    ensures
        r == has_extension(name@, ext@),
{
    let n: usize = name.unicode_len();
    let mut i: usize = n;
    while i > 0
        invariant
            i <= n,
            n == name@.len(),
            forall|j: int| i <= j < n ==> name@[j] != '.',
        decreases i,
    {
        i = i - 1;
        if name.get_char(i) == '.' {
            if i == 0 {
                assert(forall|k: int|
                    1 <= k < name@.len() ==> name@[k] == '.' ==> !(forall|j: int|
                        k < j < name@.len() ==> name@[j] != '.') || name@[k] != '.');
                assert(!has_extension(name@, ext@));
                return false;
            }
            let mut j: usize = i + 1;
            let en: usize = ext.unicode_len();
            if n - j != en {
                assert(name@.subrange(i + 1, n as int).len() != ext@.len());
                assert(!has_extension(name@, ext@));
                return false;
            }
            let mut k: usize = 0;
            while k < en
                invariant
                    k <= en,
                    en == ext@.len(),
                    n == name@.len(),
                    1 <= i < n,
                    name@[i as int] == '.',
                    forall|j2: int| i < j2 < n ==> name@[j2] != '.',
                    n - (i + 1) == en,
                    forall|j2: int| 0 <= j2 < k ==> name@[i + 1 + j2] == ext@[j2],
                decreases en - k,
            {
                if name.get_char(i + 1 + k) != ext.get_char(k) {
                    assert(name@.subrange(i + 1, n as int)[k as int] != ext@[k as int]);
                    assert(!has_extension(name@, ext@));
                    return false;
                }
                k = k + 1;
            }
            assert(name@.subrange(i + 1, n as int) =~= ext@);
            assert(has_extension(name@, ext@));
            return true;
        }
    }
    assert(forall|j: int| 0 <= j < name@.len() ==> name@[j] != '.');
    assert(!has_extension(name@, ext@));
    false
}

/// Whether any entry of the listing carries the given extension.
pub fn dir_contains_file_type(dir: &Vec<String>, extension: &String) -> (r: bool)
    ensures
        r == exists|k: int|
            0 <= k < dir@.len() && has_extension(#[trigger] dir@[k]@, extension@),
{
    let n: usize = dir.len();
    let mut i: usize = 0;
    while i < n
        invariant
            i <= n,
            n == dir@.len(),
            forall|k: int| 0 <= k < i ==> !has_extension(#[trigger] dir@[k]@, extension@),
        decreases n - i,
    {
        if extension_matches(dir[i].as_str(), extension.as_str()) {
            return true;
        }
        i = i + 1;
    }
    false
}

/// The first entry of the listing that carries the given extension, if any.
pub fn get_first_of_file_type(dir: &Vec<String>, extension: &String) -> (r: Option<String>)
    ensures
        match r {
            Some(f) => exists|k: int|
                {
                    &&& 0 <= k < dir@.len()
                    &&& f@ == #[trigger] dir@[k]@
                    &&& has_extension(dir@[k]@, extension@)
                    &&& forall|j: int| 0 <= j < k ==> !has_extension(#[trigger] dir@[j]@, extension@)
                },
            None => forall|k: int|
                0 <= k < dir@.len() ==> !has_extension(#[trigger] dir@[k]@, extension@),
        },
{
    let n: usize = dir.len();
    let mut i: usize = 0;
    while i < n
        invariant
            i <= n,
            n == dir@.len(),
            forall|k: int| 0 <= k < i ==> !has_extension(#[trigger] dir@[k]@, extension@),
        decreases n - i,
    {
        if extension_matches(dir[i].as_str(), extension.as_str()) {
            let found = dir[i].clone();
            return Some(found);
        }
        i = i + 1;
    }
    None
}

/// The concatenation of the segments, exactly as written.
pub open spec fn concat_all(parts: Seq<Seq<char>>) -> Seq<char>
    decreases parts.len(),
{
    if parts.len() == 0 {
        Seq::empty()
    } else {
        concat_all(parts.drop_last()) + parts.last()
    }
}

/// The segments joined with a slash between each pair.
pub open spec fn join_slash(parts: Seq<Seq<char>>) -> Seq<char>
    decreases parts.len(),
{
    if parts.len() == 0 {
        Seq::empty()
    } else if parts.len() == 1 {
        parts[0]
    } else {
        join_slash(parts.drop_last()) + seq!['/'] + parts.last()
    }
}

/// Glues path segments together with no separator, for display in
/// diagnostics about paths that never existed.
pub fn format_unvalidated_path(segments: &Vec<String>) -> (r: String)
    ensures
        r@ == concat_all(segments@.map_values(|s: String| s@)),
{
    let n: usize = segments.len();
    let mut out = String::new();
    let mut i: usize = 0;
    while i < n
        invariant
            i <= n,
            n == segments@.len(),
            out@ == concat_all(segments@.map_values(|s: String| s@).take(i as int)),
        decreases n - i,
    {
        let ghost parts = segments@.map_values(|s: String| s@);
        assert(parts.take(i + 1 as int).drop_last() =~= parts.take(i as int));
        assert(parts.take(i + 1 as int).last() == parts[i as int]);
        out.append(segments[i].as_str());
        i = i + 1;
    }
    assert(segments@.map_values(|s: String| s@).take(n as int) =~= segments@.map_values(
        |s: String| s@,
    ));
    out
}

/// Joins path segments with slashes.
pub fn build_path(segments: &Vec<String>) -> (r: String)
    ensures
        r@ == join_slash(segments@.map_values(|s: String| s@)),
{
    let n: usize = segments.len();
    let mut out = String::new();
    let mut i: usize = 0;
    while i < n
        invariant
            i <= n,
            n == segments@.len(),
            out@ == join_slash(segments@.map_values(|s: String| s@).take(i as int)),
        decreases n - i,
    {
        let ghost parts = segments@.map_values(|s: String| s@);
        assert(parts.take(i + 1 as int).drop_last() =~= parts.take(i as int));
        assert(parts.take(i + 1 as int).last() == parts[i as int]);
        if i > 0 {
            out.append("/");
            proof {
                reveal_strlit("/");
                assert("/"@ =~= seq!['/']);
            }
        }
        out.append(segments[i].as_str());
        i = i + 1;
    }
    assert(segments@.map_values(|s: String| s@).take(n as int) =~= segments@.map_values(
        |s: String| s@,
    ));
    out
}

} // verus!
