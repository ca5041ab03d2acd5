//! The selective-touch policy: which entries of a walked tree get their
//! modification time reset, which are left alone, and which are deleted.
//!
//! A path is handled as its sequence of components, each component a
//! sequence of bytes; the caller that walks the real tree hands every
//! visited entry's components and kind in, and carries the returned action
//! out (delete the entry, reset its modification time to now, or skip it).

use vstd::prelude::*;

verus! {

/// What kind of filesystem object an entry is.
#[derive(Clone, Copy, Debug, PartialEq, Eq, Structural)]
pub enum EntryKind {
    RegularFile,
    Directory,
    Other,
}

/// What the walk does with one visited entry.
#[derive(Clone, Copy, Debug, PartialEq, Eq, Structural)]
pub enum TouchAction {
    /// The entry is a build-cache marker: delete it.
    DeleteCache,
    /// The entry matches the inclusion policy: reset its modification time
    /// to the current time.
    Touch,
    /// Leave the entry exactly as it is.
    Skip,
}

/// The inclusion decision for one entry, with the reason when it is
/// rejected.
#[derive(Clone, Copy, Debug, PartialEq, Eq, Structural)]
pub enum IncludeDecision {
    /// The entry's modification time is to be reset.
    Accepted,
    /// Some component of the path names the reserved build-output
    /// directory; everything under it keeps its real timestamps.
    RejectedReservedDir,
    /// Only regular files are touched.
    RejectedNotRegularFile,
    /// The file name does not carry the compilable-source extension.
    RejectedExtension,
    /// The file is the distinguished build-script file, which must keep its
    /// timestamp so no rebuild-script cascade is triggered.
    RejectedBuildScript,
}

/// The reserved build-output directory name: `target`.
pub open spec fn reserved_dir_name() -> Seq<u8> {
    seq![116u8, 97u8, 114u8, 103u8, 101u8, 116u8]
}

/// The compilable-source extension: `rs`.
pub open spec fn source_extension() -> Seq<u8> {
    seq![114u8, 115u8]
}

/// The distinguished build-script file name: `build.rs`.
pub open spec fn build_script_name() -> Seq<u8> {
    seq![98u8, 117u8, 105u8, 108u8, 100u8, 46u8, 114u8, 115u8]
}

/// The build-cache marker file name: `CMakeCache.txt`.
pub open spec fn cache_marker_name() -> Seq<u8> {
    seq![67u8, 77u8, 97u8, 107u8, 101u8, 67u8, 97u8, 99u8, 104u8, 101u8, 46u8, 116u8, 120u8, 116u8]
}

/// A path as the caller's walk reports it: its components in order, each as
/// its bytes.
pub open spec fn components_view(path: Vec<Vec<u8>>) -> Seq<Seq<u8>> {
    Seq::new(path@.len(), |i: int| path@[i]@)
}

/// Index `i` holds the last dot of the name.
pub open spec fn is_final_dot(name: Seq<u8>, i: int) -> bool {
    &&& 0 <= i < name.len()
    &&& name[i] == 46u8
    &&& forall|j: int| i < j < name.len() ==> name[j] != 46u8
}

/// The extension of a file name: whatever follows the last dot, or nothing
/// when there is no dot or the only role of the dot is to lead a hidden
/// file's name (a dot in first position).
pub open spec fn extension_of(name: Seq<u8>) -> Option<Seq<u8>> {
    if exists|i: int| is_final_dot(name, i) {
        let i = choose|i: int| is_final_dot(name, i);
        if i > 0 {
            Some(name.subrange(i + 1, name.len() as int))
        } else {
            None
        }
    } else {
        None
    }
}

/// Some component of the path names the reserved build-output directory.
pub open spec fn under_reserved_dir(path: Seq<Seq<u8>>) -> bool {
    exists|i: int| 0 <= i < path.len() && path[i] == reserved_dir_name()
}

/// The inclusion decision: reject everything under the reserved
/// build-output directory, then accept exactly the regular files that carry
/// the compilable-source extension and are not the distinguished
/// build-script file.
pub open spec fn spec_include_decision(path: Seq<Seq<u8>>, kind: EntryKind) -> IncludeDecision {
    if under_reserved_dir(path) {
        IncludeDecision::RejectedReservedDir
    } else if kind != EntryKind::RegularFile {
        IncludeDecision::RejectedNotRegularFile
    } else if path.len() == 0 || extension_of(path.last()) != Some(source_extension()) {
        IncludeDecision::RejectedExtension
    } else if path.last() == build_script_name() {
        IncludeDecision::RejectedBuildScript
    } else {
        IncludeDecision::Accepted
    }
}

/// The entry is one whose modification time the walk resets.
pub open spec fn is_included(path: Seq<Seq<u8>>, kind: EntryKind) -> bool {
    spec_include_decision(path, kind) == IncludeDecision::Accepted
}

/// What the walk does with an entry: a build-cache marker is deleted,
/// whatever else holds of its path; an included entry is touched; anything
/// else is left alone.
pub open spec fn spec_entry_action(path: Seq<Seq<u8>>, kind: EntryKind) -> TouchAction {
    if path.len() > 0 && path.last() == cache_marker_name() {
        TouchAction::DeleteCache
    } else if is_included(path, kind) {
        TouchAction::Touch
    } else {
        TouchAction::Skip
    }
}

/// Two last dots of one name stand at the same index.
proof fn lemma_final_dot_unique(name: Seq<u8>, i: int, j: int)
    requires
        is_final_dot(name, i),
        is_final_dot(name, j),
    ensures
        i == j,
{
    if i < j {
        assert(name[j] != 46u8);
    }
    if j < i {
        assert(name[i] != 46u8);
    }
}

/// Knowing where the last dot stands settles the extension.
proof fn lemma_extension_at_dot(name: Seq<u8>, d: int)
    requires
        is_final_dot(name, d),
    ensures
        d > 0 ==> extension_of(name) == Some(name.subrange(d + 1, name.len() as int)),
        d == 0 ==> extension_of(name) is None,
{
    let c = choose|i: int| is_final_dot(name, i);
    lemma_final_dot_unique(name, c, d);
}

/// A name without a dot has no extension.
proof fn lemma_no_dot_no_extension(name: Seq<u8>)
    requires
        forall|i: int| 0 <= i < name.len() ==> name[i] != 46u8,
    ensures
        extension_of(name) is None,
{
    if exists|i: int| is_final_dot(name, i) {
        let c = choose|i: int| is_final_dot(name, i);
        assert(name[c] == 46u8);
        assert(false);
    }
}

/// The reserved build-output directory name, as bytes.
pub fn reserved_dir_bytes() -> (v: Vec<u8>)
    ensures
        v@ == reserved_dir_name(),
{
    let v: Vec<u8> = vec![116u8, 97u8, 114u8, 103u8, 101u8, 116u8];
    proof {
        assert(v@ =~= reserved_dir_name());
    }
    v
}

/// The compilable-source extension, as bytes.
pub fn source_extension_bytes() -> (v: Vec<u8>)
    ensures
        v@ == source_extension(),
{
    let v: Vec<u8> = vec![114u8, 115u8];
    proof {
        assert(v@ =~= source_extension());
    }
    v
}

/// The distinguished build-script file name, as bytes.
pub fn build_script_bytes() -> (v: Vec<u8>)
    ensures
        v@ == build_script_name(),
{
    let v: Vec<u8> = vec![98u8, 117u8, 105u8, 108u8, 100u8, 46u8, 114u8, 115u8];
    proof {
        assert(v@ =~= build_script_name());
    }
    v
}

/// The build-cache marker file name, as bytes.
pub fn cache_marker_bytes() -> (v: Vec<u8>)
    ensures
        v@ == cache_marker_name(),
{
    let v: Vec<u8> = vec![
        67u8, 77u8, 97u8, 107u8, 101u8, 67u8, 97u8, 99u8, 104u8, 101u8, 46u8, 116u8, 120u8, 116u8,
    ];
    proof {
        assert(v@ =~= cache_marker_name());
    }
    v
}

/// Byte-for-byte equality of two components.
pub fn bytes_eq(a: &Vec<u8>, b: &Vec<u8>) -> (r: bool)
    ensures
        r == (a@ == b@),
{
    if a.len() != b.len() {
        return false;
    }
    let mut i: usize = 0;
    while i < a.len()
        invariant
            i <= a@.len(),
            a@.len() == b@.len(),
            forall|k: int| 0 <= k < i ==> a@[k] == b@[k],
        decreases a@.len() - i,
    {
        if a[i] != b[i] {
            return false;
        }
        i = i + 1;
    }
    proof {
        assert(a@ =~= b@);
    }
    true
}

/// Does the name's extension equal `ext`?
pub fn extension_matches(name: &Vec<u8>, ext: &Vec<u8>) -> (r: bool)
    ensures
        r == (extension_of(name@) == Some(ext@)),
{
    let n = name.len();
    let mut j: usize = n;
    while j > 0
        invariant
            j <= n,
            n == name@.len(),
            forall|k: int| j <= k < n ==> name@[k] != 46u8,
        decreases j,
    {
        if name[j - 1] == 46u8 {
            let d = j - 1;
            proof {
                assert(is_final_dot(name@, d as int));
                lemma_extension_at_dot(name@, d as int);
            }
            if d == 0 {
                return false;
            }
            if n - (d + 1) != ext.len() {
                return false;
            }
            let m = ext.len();
            let mut t: usize = 0;
            while t < m
                invariant
                    t <= m,
                    m == ext@.len(),
                    n == name@.len(),
                    0 < d + 1 <= n,
                    n - (d + 1) == m,
                    forall|k: int| 0 <= k < t ==> name@[d + 1 + k] == ext@[k],
                decreases m - t,
            {
                if name[d + 1 + t] != ext[t] {
                    proof {
                        assert(name@.subrange(d as int + 1, n as int)[t as int] != ext@[t as int]);
                    }
                    return false;
                }
                t = t + 1;
            }
            proof {
                assert(name@.subrange(d as int + 1, n as int) =~= ext@);
            }
            return true;
        }
        j = j - 1;
    }
    proof {
        lemma_no_dot_no_extension(name@);
    }
    false
}

/// The inclusion decision for one entry, with the reason when it is
/// rejected.
pub fn include_decision(path: &Vec<Vec<u8>>, kind: EntryKind) -> (d: IncludeDecision)
    ensures
        d == spec_include_decision(components_view(*path), kind),
{
    let ghost p = components_view(*path);
    let reserved = reserved_dir_bytes();
    let mut i: usize = 0;
    while i < path.len()
        invariant
            i <= path@.len(),
            p == components_view(*path),
            reserved@ == reserved_dir_name(),
            forall|k: int| 0 <= k < i ==> p[k] != reserved_dir_name(),
        decreases path@.len() - i,
    {
        if bytes_eq(&path[i], &reserved) {
            proof {
                assert(p[i as int] == reserved_dir_name());
            }
            return IncludeDecision::RejectedReservedDir;
        }
        i = i + 1;
    }
    proof {
        assert(!under_reserved_dir(p));
    }
    match kind {
        EntryKind::RegularFile => {},
        _ => {
            return IncludeDecision::RejectedNotRegularFile;
        },
    }
    if path.len() == 0 {
        return IncludeDecision::RejectedExtension;
    }
    let name = &path[path.len() - 1];
    proof {
        assert(name@ == p.last());
    }
    let ext = source_extension_bytes();
    if !extension_matches(name, &ext) {
        return IncludeDecision::RejectedExtension;
    }
    let script = build_script_bytes();
    if bytes_eq(name, &script) {
        return IncludeDecision::RejectedBuildScript;
    }
    IncludeDecision::Accepted
}

/// The entry matches the inclusion policy.
pub fn entry_included(path: &Vec<Vec<u8>>, kind: EntryKind) -> (r: bool)
    ensures
        r == is_included(components_view(*path), kind),
{
    match include_decision(path, kind) {
        IncludeDecision::Accepted => true,
        _ => false,
    }
}

/// What the walk does with one visited entry.
pub fn entry_action(path: &Vec<Vec<u8>>, kind: EntryKind) -> (a: TouchAction)
    ensures
        a == spec_entry_action(components_view(*path), kind),
{
    if path.len() > 0 {
        let marker = cache_marker_bytes();
        if bytes_eq(&path[path.len() - 1], &marker) {
            proof {
                assert(components_view(*path).last() == cache_marker_name());
            }
            return TouchAction::DeleteCache;
        }
    }
    if entry_included(path, kind) {
        TouchAction::Touch
    } else {
        TouchAction::Skip
    }
}

/// One visited entry of a walked tree, as the caller reports it.
pub struct WalkEntry {
    /// The entry's path components, from the walk's root downward, the
    /// root's own components included.
    pub path: Vec<Vec<u8>>,
    /// What kind of filesystem object the entry is.
    pub kind: EntryKind,
}

/// The actions for a whole walk, entry by entry, in the walk's order.
/// Nothing under the reserved build-output directory and no build-script
/// file is ever touched, and every build-cache marker is deleted.
pub fn touch_plan(entries: &Vec<WalkEntry>) -> (plan: Vec<TouchAction>)
    ensures
        plan@.len() == entries@.len(),
        forall|i: int|
            0 <= i < entries@.len() ==> plan@[i] == spec_entry_action(
                components_view(entries@[i].path),
                entries@[i].kind,
            ),
        forall|i: int|
            0 <= i < entries@.len() && under_reserved_dir(components_view(entries@[i].path))
                ==> plan@[i] != TouchAction::Touch,
        forall|i: int|
            0 <= i < entries@.len() && components_view(entries@[i].path).len() > 0
                && components_view(entries@[i].path).last() == build_script_name()
                ==> plan@[i] == TouchAction::Skip,
        forall|i: int|
            0 <= i < entries@.len() && components_view(entries@[i].path).len() > 0
                && components_view(entries@[i].path).last() == cache_marker_name()
                ==> plan@[i] == TouchAction::DeleteCache,
{
    let mut plan: Vec<TouchAction> = Vec::new();
    let mut i: usize = 0;
    while i < entries.len()
        invariant
            i <= entries@.len(),
            plan@.len() == i,
            forall|k: int|
                0 <= k < i ==> plan@[k] == spec_entry_action(
                    components_view(entries@[k].path),
                    entries@[k].kind,
                ),
        decreases entries@.len() - i,
    {
        let a = entry_action(&entries[i].path, entries[i].kind);
        plan.push(a);
        i = i + 1;
    }
    proof {
        assert forall|k: int|
            0 <= k < entries@.len() && under_reserved_dir(components_view(entries@[k].path))
                implies plan@[k] != TouchAction::Touch by {
            lemma_reserved_dir_never_touched(components_view(entries@[k].path), entries@[k].kind);
        }
        assert forall|k: int|
            0 <= k < entries@.len() && components_view(entries@[k].path).len() > 0
                && components_view(entries@[k].path).last() == build_script_name()
                implies plan@[k] == TouchAction::Skip by {
            lemma_build_script_left_alone(components_view(entries@[k].path), entries@[k].kind);
        }
    }
    plan
}

/// A path that passes through the reserved build-output directory is never
/// touched, whatever the entry's kind, name or extension.
pub proof fn lemma_reserved_dir_never_touched(path: Seq<Seq<u8>>, kind: EntryKind)
    requires
        under_reserved_dir(path),
    ensures
        spec_entry_action(path, kind) != TouchAction::Touch,
{
}

/// The distinguished build-script file is never touched, even though it
/// carries the compilable-source extension; it is not deleted either.
pub proof fn lemma_build_script_left_alone(path: Seq<Seq<u8>>, kind: EntryKind)
    requires
        path.len() > 0,
        path.last() == build_script_name(),
    ensures
        spec_entry_action(path, kind) == TouchAction::Skip,
{
    assert(build_script_name().len() != cache_marker_name().len());
}

/// Every entry named as the build-cache marker is deleted, whatever else
/// holds of its path or kind.
pub proof fn lemma_cache_marker_always_deleted(path: Seq<Seq<u8>>, kind: EntryKind)
    requires
        path.len() > 0,
        path.last() == cache_marker_name(),
    ensures
        spec_entry_action(path, kind) == TouchAction::DeleteCache,
{
}

} // verus!
