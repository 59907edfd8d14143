//! Output-path resolution: derives a per-project subdirectory from the input
//! file's base name and joins it onto the caller-chosen base directory.
//!
//! Paths are handled as their UTF-8 bytes; the byte values of `/` and `.`
//! are unambiguous in UTF-8, so byte-level scanning is sound for any path.
//! Callers hand over the bytes of platform strings, which are valid UTF-8;
//! on other byte content the derived label is the raw stem bytes — no
//! UTF-8 repair is attempted at this level.
use vstd::prelude::*;

verus! {

pub const SLASH: u8 = 47;

pub const DOT: u8 = 46;

/// The subdirectory label used when an input path has no extractable
/// base name: the bytes of the word "output".
pub open spec fn fallback_label() -> Seq<u8> {
    seq![111u8, 117u8, 116u8, 112u8, 117u8, 116u8]
}

/// Builds the fallback subdirectory label as bytes.
pub fn fallback_label_bytes() -> (r: Vec<u8>)
    ensures
        r@ == fallback_label(),
{
    let mut v: Vec<u8> = Vec::new();
    v.push(111);
    v.push(117);
    v.push(116);
    v.push(112);
    v.push(117);
    v.push(116);
    proof {
        assert(v@ =~= fallback_label());
    }
    v
}

/// The suffix of `s` after its last separator byte (all of `s` if none).
pub open spec fn after_last_slash(s: Seq<u8>) -> Seq<u8>
    decreases s.len(),
{
    if s.len() == 0 {
        Seq::<u8>::empty()
    } else if s[s.len() - 1] == SLASH {
        Seq::<u8>::empty()
    } else {
        after_last_slash(s.drop_last()).push(s[s.len() - 1])
    }
}

/// The file name of a path: the last real component. Trailing separators
/// and trailing `.` components (the current directory) are ignored, as the
/// platform's path model ignores them.
pub open spec fn file_name_of(path: Seq<u8>) -> Seq<u8>
    decreases path.len(),
{
    if path.len() == 0 {
        path
    } else if path[path.len() - 1] == SLASH {
        file_name_of(path.drop_last())
    } else if path[path.len() - 1] == DOT && (path.len() == 1 || path[path.len() - 2] == SLASH) {
        file_name_of(path.drop_last())
    } else {
        after_last_slash(path)
    }
}

/// A name from which a project label can be derived: non-empty and not one
/// of the relative components `.` and `..`.
pub open spec fn is_base_name(name: Seq<u8>) -> bool {
    name.len() > 0 && name != seq![DOT] && name != seq![DOT, DOT]
}

/// Index of the last `.` byte in `name`, or -1 if there is none.
pub open spec fn last_dot_index(name: Seq<u8>) -> int
    decreases name.len(),
{
    if name.len() == 0 {
        -1
    } else if name[name.len() - 1] == DOT {
        name.len() - 1
    } else {
        last_dot_index(name.drop_last())
    }
}

/// The name without its extension: everything before the last `.`, except
/// that a `.` in the leading position (a hidden file) is kept.
pub open spec fn stem_of_name(name: Seq<u8>) -> Seq<u8> {
    let j = last_dot_index(name);
    if j > 0 {
        name.take(j)
    } else {
        name
    }
}

/// The project subdirectory label derived from an input path: the input's
/// file name without extension, or the fallback label when the path has no
/// extractable base name.
pub open spec fn project_label(input_path: Seq<u8>) -> Seq<u8> {
    let name = file_name_of(input_path);
    if is_base_name(name) {
        stem_of_name(name)
    } else {
        fallback_label()
    }
}

/// Joining a file name onto a base directory: a separator is inserted
/// unless the base is empty or already ends with one.
pub open spec fn joined(base: Seq<u8>, name: Seq<u8>) -> Seq<u8> {
    if base.len() == 0 {
        name
    } else if base[base.len() - 1] == SLASH {
        base + name
    } else {
        base + seq![SLASH] + name
    }
}

proof fn lemma_last_dot_index_range(name: Seq<u8>)
    ensures
        -1 <= last_dot_index(name) < name.len(),
    decreases name.len(),
{
    if name.len() == 0 {
    } else if name[name.len() - 1] == DOT {
    } else {
        lemma_last_dot_index_range(name.drop_last());
    }
}

proof fn lemma_after_last_slash_no_slash(s: Seq<u8>)
    ensures
        forall|i: int| 0 <= i < after_last_slash(s).len() ==> after_last_slash(s)[i] != SLASH,
    decreases s.len(),
{
    if s.len() == 0 {
    } else if s[s.len() - 1] == SLASH {
    } else {
        lemma_after_last_slash_no_slash(s.drop_last());
        let a = after_last_slash(s);
        let b = after_last_slash(s.drop_last());
        assert(a == b.push(s[s.len() - 1]));
        assert forall|i: int| 0 <= i < a.len() implies a[i] != SLASH by {
            if i < b.len() {
                assert(a[i] == b[i]);
            } else {
                assert(a[i] == s[s.len() - 1]);
            }
        }
    }
}

proof fn lemma_file_name_no_slash(s: Seq<u8>)
    ensures
        forall|i: int| 0 <= i < file_name_of(s).len() ==> file_name_of(s)[i] != SLASH,
    decreases s.len(),
{
    if s.len() == 0 {
    } else if s[s.len() - 1] == SLASH || (s[s.len() - 1] == DOT && (s.len() == 1 || s[s.len()
        - 2] == SLASH)) {
        lemma_file_name_no_slash(s.drop_last());
        assert forall|i: int| 0 <= i < file_name_of(s).len() implies file_name_of(s)[i]
            != SLASH by {
            assert(file_name_of(s.drop_last())[i] != SLASH);
        }
    } else {
        lemma_after_last_slash_no_slash(s);
    }
}

/// The derived project label is a non-empty single path component.
pub proof fn lemma_project_label_component(input_path: Seq<u8>)
    ensures
        project_label(input_path).len() > 0,
        forall|i: int|
            0 <= i < project_label(input_path).len() ==> project_label(input_path)[i] != SLASH,
{
    let name = file_name_of(input_path);
    lemma_file_name_no_slash(input_path);
    let label = project_label(input_path);
    if is_base_name(name) {
        let j = last_dot_index(name);
        lemma_last_dot_index_range(name);
        assert forall|i: int| 0 <= i < label.len() implies label[i] != SLASH by {
            if j > 0 {
                assert(label[i] == name[i]);
            }
            assert(file_name_of(input_path)[i] != SLASH);
        }
    } else {
        assert forall|i: int| 0 <= i < label.len() implies label[i] != SLASH by {
            assert(fallback_label().len() == 6);
            assert(fallback_label()[0] != SLASH);
            assert(fallback_label()[1] != SLASH);
            assert(fallback_label()[2] != SLASH);
            assert(fallback_label()[3] != SLASH);
            assert(fallback_label()[4] != SLASH);
            assert(fallback_label()[5] != SLASH);
        }
    }
}

/// The resolved output location of one invocation: the caller-chosen base
/// directory, the derived project subdirectory, and their join.
pub struct ResolvedOutputPath {
    pub base_dir: Vec<u8>,
    pub project_subdir: Vec<u8>,
    pub full_path: Vec<u8>,
}

impl ResolvedOutputPath {
    /// Well-formedness: the subdirectory is a non-empty, separator-free
    /// single component and the full path is the join of the two parts.
    pub open spec fn wf(self) -> bool {
        &&& self.project_subdir@.len() > 0
        &&& forall|i: int|
            0 <= i < self.project_subdir@.len() ==> self.project_subdir@[i] != SLASH
        &&& self.full_path@ == joined(self.base_dir@, self.project_subdir@)
    }
}

/// A well-formed resolved path is a strict descendant of its base directory:
/// strictly longer, with the base as a prefix, and (when the base does not
/// already end in a separator) a separator right after it.
pub proof fn lemma_full_path_strict_descendant(r: ResolvedOutputPath)
    requires
        r.wf(),
    ensures
        r.full_path@.len() > r.base_dir@.len(),
        r.full_path@.subrange(0, r.base_dir@.len() as int) == r.base_dir@,
        r.base_dir@.len() > 0 && r.base_dir@[r.base_dir@.len() - 1] != SLASH
            ==> r.full_path@[r.base_dir@.len() as int] == SLASH,
{
    let base = r.base_dir@;
    let sub = r.project_subdir@;
    if base.len() == 0 {
        assert(r.full_path@.subrange(0, 0) =~= base);
    } else if base[base.len() - 1] == SLASH {
        assert((base + sub).subrange(0, base.len() as int) =~= base);
    } else {
        assert((base + seq![SLASH] + sub).subrange(0, base.len() as int) =~= base);
    }
}

/// Joins one component onto a base path.
pub fn join_path(base: &[u8], name: &[u8]) -> (r: Vec<u8>)
    ensures
        r@ == joined(base@, name@),
{
    let mut r = vstd::slice::slice_to_vec(base);
    if base.len() > 0 && base[base.len() - 1] != SLASH {
        r.push(SLASH);
        proof {
            assert(r@ =~= base@ + seq![SLASH]);
        }
    }
    let mut tail = vstd::slice::slice_to_vec(name);
    r.append(&mut tail);
    proof {
        assert(r@ =~= joined(base@, name@));
    }
    r
}

/// Derives the project subdirectory from the input path's file name and
/// joins it onto the output base directory.
pub fn resolve_output_paths(input_path: &[u8], output_base_dir: &[u8]) -> (r: ResolvedOutputPath)
    ensures
        r.base_dir@ == output_base_dir@,
        r.project_subdir@ == project_label(input_path@),
        r.full_path@ == joined(output_base_dir@, project_label(input_path@)),
        r.wf(),
{
    let subdir = derive_project_label(input_path);
    let full_path = join_path(output_base_dir, subdir.as_slice());
    proof {
        lemma_project_label_component(input_path@);
    }
    ResolvedOutputPath {
        base_dir: vstd::slice::slice_to_vec(output_base_dir),
        project_subdir: subdir,
        full_path,
    }
}

/// Derives the project subdirectory label alone: the input's file name
/// without extension, or the fallback label.
pub fn derive_project_label(input_path: &[u8]) -> (r: Vec<u8>)
    ensures
        r@ == project_label(input_path@),
{
    // Ignore trailing separators and trailing `.` components.
    let mut end: usize = input_path.len();
    proof {
        assert(input_path@.take(end as int) =~= input_path@);
    }
    while end > 0 && (input_path[end - 1] == SLASH || (input_path[end - 1] == DOT && (end == 1
        || input_path[end - 2] == SLASH)))
        invariant
            end <= input_path.len(),
            file_name_of(input_path@) == file_name_of(input_path@.take(end as int)),
        decreases end,
    {
        proof {
            assert(input_path@.take(end as int).drop_last() =~= input_path@.take(end - 1));
            assert(input_path@.take(end as int)[end - 1] == input_path@[end - 1]);
            if end >= 2 {
                assert(input_path@.take(end as int)[end - 2] == input_path@[end - 2]);
            }
        }
        end = end - 1;
    }
    let ghost t = input_path@.take(end as int);
    proof {
        // Neither trimming case applies any more, so the file name is the
        // suffix after the last separator of what is left.
        if end > 0 {
            assert(t[end - 1] == input_path@[end - 1]);
            if end >= 2 {
                assert(t[end - 2] == input_path@[end - 2]);
            }
        }
        assert(file_name_of(t) == after_last_slash(t));
    }
    // Find the start of the last component.
    let mut start: usize = end;
    proof {
        assert(t.take(start as int) =~= t);
        assert(after_last_slash(t) =~= after_last_slash(t.take(start as int)) + t.subrange(
            start as int,
            t.len() as int,
        ));
    }
    while start > 0 && input_path[start - 1] != SLASH
        invariant
            start <= end <= input_path.len(),
            t == input_path@.take(end as int),
            after_last_slash(t) =~= after_last_slash(t.take(start as int)) + t.subrange(
                start as int,
                t.len() as int,
            ),
        decreases start,
    {
        proof {
            assert(t.take(start as int).drop_last() =~= t.take(start - 1));
            assert(t.take(start as int)[start - 1] == input_path@[start - 1]);
            assert(after_last_slash(t.take(start as int)) == after_last_slash(
                t.take(start - 1),
            ).push(t[start - 1]));
            assert(after_last_slash(t.take(start - 1)) + t.subrange(start - 1, t.len() as int)
                =~= after_last_slash(t.take(start as int)) + t.subrange(
                start as int,
                t.len() as int,
            ));
        }
        start = start - 1;
    }
    proof {
        if start > 0 {
            assert(t.take(start as int)[start - 1] == SLASH);
            assert(after_last_slash(t.take(start as int)) =~= Seq::<u8>::empty());
        }
        assert(after_last_slash(t) =~= t.subrange(start as int, t.len() as int));
        assert(t.subrange(start as int, t.len() as int) =~= input_path@.subrange(
            start as int,
            end as int,
        ));
    }
    let name: &[u8] = &input_path[start..end];
    assert(name@ == file_name_of(input_path@));
    // Reject names with no usable base: empty, `.` or `..`.
    let is_base = if name.len() == 0 {
        false
    } else if name.len() == 1 && name[0] == DOT {
        proof {
            assert(name@ =~= seq![DOT]);
        }
        false
    } else if name.len() == 2 && name[0] == DOT && name[1] == DOT {
        proof {
            assert(name@ =~= seq![DOT, DOT]);
        }
        false
    } else {
        proof {
            if name@.len() == 1 {
                assert(name@ != seq![DOT]);
            }
            if name@.len() == 2 {
                assert(name@ != seq![DOT, DOT]);
            }
        }
        true
    };
    if !is_base {
        return fallback_label_bytes();
    }
    // Find the last `.` of the name.
    let mut k: usize = name.len();
    proof {
        assert(name@.take(k as int) =~= name@);
    }
    while k > 0 && name[k - 1] != DOT
        invariant
            k <= name@.len(),
            last_dot_index(name@) == last_dot_index(name@.take(k as int)),
        decreases k,
    {
        proof {
            assert(name@.take(k as int).drop_last() =~= name@.take(k - 1));
        }
        k = k - 1;
    }
    if k > 1 {
        proof {
            assert(name@.take(k as int)[k - 1] == DOT);
            assert(last_dot_index(name@) == k - 1);
        }
        let stem: &[u8] = &name[0..k - 1];
        proof {
            assert(stem@ =~= name@.take(k - 1));
        }
        vstd::slice::slice_to_vec(stem)
    } else {
        proof {
            if k == 1 {
                assert(name@.take(1int)[0] == DOT);
                assert(last_dot_index(name@) == 0);
            }
        }
        vstd::slice::slice_to_vec(name)
    }
}

} // verus!
