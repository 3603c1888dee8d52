//! Extension filtering for custom backups.
//!
//! A custom backup copies only files whose extension — the part of the
//! file name after its last dot, the dot not being the first character —
//! matches one of the configured types, compared ASCII-case-insensitively
//! with a leading dot.  Paths are byte strings whose components are
//! separated by `/`.

use vstd::prelude::*;

verus! {

/// Path separator byte (`/`).
pub const PATH_SEPARATOR: u8 = 47;

/// Extension separator byte (`.`).
pub const EXTENSION_DOT: u8 = 46;

/// ASCII lower-casing of one byte.
pub open spec fn spec_lower(b: u8) -> u8 {
    if 65 <= b && b <= 90 {
        (b + 32) as u8
    } else {
        b
    }
}

/// ASCII-case-insensitive equality of two byte strings.
pub open spec fn spec_ascii_eq_ignore_case(a: Seq<u8>, b: Seq<u8>) -> bool {
    a.len() == b.len() && forall|i: int| 0 <= i < a.len() ==> spec_lower(a[i]) == spec_lower(b[i])
}

/// The file name of a path: everything after the last separator, the whole
/// path when it has none.
pub open spec fn spec_file_name(path: Seq<u8>) -> Seq<u8>
    decreases path.len(),
{
    if path.len() == 0 {
        path
    } else if path.last() == PATH_SEPARATOR {
        Seq::empty()
    } else {
        spec_file_name(path.drop_last()).push(path.last())
    }
}

/// The extension of a file name: the bytes after its last dot, provided
/// that dot is not the name's first byte; a name ending in a dot has the
/// empty extension.
pub open spec fn spec_extension(name: Seq<u8>) -> Option<Seq<u8>>
    decreases name.len(),
{
    if name.len() == 0 {
        None
    } else if name.last() == EXTENSION_DOT {
        if name.len() >= 2 {
            Some(Seq::empty())
        } else {
            None
        }
    } else {
        match spec_extension(name.drop_last()) {
            Some(e) => Some(e.push(name.last())),
            None => None,
        }
    }
}

/// An extension normalized to carry a leading dot.
pub open spec fn spec_with_dot(ext: Seq<u8>) -> Seq<u8> {
    if ext.len() > 0 && ext[0] == EXTENSION_DOT {
        ext
    } else {
        seq![EXTENSION_DOT] + ext
    }
}

/// Whether `path` has an extension matching one of `file_types`,
/// ASCII-case-insensitively, each type carrying its leading dot.
pub open spec fn spec_matches_file_type(path: Seq<u8>, file_types: Seq<Seq<u8>>) -> bool {
    match spec_extension(spec_file_name(path)) {
        None => false,
        Some(e) => exists|i: int|
            0 <= i < file_types.len() && spec_ascii_eq_ignore_case(
                file_types[i],
                spec_with_dot(e),
            ),
    }
}

/// The file name is the suffix that starts right after the last separator.
proof fn lemma_file_name_subrange(s: Seq<u8>, k: int)
    requires
        0 <= k <= s.len(),
        forall|j: int| k <= j < s.len() ==> s[j] != PATH_SEPARATOR,
        k == 0 || s[k - 1] == PATH_SEPARATOR,
    ensures
        spec_file_name(s) =~= s.subrange(k, s.len() as int),
    decreases s.len(),
{
    if s.len() == 0 {
    } else if s.last() == PATH_SEPARATOR {
        assert(k == s.len());
    } else {
        let t = s.drop_last();
        assert(k < s.len());
        lemma_file_name_subrange(t, k);
        assert(t.subrange(k, t.len() as int).push(s.last()) =~= s.subrange(k, s.len() as int));
    }
}

/// When the last dot of a name sits at index `r > 0`, the extension is
/// exactly the bytes after it.
proof fn lemma_extension_at(name: Seq<u8>, r: int)
    requires
        0 < r < name.len(),
        name[r] == EXTENSION_DOT,
        forall|j: int| r < j < name.len() ==> name[j] != EXTENSION_DOT,
    ensures
        spec_extension(name) matches Some(e) && e =~= name.subrange(r + 1, name.len() as int),
    decreases name.len(),
{
    if r == name.len() - 1 {
        assert(name.last() == EXTENSION_DOT);
        assert(name.len() >= 2);
    } else {
        let t = name.drop_last();
        assert(name.last() != EXTENSION_DOT);
        lemma_extension_at(t, r);
        let e = spec_extension(t)->Some_0;
        assert(e.push(name.last()) =~= name.subrange(r + 1, name.len() as int));
    }
}

/// A name with no dot beyond its first byte has no extension.
proof fn lemma_extension_none(name: Seq<u8>)
    requires
        forall|j: int| 0 < j < name.len() ==> name[j] != EXTENSION_DOT,
    ensures
        spec_extension(name) is None,
    decreases name.len(),
{
    if name.len() == 0 {
    } else if name.last() == EXTENSION_DOT {
        assert(name.len() == 1);
    } else {
        lemma_extension_none(name.drop_last());
    }
}

fn ascii_lower(b: u8) -> (l: u8)
    ensures
        l == spec_lower(b),
{
    if b >= 65 && b <= 90 {
        b + 32
    } else {
        b
    }
}

/// Compares two byte strings ASCII-case-insensitively.
pub fn eq_ignore_ascii_case_bytes(a: &Vec<u8>, b: &Vec<u8>) -> (eq: bool)
    ensures
        eq == spec_ascii_eq_ignore_case(a@, b@),
{
    if a.len() != b.len() {
        return false;
    }
    let mut i: usize = 0;
    while i < a.len()
        invariant
            0 <= i <= a@.len(),
            a@.len() == b@.len(),
            forall|j: int| 0 <= j < i ==> spec_lower(a@[j]) == spec_lower(b@[j]),
        decreases a@.len() - i,
    {
        if ascii_lower(a[i]) != ascii_lower(b[i]) {
            assert(spec_lower(a@[i as int]) != spec_lower(b@[i as int]));
            return false;
        }
        i = i + 1;
    }
    true
}

/// Whether the file at `path` matches one of the configured `file_types`:
/// its extension, normalized to a leading dot, equals one of them up to
/// ASCII case.  A file without extension matches nothing.
pub fn matches_file_type(path: &Vec<u8>, file_types: &Vec<Vec<u8>>) -> (matched: bool)
    ensures
        matched == spec_matches_file_type(path@, file_types.deep_view()),
{
    let n = path.len();

    let mut name_start: usize = 0;
    let mut i: usize = 0;
    while i < n
        invariant
            0 <= name_start <= i <= n,
            n == path@.len(),
            forall|j: int| name_start <= j < i ==> path@[j] != PATH_SEPARATOR,
            name_start == 0 || path@[name_start - 1] == PATH_SEPARATOR,
        decreases n - i,
    {
        if path[i] == PATH_SEPARATOR {
            name_start = i + 1;
        }
        i = i + 1;
    }
    proof {
        lemma_file_name_subrange(path@, name_start as int);
    }
    let ghost name = spec_file_name(path@);

    let mut dot: usize = 0;
    let mut has_dot: bool = false;
    let mut i: usize = name_start;
    while i < n
        invariant
            name_start <= i <= n,
            n == path@.len(),
            has_dot ==> name_start <= dot < i && path@[dot as int] == EXTENSION_DOT,
            has_dot ==> forall|j: int| dot < j < i ==> path@[j] != EXTENSION_DOT,
            !has_dot ==> forall|j: int| name_start <= j < i ==> path@[j] != EXTENSION_DOT,
        decreases n - i,
    {
        if path[i] == EXTENSION_DOT {
            dot = i;
            has_dot = true;
        }
        i = i + 1;
    }

    if !has_dot || dot == name_start {
        proof {
            assert forall|j: int| 0 < j < name.len() implies name[j] != EXTENSION_DOT by {
                assert(name[j] == path@[name_start + j]);
            }
            lemma_extension_none(name);
        }
        return false;
    }

    let ghost r = dot - name_start;
    proof {
        assert(name[r] == path@[dot as int]);
        assert forall|j: int| r < j < name.len() implies name[j] != EXTENSION_DOT by {
            assert(name[j] == path@[name_start + j]);
        }
        lemma_extension_at(name, r);
    }
    let ghost ext = spec_extension(name)->Some_0;

    let mut ext_dot: Vec<u8> = Vec::new();
    ext_dot.push(EXTENSION_DOT);
    let mut i: usize = dot + 1;
    while i < n
        invariant
            dot + 1 <= i <= n,
            n == path@.len(),
            ext_dot@ =~= seq![EXTENSION_DOT] + path@.subrange(dot + 1, i as int),
        decreases n - i,
    {
        ext_dot.push(path[i]);
        assert(ext_dot@ =~= seq![EXTENSION_DOT] + path@.subrange(dot + 1, i + 1));
        i = i + 1;
    }
    proof {
        assert(ext =~= path@.subrange(dot + 1, n as int)) by {
            assert(ext =~= name.subrange(r + 1, name.len() as int));
            assert forall|j: int| 0 <= j < ext.len() implies ext[j] == path@.subrange(
                dot + 1,
                n as int,
            )[j] by {
                assert(name[r + 1 + j] == path@[dot + 1 + j]);
            }
        }
        assert(ext.len() > 0 ==> ext[0] != EXTENSION_DOT) by {
            if ext.len() > 0 {
                assert(ext[0] == path@[dot + 1]);
            }
        }
        assert(ext_dot@ =~= spec_with_dot(ext));
    }

    let mut i: usize = 0;
    while i < file_types.len()
        invariant
            0 <= i <= file_types@.len(),
            ext_dot@ == spec_with_dot(ext),
            spec_extension(spec_file_name(path@)) == Some(ext),
            forall|j: int|
                0 <= j < i ==> !spec_ascii_eq_ignore_case(
                    file_types.deep_view()[j],
                    spec_with_dot(ext),
                ),
        decreases file_types@.len() - i,
    {
        if eq_ignore_ascii_case_bytes(&file_types[i], &ext_dot) {
            assert(file_types.deep_view()[i as int] == file_types@[i as int]@);
            assert(spec_ascii_eq_ignore_case(file_types.deep_view()[i as int], spec_with_dot(ext)));
            return true;
        }
        assert(file_types.deep_view()[i as int] == file_types@[i as int]@);
        i = i + 1;
    }
    false
}

} // verus!
