//! Derivation of the output path: the input's directory, the input file
//! name's stem, the fixed `-reconv` marker, then the winning strategy's
//! extension.
//!
//! Paths are byte strings. The file name is everything after the last `/`
//! (byte 47); its stem is everything before the last `.` (byte 46) in the
//! name, except that a dot at the very start of the name does not count as
//! an extension separator, so the stem of a dotfile is the whole name.

use vstd::prelude::*;

verus! {

/// The index where the file name begins: just after the last `/`, or 0 when
/// the path holds no `/` at all.
pub open spec fn file_name_start(path: Seq<u8>) -> int
    decreases path.len(),
{
    if path.len() == 0 {
        0
    } else if path[path.len() - 1] == 47 {
        path.len() as int
    } else {
        file_name_start(path.drop_last())
    }
}

/// The file name: the part of the path after the last `/`.
pub open spec fn spec_file_name(path: Seq<u8>) -> Seq<u8> {
    path.subrange(file_name_start(path), path.len() as int)
}

/// The stem length of a file name, scanning for the last `.` from index `i`
/// downward. A dot at index 0 is a dotfile's leading dot, not an extension
/// separator; when no separating dot exists the stem is the whole name.
pub open spec fn stem_len_from(name: Seq<u8>, i: int) -> int
    decreases i,
{
    if i <= 0 {
        name.len() as int
    } else if name[i] == 46 {
        i
    } else {
        stem_len_from(name, i - 1)
    }
}

/// The length of the file name's stem.
pub open spec fn spec_stem_len(name: Seq<u8>) -> int {
    stem_len_from(name, name.len() - 1)
}

/// Whether the path names a file at all: a nonempty file name that is
/// neither `.` nor `..`. Only such paths have a stem to build on.
pub open spec fn has_stem(path: Seq<u8>) -> bool {
    let name = spec_file_name(path);
    &&& name.len() > 0
    &&& name != seq![46u8]
    &&& name != seq![46u8, 46u8]
}

/// The fixed marker appended to the stem of every output file: "-reconv".
pub open spec fn suffix_marker() -> Seq<u8> {
    seq![45u8, 114u8, 101u8, 99u8, 111u8, 110u8, 118u8]
}

/// The derived output path: directory and stem kept, then the marker, then
/// the extension. It sits in the same directory as the input.
pub open spec fn derived_path(path: Seq<u8>, ext: Seq<u8>) -> Seq<u8> {
    let start = file_name_start(path);
    let stem_len = spec_stem_len(spec_file_name(path));
    path.subrange(0, start + stem_len) + suffix_marker() + ext
}

/// The file name starts within the path.
pub proof fn lemma_file_name_start_bounds(path: Seq<u8>)
    ensures
        0 <= file_name_start(path) <= path.len(),
    decreases path.len(),
{
    if path.len() != 0 && path[path.len() - 1] != 47 {
        lemma_file_name_start_bounds(path.drop_last());
    }
}

/// The stem is contained in the name.
pub proof fn lemma_stem_len_bounds(name: Seq<u8>, i: int)
    requires
        i < name.len(),
    ensures
        0 <= stem_len_from(name, i) <= name.len(),
    decreases i,
{
    if i > 0 && name[i] != 46 {
        lemma_stem_len_bounds(name, i - 1);
    }
}

/// Finds where the file name begins, as `file_name_start` describes.
pub fn file_name_start_index(path: &Vec<u8>) -> (i: usize)
    ensures
        i as int == file_name_start(path@),
{
    let mut j: usize = path.len();
    proof {
        assert(path@.subrange(0, path@.len() as int) =~= path@);
    }
    while j > 0 && path[j - 1] != 47u8
        invariant
            j <= path@.len(),
            file_name_start(path@) == file_name_start(path@.subrange(0, j as int)),
        decreases j,
    {
        proof {
            let pre = path@.subrange(0, j as int);
            assert(pre.drop_last() =~= path@.subrange(0, j - 1));
        }
        j = j - 1;
    }
    proof {
        let pre = path@.subrange(0, j as int);
        if j == 0 {
            assert(file_name_start(pre) == 0);
        } else {
            assert(pre[j - 1] == path@[j - 1]);
            assert(file_name_start(pre) == j);
        }
    }
    j
}

/// Measures the stem of the file name that begins at `start`, as
/// `spec_stem_len` describes.
fn stem_length(path: &Vec<u8>, start: usize) -> (n: usize)
    requires
        start as int == file_name_start(path@),
        start < path@.len(),
    ensures
        n as int == spec_stem_len(spec_file_name(path@)),
        0 < n <= path@.len() - start,
{
    let ghost name = spec_file_name(path@);
    proof {
        assert(name.len() == path@.len() - start);
        lemma_stem_len_bounds(name, name.len() - 1);
    }
    let mut j: usize = path.len() - 1;
    while j > start && path[j] != 46u8
        invariant
            start <= j < path@.len(),
            start as int == file_name_start(path@),
            name == spec_file_name(path@),
            spec_stem_len(name) == stem_len_from(name, j - start),
        decreases j,
    {
        proof {
            assert(name[j - start] == path@[j as int]);
        }
        j = j - 1;
    }
    let n: usize;
    if j == start {
        proof {
            assert(stem_len_from(name, 0) == name.len());
        }
        n = path.len() - start;
    } else {
        proof {
            assert(name[j - start] == path@[j as int]);
            assert(stem_len_from(name, j - start) == j - start);
        }
        n = j - start;
    }
    n
}

/// Decides whether the path names a file whose stem an output path can be
/// built from, as `has_stem` describes. A path that is empty, ends in `/`,
/// or names `.` or `..` has no stem.
pub fn path_has_stem(path: &Vec<u8>) -> (b: bool)
    ensures
        b == has_stem(path@),
{
    let start = file_name_start_index(path);
    proof {
        lemma_file_name_start_bounds(path@);
        assert(spec_file_name(path@).len() == path@.len() - start);
    }
    let ghost name = spec_file_name(path@);
    let len = path.len();
    if start >= len {
        proof {
            assert(!has_stem(path@));
        }
        return false;
    }
    let name_len = len - start;
    if name_len == 1 && path[start] == 46u8 {
        proof {
            assert(name[0] == path@[start as int]);
            assert(name =~= seq![46u8]);
        }
        return false;
    }
    if name_len == 2 && path[start] == 46u8 && path[start + 1] == 46u8 {
        proof {
            assert(name[0] == path@[start as int]);
            assert(name[1] == path@[start + 1]);
            assert(name =~= seq![46u8, 46u8]);
        }
        return false;
    }
    proof {
        assert(name.len() > 0);
        assert(name != seq![46u8]) by {
            if name == seq![46u8] {
                assert(name.len() == 1 && name[0] == 46);
            }
        };
        assert(name != seq![46u8, 46u8]) by {
            if name == seq![46u8, 46u8] {
                assert(name.len() == 2 && name[0] == 46 && name[1] == 46);
            }
        };
    }
    true
}

/// Builds the output path for the given input path and extension:
/// `<directory><stem>-reconv<extension>`.
pub fn derive_output_path(path: &Vec<u8>, ext: &Vec<u8>) -> (r: Vec<u8>)
    requires
        has_stem(path@),
    ensures
        r@ == derived_path(path@, ext@),
{
    let start = file_name_start_index(path);
    proof {
        lemma_file_name_start_bounds(path@);
        assert(spec_file_name(path@).len() == path@.len() - start);
    }
    let stem = stem_length(path, start);
    let plen = path.len();
    proof {
        assert(start + stem <= plen);
    }
    let cut: usize = start + stem;
    let mut out: Vec<u8> = Vec::new();
    let mut t: usize = 0;
    while t < cut
        invariant
            t <= cut,
            cut <= path@.len(),
            out@ == path@.subrange(0, t as int),
        decreases cut - t,
    {
        out.push(path[t]);
        proof {
            assert(out@ =~= path@.subrange(0, t + 1));
        }
        t = t + 1;
    }
    out.push(45u8);
    out.push(114u8);
    out.push(101u8);
    out.push(99u8);
    out.push(111u8);
    out.push(110u8);
    out.push(118u8);
    proof {
        assert(out@ =~= path@.subrange(0, cut as int) + suffix_marker());
    }
    let ghost mid = out@;
    let mut k: usize = 0;
    while k < ext.len()
        invariant
            k <= ext@.len(),
            out@ == mid + ext@.subrange(0, k as int),
            mid == path@.subrange(0, cut as int) + suffix_marker(),
        decreases ext@.len() - k,
    {
        out.push(ext[k]);
        proof {
            assert(out@ =~= mid + ext@.subrange(0, k + 1));
        }
        k = k + 1;
    }
    proof {
        assert(ext@.subrange(0, ext@.len() as int) =~= ext@);
        assert(out@ =~= derived_path(path@, ext@));
    }
    out
}

} // verus!
