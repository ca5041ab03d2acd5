//! A directory tree modeled as a value, and the file-count / total-size
//! aggregation over it.
//!
//! A tree is what one observation of a filesystem subtree yields: a regular
//! file with its byte length, a directory with the trees of its direct
//! children, or anything else (a vanished path, a special file, a broken
//! link), which contributes nothing to the statistics.

use vstd::prelude::*;

verus! {

/// One node of an observed directory tree.
pub enum FsNode {
    /// A regular file and its size in bytes, as the filesystem metadata
    /// reports it.
    File { size: u64 },
    /// A directory and its direct children.
    Dir { children: Vec<FsNode> },
    /// Anything that is neither a regular file nor a directory; it
    /// contributes nothing to the statistics.
    Other,
}

/// The sizes of all regular files in the tree, leaves listed left to right.
pub open spec fn file_sizes(n: FsNode) -> Seq<u64>
    decreases n,
{
    match n {
        FsNode::File { size } => seq![size],
        FsNode::Dir { children } => file_sizes_list(children@),
        FsNode::Other => seq![],
    }
}

/// The sizes of all regular files under a list of sibling trees.
pub open spec fn file_sizes_list(s: Seq<FsNode>) -> Seq<u64>
    decreases s,
{
    if s.len() == 0 {
        seq![]
    } else {
        file_sizes_list(s.drop_last()) + file_sizes(s.last())
    }
}

/// How many regular files the tree holds.
pub open spec fn file_count(n: FsNode) -> nat {
    file_sizes(n).len()
}

/// The sum of a sequence of sizes.
pub open spec fn size_sum(s: Seq<u64>) -> nat
    decreases s,
{
    if s.len() == 0 {
        0
    } else {
        (size_sum(s.drop_last()) + s.last()) as nat
    }
}

/// The total number of bytes in the tree's regular files.
pub open spec fn total_size(n: FsNode) -> nat {
    size_sum(file_sizes(n))
}

/// A path that is neither a regular file nor a directory counts for
/// nothing: no files, no bytes, and no error.
pub proof fn lemma_absent_path_counts_nothing()
    ensures
        file_count(FsNode::Other) == 0,
        total_size(FsNode::Other) == 0,
{
    assert(file_sizes(FsNode::Other) =~= Seq::<u64>::empty());
}

/// Summing size sequences distributes over concatenation.
proof fn lemma_size_sum_concat(a: Seq<u64>, b: Seq<u64>)
    ensures
        size_sum(a + b) == size_sum(a) + size_sum(b),
    decreases b.len(),
{
    if b.len() == 0 {
        assert(a + b =~= a);
    } else {
        assert((a + b).drop_last() =~= a + b.drop_last());
        lemma_size_sum_concat(a, b.drop_last());
    }
}

/// Extending a prefix of a sibling list by one node appends that node's
/// file sizes.
proof fn lemma_file_sizes_list_take_step(s: Seq<FsNode>, i: int)
    requires
        0 <= i < s.len(),
    ensures
        file_sizes_list(s.take(i + 1)) == file_sizes_list(s.take(i)) + file_sizes(s[i]),
{
    assert(s.take(i + 1).drop_last() =~= s.take(i));
    assert(s.take(i + 1).last() == s[i]);
}

/// A prefix of a sibling list never holds more files, nor more bytes,
/// than the whole list.
proof fn lemma_file_sizes_list_take_bounds(s: Seq<FsNode>, i: int)
    requires
        0 <= i <= s.len(),
    ensures
        file_sizes_list(s.take(i)).len() <= file_sizes_list(s).len(),
        size_sum(file_sizes_list(s.take(i))) <= size_sum(file_sizes_list(s)),
    decreases s.len() - i,
{
    if i == s.len() {
        assert(s.take(i) =~= s);
    } else {
        lemma_file_sizes_list_take_step(s, i);
        lemma_size_sum_concat(file_sizes_list(s.take(i)), file_sizes(s[i]));
        lemma_file_sizes_list_take_bounds(s, i + 1);
    }
}

/// Computes how many regular files a tree holds and how many bytes they
/// take together, exactly as the filesystem metadata reported them when the
/// tree was observed. Directories and entries of any other kind contribute
/// nothing. Returns `None` exactly when one of the two totals does not fit
/// in 64 bits.
pub fn tree_stats(n: &FsNode) -> (r: Option<(u64, u64)>)
    ensures
        r is Some <==> file_count(*n) <= u64::MAX && total_size(*n) <= u64::MAX,
        r matches Some(p) ==> p.0 == file_count(*n) && p.1 == total_size(*n),
    decreases *n,
{
    match n {
        FsNode::File { size } => {
            proof {
                assert(file_sizes(*n) == seq![*size]);
                assert(seq![*size].drop_last() =~= Seq::<u64>::empty());
                assert(size_sum(Seq::<u64>::empty()) == 0);
            }
            Some((1u64, *size))
        },
        FsNode::Other => {
            proof {
                assert(file_sizes(*n) =~= Seq::<u64>::empty());
                assert(size_sum(Seq::<u64>::empty()) == 0);
            }
            Some((0u64, 0u64))
        },
        FsNode::Dir { children } => {
            let ghost s = children@;
            let mut count: u64 = 0;
            let mut size: u64 = 0;
            let mut i: usize = 0;
            proof {
                assert(s.take(0) =~= Seq::<FsNode>::empty());
            }
            while i < children.len()
                invariant
                    i <= children.len(),
                    s == children@,
                    *n == (FsNode::Dir { children: *children }),
                    count == file_sizes_list(s.take(i as int)).len(),
                    size == size_sum(file_sizes_list(s.take(i as int))),
                decreases children.len() - i,
            {
                proof {
                    assert(decreases_to!(*n => n->children));
                    assert(n->children == *children);
                    assert(decreases_to!(*children => children@[i as int]));
                    assert(decreases_to!(*n => children@[i as int]));
                }
                let child = tree_stats(&children[i]);
                proof {
                    lemma_file_sizes_list_take_step(s, i as int);
                    lemma_size_sum_concat(file_sizes_list(s.take(i as int)), file_sizes(s[i as int]));
                    lemma_file_sizes_list_take_bounds(s, i as int + 1);
                }
                match child {
                    None => {
                        return None;
                    },
                    Some((c, z)) => {
                        let next_count = count.checked_add(c);
                        let next_size = size.checked_add(z);
                        match (next_count, next_size) {
                            (Some(nc), Some(nz)) => {
                                count = nc;
                                size = nz;
                                i = i + 1;
                            },
                            _ => {
                                return None;
                            },
                        }
                    },
                }
            }
            proof {
                assert(s.take(children@.len() as int) =~= children@);
            }
            Some((count, size))
        },
    }
}

} // verus!
