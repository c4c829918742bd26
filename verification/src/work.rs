//! How the paths matched by one pattern are shared out among workers:
//! in runs of `len / thread_count` consecutive paths, the last run holding
//! what is left over.

use vstd::prelude::*;

verus! {

/// The chunks laid end to end.
pub open spec fn concat_chunks(chunks: Seq<Vec<String>>) -> Seq<String>
    decreases chunks.len(),
{
    if chunks.len() == 0 {
        Seq::empty()
    } else {
        concat_chunks(chunks.drop_last()) + chunks.last()@
    }
}

/// Whether `thread_count` workers can share `len` paths: the run length,
/// `len / thread_count`, must not be zero.
pub open spec fn can_partition(len: nat, thread_count: nat) -> bool {
    thread_count > 0 && len / thread_count > 0
}

/// Splits `entries` into runs of `entries.len() / thread_count` paths, in
/// order; only the last run may be shorter.
pub fn partition_paths(entries: &Vec<String>, thread_count: usize) -> (chunks: Vec<Vec<String>>)
    requires
        can_partition(entries@.len(), thread_count as nat),
    ensures
        ({
            let size = entries@.len() / (thread_count as nat);
            &&& concat_chunks(chunks@) == entries@
            &&& forall|k: int| 0 <= k < chunks@.len() - 1 ==> (#[trigger] chunks@[k])@.len() == size
            &&& chunks@.len() > 0 && 0 < chunks@.last()@.len() <= size
        }),
{
    let len = entries.len();
    let size = len / thread_count;
    let mut chunks: Vec<Vec<String>> = Vec::new();
    let mut start: usize = 0;
    while start < len
        invariant
            len == entries@.len(),
            size as nat == (len as nat) / (thread_count as nat),
            size > 0,
            start <= len,
            concat_chunks(chunks@) == entries@.subrange(0, start as int),
            forall|k: int| 0 <= k < chunks@.len() ==> 0 < (#[trigger] chunks@[k])@.len() <= size,
            forall|k: int| 0 <= k < chunks@.len() - 1 ==> (#[trigger] chunks@[k])@.len() == size,
            chunks@.len() > 0 ==> (chunks@.last()@.len() == size || start == len),
        decreases len - start,
    {
        let end = if len - start < size { len } else { start + size };
        let mut chunk: Vec<String> = Vec::new();
        let mut j: usize = start;
        while j < end
            invariant
                start <= j <= end <= len,
                len == entries@.len(),
                chunk@ == entries@.subrange(start as int, j as int),
            decreases end - j,
        {
            chunk.push(entries[j].clone());
            j = j + 1;
            assert(chunk@ =~= entries@.subrange(start as int, j as int));
        }
        proof {
            let old_chunks = chunks@;
            let new_chunks = old_chunks.push(chunk);
            assert(new_chunks.drop_last() =~= old_chunks);
            assert(entries@.subrange(0, end as int) =~= entries@.subrange(0, start as int) + chunk@);
        }
        chunks.push(chunk);
        start = end;
    }
    chunks
}

} // verus!
