//! Payloads that are put together from more than one source.
use vstd::prelude::*;

use crate::bytes;

verus! {

/// Bytes that are read before another source takes over.
pub struct PrefixedSource {
    pub prefix: Vec<u8>,
    /// How many of them were read.
    pub offset: usize,
}

impl PrefixedSource {
    /// Whether no more was read than there is.
    pub open spec fn wf(self) -> bool {
        self.offset <= self.prefix@.len()
    }

    /// What is still to be read, with `rest` behind it.
    pub open spec fn remaining(self, rest: Seq<u8>) -> Seq<u8> {
        self.prefix@.skip(self.offset as int) + rest
    }

    /// Puts bytes ahead of a source.
    pub fn new(prefix: Vec<u8>) -> (source: Self)
        ensures
            source.wf(),
            source.prefix@ == prefix@,
            source.offset == 0,
    {
        PrefixedSource { prefix, offset: 0 }
    }

    /// Reads up to `wanted` bytes; what is missing has to come from the source behind.
    pub fn take(&mut self, wanted: usize) -> (taken: Vec<u8>)
        requires
            old(self).wf(),
        ensures
            final(self).wf(),
            final(self).prefix@ == old(self).prefix@,
            final(self).offset == old(self).offset + taken@.len(),
            taken@.len() == (if old(self).prefix@.len() - old(self).offset < wanted {
                old(self).prefix@.len() - old(self).offset
            } else {
                wanted as int
            }),
            taken@ == old(self).prefix@.subrange(old(self).offset as int, old(self).offset + taken@.len()),
    {
        let left: usize = self.prefix.len() - self.offset;
        let count: usize = if left < wanted { left } else { wanted };
        let end: usize = self.offset + count;
        let taken = bytes::copy_between(self.prefix.as_slice(), self.offset, end);
        self.offset = end;
        taken
    }
}

/// Reading through a prefixed source neither loses nor repeats a byte: what is taken from the prefix, and then as many
/// bytes of the source behind as are missing, are the next bytes of the two laid end to end.
pub proof fn prefixed_reads_splice(
    pre: PrefixedSource,
    post: PrefixedSource,
    taken: Seq<u8>,
    rest: Seq<u8>,
    wanted: nat,
)
    requires
        pre.wf(),
        post.wf(),
        wanted <= pre.remaining(rest).len(),
        post.prefix@ == pre.prefix@,
        post.offset == pre.offset + taken.len(),
        taken.len() == (if pre.prefix@.len() - pre.offset < wanted {
            pre.prefix@.len() - pre.offset
        } else {
            wanted as int
        }),
        taken == pre.prefix@.subrange(pre.offset as int, pre.offset + taken.len()),
    ensures
        taken + rest.take(wanted - taken.len()) == pre.remaining(rest).take(wanted as int),
        post.remaining(rest.skip(wanted - taken.len())) == pre.remaining(rest).skip(wanted as int),
{
    assert(taken + rest.take(wanted - taken.len()) =~= pre.remaining(rest).take(wanted as int));
    assert(post.remaining(rest.skip(wanted - taken.len())) =~= pre.remaining(rest).skip(wanted as int));
}

} // verus!
