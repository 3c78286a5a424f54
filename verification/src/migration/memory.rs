//! The memory to send.
use vstd::prelude::*;

verus! {

/// The size of a page.
pub const PAGE_SIZE: u64 = 4096;

/// A range of guest memory.
#[derive(Clone, Copy, Debug, PartialEq, Eq, Structural)]
pub struct MemoryRange {
    pub gpa: u64,
    pub length: u64,
}

impl MemoryRange {
    /// Whether the range lies in the address space.
    pub open spec fn fits(self) -> bool {
        self.gpa + self.length <= 0x1_0000_0000_0000_0000
    }

    /// The addresses of the range, in order.
    pub open spec fn addresses(self) -> Seq<int> {
        Seq::new(self.length as nat, |i: int| self.gpa + i)
    }
}

/// The number of bytes in all ranges.
pub open spec fn total(ranges: Seq<MemoryRange>) -> nat
    decreases ranges.len(),
{
    if ranges.len() == 0 {
        0
    } else {
        total(ranges.drop_last()) + ranges.last().length as nat
    }
}

/// The addresses of all ranges, in order.
pub open spec fn addresses(ranges: Seq<MemoryRange>) -> Seq<int>
    decreases ranges.len(),
{
    if ranges.len() == 0 {
        Seq::empty()
    } else {
        addresses(ranges.drop_last()) + ranges.last().addresses()
    }
}

/// How many pages hold that many bytes.
pub open spec fn pages(n: int) -> int {
    (n + PAGE_SIZE - 1) / (PAGE_SIZE as int)
}

/// There are as many addresses as bytes.
pub proof fn lemma_addresses_len(ranges: Seq<MemoryRange>)
    ensures
        addresses(ranges).len() == total(ranges),
    decreases ranges.len(),
{
    if ranges.len() > 0 {
        lemma_addresses_len(ranges.drop_last());
    }
}

/// The bytes of a part of the ranges are not more than all.
pub proof fn lemma_total_take(ranges: Seq<MemoryRange>, i: int)
    requires
        0 <= i <= ranges.len(),
    ensures
        total(ranges.take(i)) <= total(ranges),
        i < ranges.len() ==> total(ranges.take(i + 1)) == total(ranges.take(i)) + ranges[i].length,
    decreases ranges.len(),
{
    if i == ranges.len() {
        assert(ranges.take(i) =~= ranges);
    } else {
        assert(ranges.take(i + 1).drop_last() =~= ranges.take(i));
        assert(ranges.drop_last().take(i) =~= ranges.take(i));
        lemma_total_take(ranges.drop_last(), i);
    }
}

/// The bytes of two tables together.
pub proof fn lemma_total_add(a: Seq<MemoryRange>, b: Seq<MemoryRange>)
    ensures
        total(a + b) == total(a) + total(b),
    decreases b.len(),
{
    if b.len() == 0 {
        assert(a + b =~= a);
    } else {
        assert((a + b).drop_last() =~= a + b.drop_last());
        lemma_total_add(a, b.drop_last());
    }
}

/// Where the addresses of a range stand among all.
proof fn lemma_addresses_at(ranges: Seq<MemoryRange>, index: int, k: int)
    requires
        0 <= index < ranges.len(),
        0 <= k < ranges[index].length,
    ensures
        total(ranges.take(index)) + k < addresses(ranges).len(),
        addresses(ranges)[total(ranges.take(index)) + k] == ranges[index].gpa + k,
    decreases ranges.len(),
{
    lemma_addresses_len(ranges);
    lemma_addresses_len(ranges.drop_last());
    if index == ranges.len() - 1 {
        assert(ranges.take(index) =~= ranges.drop_last());
    } else {
        assert(ranges.drop_last().take(index) =~= ranges.take(index));
        lemma_addresses_at(ranges.drop_last(), index, k);
    }
}

/// The number of bytes in all ranges, if it is not too large.
pub fn checked_total(ranges: &[MemoryRange]) -> (r: Option<u64>)
    ensures
        match r {
            Some(n) => n == total(ranges@),
            None => total(ranges@) > u64::MAX,
        },
{
    let mut sum: u64 = 0;
    let mut i: usize = 0;
    while i < ranges.len()
        invariant
            i <= ranges@.len(),
            sum == total(ranges@.take(i as int)),
        decreases ranges@.len() - i,
    {
        proof {
            lemma_total_take(ranges@, i as int);
            lemma_total_take(ranges@, i + 1);
        }
        match sum.checked_add(ranges[i].length) {
            Some(n) => {
                sum = n;
            },
            None => {
                return None;
            },
        }
        i = i + 1;
    }
    assert(ranges@.take(i as int) =~= ranges@);
    Some(sum)
}

/// The number of bytes in all ranges.
pub fn total_length(ranges: &[MemoryRange]) -> (r: u64)
    requires
        total(ranges@) <= u64::MAX,
    ensures
        r == total(ranges@),
{
    match checked_total(ranges) {
        Some(n) => n,
        None => vstd::pervasive::unreached(),
    }
}

/// How many pages hold that many bytes.
pub fn page_count(n: u64) -> (r: u64)
    ensures
        r == pages(n as int),
{
    n / PAGE_SIZE + (if n % PAGE_SIZE == 0 {
        0
    } else {
        1
    })
}

/// A transfer of ranges, piece by piece. A transfer may take as many calls as
/// it likes; each says how far it got.
#[derive(Debug)]
pub struct Transfer {
    ranges: Vec<MemoryRange>,
    index: usize,
    offset: u64,
}

impl Transfer {
    /// What is to be transferred.
    pub closed spec fn ranges(&self) -> Seq<MemoryRange> {
        self.ranges@
    }

    /// The number of ranges that were transferred.
    pub closed spec fn ranges_done(&self) -> nat {
        self.index as nat
    }

    /// The number of bytes that were transferred.
    pub closed spec fn done(&self) -> nat {
        total(self.ranges@.take(self.index as int)) + self.offset as nat
    }

    /// The place is inside of a range, which may be empty, or at the end.
    pub closed spec fn wf(&self) -> bool {
        &&& self.index <= self.ranges@.len()
        &&& self.index == self.ranges@.len() ==> self.offset == 0
        &&& self.index < self.ranges@.len() ==> self.offset < self.ranges@[self.index as int].length
            || self.offset == 0
        &&& forall|i: int| 0 <= i < self.ranges@.len() ==> (#[trigger] self.ranges@[i]).fits()
    }

    /// A transfer that has not begun.
    pub fn new(ranges: Vec<MemoryRange>) -> (r: Transfer)
        requires
            forall|i: int| 0 <= i < ranges@.len() ==> (#[trigger] ranges@[i]).fits(),
        ensures
            r.wf(),
            r.ranges() == ranges@,
            r.ranges_done() == 0,
            r.done() == 0,
    {
        let r = Transfer { ranges, index: 0, offset: 0 };
        assert(r.ranges@.take(0) =~= Seq::empty());
        r
    }

    /// The piece to transfer next: where it starts, and how long it is at
    /// most. There is none once all ranges are done.
    pub fn next_piece(&self) -> (r: Option<MemoryRange>)
        requires
            self.wf(),
        ensures
            r is None <==> self.ranges_done() == self.ranges().len(),
            r is None ==> self.done() == addresses(self.ranges()).len(),
            r matches Some(piece) ==> {
                &&& self.room() == Some(piece.length as int)
                &&& self.done() + piece.length <= addresses(self.ranges()).len()
                &&& forall|k: int|
                    0 <= k < piece.length ==> #[trigger] addresses(self.ranges())[self.done() + k]
                        == piece.gpa + k
            },
    {
        proof {
            lemma_addresses_len(self.ranges@);
        }
        if self.index == self.ranges.len() {
            assert(self.ranges@.take(self.index as int) =~= self.ranges@);
            return None;
        }
        let range = self.ranges[self.index];
        proof {
            lemma_total_take(self.ranges@, self.index as int);
            lemma_total_take(self.ranges@, self.index + 1);
            assert forall|k: int| 0 <= k < range.length - self.offset implies #[trigger] addresses(
                self.ranges@,
            )[self.done() + k] == range.gpa + self.offset + k by {
                lemma_addresses_at(self.ranges@, self.index as int, self.offset + k);
            }
        }
        if self.offset == range.length {
            // An empty range.
            return Some(MemoryRange { gpa: range.gpa, length: 0 });
        }
        Some(MemoryRange { gpa: range.gpa + self.offset, length: range.length - self.offset })
    }

    /// Takes note of `n` transferred bytes of the next piece.
    pub fn advance(&mut self, n: u64)
        requires
            old(self).wf(),
            old(self).room() is Some,
            n <= old(self).room()->Some_0,
        ensures
            final(self).wf(),
            final(self).ranges() == old(self).ranges(),
            final(self).done() == old(self).done() + n,
            final(self).ranges_done() == old(self).ranges_done() + (if n == old(
                self,
            ).room()->Some_0 {
                1int
            } else {
                0int
            }),
    {
        let count: usize = self.ranges.len();
        let length: u64 = self.ranges[self.index].length;
        assert(self.index < count);
        self.offset = self.offset + n;
        proof {
            lemma_total_take(self.ranges@, self.index as int);
        }
        if self.offset == length {
            self.index = self.index + 1;
            self.offset = 0;
        }
    }

    /// The length of the next piece.
    pub closed spec fn room(&self) -> Option<int> {
        if self.index < self.ranges@.len() {
            Some(self.ranges@[self.index as int].length - self.offset)
        } else {
            None
        }
    }
}

} // verus!
