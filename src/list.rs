use vstd::prelude::*;

use crate::architecture::Architecture;
use crate::error::Error;
use crate::phys::PhysicalMemory;
use crate::types::Address;
use crate::virt::{spec_read_pointer, VirtualDma};

verus! {

/// Most entries that one walk of a kernel list visits.
pub const MAX_ITER_COUNT: usize = 65536;

/// Whether the link `next`, read from a list whose head is at `head`, ends the
/// walk: it is null, misaligned (low three bits set; an end marker on old
/// systems), or back at the head.
pub open spec fn spec_link_ends(next: u64, head: u64) -> bool {
    next == 0 || next & 7 != 0 || next == head
}

/// The entries reached from the link at `cur`, following `Flink` pointers of
/// `width` bytes, in at most `fuel` steps.
pub open spec fn spec_walk_from(
    mem: Seq<u8>,
    arch: Architecture,
    dtb: u64,
    width: nat,
    head: u64,
    cur: u64,
    fuel: nat,
) -> Result<Seq<Address>, Error>
    decreases fuel,
{
    if fuel == 0 {
        Ok(Seq::empty())
    } else {
        match spec_read_pointer(mem, arch, dtb, width, cur) {
            Err(e) => Err(e),
            Ok(next) => if spec_link_ends(next, head) {
                Ok(Seq::empty())
            } else {
                match spec_walk_from(mem, arch, dtb, width, head, next, (fuel - 1) as nat) {
                    Ok(rest) => Ok(seq![Address(next)] + rest),
                    Err(e) => Err(e),
                }
            },
        }
    }
}

/// The entries of the circular list whose head (a sentinel, never an entry)
/// is at `head`, in link order.
pub open spec fn spec_list_entries(
    mem: Seq<u8>,
    arch: Architecture,
    dtb: u64,
    width: nat,
    head: u64,
) -> Result<Seq<Address>, Error> {
    spec_walk_from(mem, arch, dtb, width, head, head, MAX_ITER_COUNT as nat)
}

/// A walk of `fuel` steps yields at most `fuel` entries.
pub proof fn lemma_walk_bound(
    mem: Seq<u8>,
    arch: Architecture,
    dtb: u64,
    width: nat,
    head: u64,
    cur: u64,
    fuel: nat,
)
    ensures
        spec_walk_from(mem, arch, dtb, width, head, cur, fuel) is Ok ==> spec_walk_from(
            mem,
            arch,
            dtb,
            width,
            head,
            cur,
            fuel,
        )->Ok_0.len() <= fuel,
    decreases fuel,
{
    if fuel > 0 {
        match spec_read_pointer(mem, arch, dtb, width, cur) {
            Err(_) => {},
            Ok(next) => {
                lemma_walk_bound(mem, arch, dtb, width, head, next, (fuel - 1) as nat);
            },
        }
    }
}

/// The entries reached from the link at `cur` in at most `fuel` steps, up to
/// the end of the list or to the first link that cannot be read, with the
/// error of that read.
pub open spec fn spec_walk_outcome(
    mem: Seq<u8>,
    arch: Architecture,
    dtb: u64,
    width: nat,
    head: u64,
    cur: u64,
    fuel: nat,
) -> (Seq<Address>, Option<Error>)
    decreases fuel,
{
    if fuel == 0 {
        (Seq::empty(), None)
    } else {
        match spec_read_pointer(mem, arch, dtb, width, cur) {
            Err(e) => (Seq::empty(), Some(e)),
            Ok(next) => if spec_link_ends(next, head) {
                (Seq::empty(), None)
            } else {
                let rest = spec_walk_outcome(mem, arch, dtb, width, head, next, (fuel - 1) as nat);
                (seq![Address(next)] + rest.0, rest.1)
            },
        }
    }
}

/// The walk of the list whose head is at `head`: the entries in link order
/// up to its end or to the first link that cannot be read, and that read's error.
pub open spec fn spec_list_walk(mem: Seq<u8>, arch: Architecture, dtb: u64, width: nat, head: u64) -> (
    Seq<Address>,
    Option<Error>,
) {
    spec_walk_outcome(mem, arch, dtb, width, head, head, MAX_ITER_COUNT as nat)
}

/// A walk that reads its links to the end gives its entries; one that meets
/// an unreadable link gives that link's error.
pub proof fn lemma_walk_outcome(
    mem: Seq<u8>,
    arch: Architecture,
    dtb: u64,
    width: nat,
    head: u64,
    cur: u64,
    fuel: nat,
)
    ensures
        spec_walk_from(mem, arch, dtb, width, head, cur, fuel) == match spec_walk_outcome(
            mem,
            arch,
            dtb,
            width,
            head,
            cur,
            fuel,
        ) {
            (s, None) => Ok::<Seq<Address>, Error>(s),
            (_, Some(e)) => Err(e),
        },
        spec_walk_outcome(mem, arch, dtb, width, head, cur, fuel).0.len() <= fuel,
    decreases fuel,
{
    if fuel > 0 {
        match spec_read_pointer(mem, arch, dtb, width, cur) {
            Err(_) => {},
            Ok(next) => {
                lemma_walk_outcome(mem, arch, dtb, width, head, next, (fuel - 1) as nat);
            },
        }
    }
}

/// Whether the calls `calls` that one walk made, each an item handed on and
/// the callback's answer, fit the walk whose outcome is `out`: the items are
/// the first entries of the walk, in order, every answer but the last is
/// `true`, and the walk went to its end unless the last answer was `false`.
pub open spec fn spec_calls_fit<A>(calls: Seq<(A, bool)>, out: (Seq<A>, Option<Error>)) -> bool {
    &&& calls.len() <= out.0.len()
    &&& forall|i: int| 0 <= i < calls.len() ==> (#[trigger] calls[i]).0 == out.0[i]
    &&& forall|i: int| 0 <= i < calls.len() - 1 ==> (#[trigger] calls[i]).1
    &&& !spec_stopped(calls) ==> calls.len() == out.0.len()
}

/// Whether the last answer of `calls` was `false`.
pub open spec fn spec_stopped<A>(calls: Seq<(A, bool)>) -> bool {
    calls.len() > 0 && !calls.last().1
}

/// What a walk that made the calls `calls` returns: success where the
/// callback stopped it or it reached the end, else the error of the link.
pub open spec fn spec_walk_result<A>(calls: Seq<(A, bool)>, out: (Seq<A>, Option<Error>)) -> Result<
    (),
    Error,
> {
    if spec_stopped(calls) {
        Ok(())
    } else {
        match out.1 {
            None => Ok(()),
            Some(e) => Err(e),
        }
    }
}

/// What a walk hands each entry to; `false` stops the walk.
pub trait AddressCallback {
    /// Every call so far: the address handed on and the answer given.
    spec fn calls(&self) -> Seq<(Address, bool)>;

    fn call(&mut self, address: Address) -> (r: bool)
        ensures
            final(self).calls() == old(self).calls().push((address, r)),
    ;
}

/// The calls that a collecting callback holding `v` has seen: each answered `true`.
pub open spec fn spec_collected(v: Seq<Address>) -> Seq<(Address, bool)> {
    v.map_values(|a: Address| (a, true))
}

impl AddressCallback for Vec<Address> {
    open spec fn calls(&self) -> Seq<(Address, bool)> {
        spec_collected(self@)
    }

    fn call(&mut self, address: Address) -> (r: bool) {
        self.push(address);
        assert(spec_collected(self@) =~= spec_collected(old(self)@).push((address, true)));
        true
    }
}

/// Collects the entries of the list whose head is at `head`.
pub fn list_entries<P: PhysicalMemory>(mem: &VirtualDma<P>, width: usize, head: Address) -> (r:
    Result<Vec<Address>, Error>)
    requires
        width == 4 || width == 8,
    ensures
        match spec_list_entries(mem.mem(), mem.arch, mem.dtb.0, width as nat, head.0) {
            Ok(s) => r is Ok && r->Ok_0@ == s,
            Err(e) => r == Err::<Vec<Address>, Error>(e),
        },
        r is Ok ==> r->Ok_0@.len() <= MAX_ITER_COUNT,
{
    let ghost full = spec_list_entries(mem.mem(), mem.arch, mem.dtb.0, width as nat, head.0);
    proof {
        lemma_walk_bound(mem.mem(), mem.arch, mem.dtb.0, width as nat, head.0, head.0, MAX_ITER_COUNT as nat);
    }
    let mut out: Vec<Address> = Vec::new();
    let mut cur = head;
    let mut fuel: usize = MAX_ITER_COUNT;
    while fuel > 0
        invariant
            width == 4 || width == 8,
            full == spec_list_entries(mem.mem(), mem.arch, mem.dtb.0, width as nat, head.0),
            full is Ok ==> full->Ok_0.len() <= MAX_ITER_COUNT,
            full == match spec_walk_from(mem.mem(), mem.arch, mem.dtb.0, width as nat, head.0, cur.0, fuel as nat) {
                Ok(rest) => Ok(out@ + rest),
                Err(e) => Err::<Seq<Address>, Error>(e),
            },
        decreases fuel,
    {
        let next = mem.virt_read_pointer(width, cur)?;
        if next.0 == 0 || next.0 & 7 != 0 || next.0 == head.0 {
            assert(out@ + Seq::<Address>::empty() =~= out@);
            return Ok(out);
        }
        let ghost before = out@;
        out.push(next);
        proof {
            match spec_walk_from(mem.mem(), mem.arch, mem.dtb.0, width as nat, head.0, next.0, (fuel - 1) as nat) {
                Ok(rest) => {
                    assert(before + (seq![next] + rest) =~= out@ + rest);
                },
                Err(e) => {},
            }
        }
        cur = next;
        fuel = fuel - 1;
    }
    assert(out@ + Seq::<Address>::empty() =~= out@);
    Ok(out)
}

/// Walks the list whose head is at `head` and hands each entry, in link
/// order, to `callback` until it returns `false` or the list ends. No link is
/// read after a `false`; a link that cannot be read before then ends the walk
/// with its error.
pub fn list_entries_callback<P: PhysicalMemory, C: AddressCallback>(
    mem: &VirtualDma<P>,
    width: usize,
    head: Address,
    callback: &mut C,
) -> (r: Result<(), Error>)
    requires
        width == 4 || width == 8,
    ensures
        ({
            let out = spec_list_walk(mem.mem(), mem.arch, mem.dtb.0, width as nat, head.0);
            let before = old(callback).calls();
            let after = final(callback).calls();
            let new = after.skip(before.len() as int);
            &&& after.len() >= before.len()
            &&& after.take(before.len() as int) == before
            &&& new.len() <= MAX_ITER_COUNT
            &&& spec_calls_fit(new, out)
            &&& r == spec_walk_result(new, out)
        }),
{
    let ghost before = callback.calls();
    let ghost out = spec_list_walk(mem.mem(), mem.arch, mem.dtb.0, width as nat, head.0);
    proof {
        lemma_walk_outcome(mem.mem(), mem.arch, mem.dtb.0, width as nat, head.0, head.0, MAX_ITER_COUNT as nat);
    }
    let mut cur = head;
    let mut fuel: usize = MAX_ITER_COUNT;
    assert(callback.calls().skip(before.len() as int) =~= Seq::<(Address, bool)>::empty());
    assert(callback.calls().take(before.len() as int) =~= before);
    while fuel > 0
        invariant
            width == 4 || width == 8,
            fuel <= MAX_ITER_COUNT,
            before == old(callback).calls(),
            out == spec_list_walk(mem.mem(), mem.arch, mem.dtb.0, width as nat, head.0),
            out.0.len() <= MAX_ITER_COUNT,
            callback.calls().len() == before.len() + (MAX_ITER_COUNT - fuel),
            callback.calls().len() - before.len() <= out.0.len(),
            callback.calls().take(before.len() as int) == before,
            ({
                let new = callback.calls().skip(before.len() as int);
                let rest = spec_walk_outcome(mem.mem(), mem.arch, mem.dtb.0, width as nat, head.0, cur.0, fuel as nat);
                &&& out.0 == out.0.take(new.len() as int) + rest.0
                &&& out.1 == rest.1
                &&& forall|i: int| 0 <= i < new.len() ==> (#[trigger] new[i]).0 == out.0[i] && new[i].1
            }),
        decreases fuel,
    {
        let ghost calls0 = callback.calls();
        let ghost rest = spec_walk_outcome(mem.mem(), mem.arch, mem.dtb.0, width as nat, head.0, cur.0, fuel as nat);
        let next = match mem.virt_read_pointer(width, cur) {
            Ok(n) => n,
            Err(e) => {
                assert(out.0 =~= out.0.take(calls0.len() - before.len()));
                return Err(e);
            },
        };
        if next.0 == 0 || next.0 & 7 != 0 || next.0 == head.0 {
            assert(out.0 =~= out.0.take(calls0.len() - before.len()));
            return Ok(());
        }
        let ghost k = calls0.len() - before.len();
        let ghost rest2 = spec_walk_outcome(mem.mem(), mem.arch, mem.dtb.0, width as nat, head.0, next.0, (fuel - 1) as nat);
        assert(rest.0 == seq![next] + rest2.0);
        assert(out.0[k] == next);
        let go = callback.call(next);
        proof {
            let new = callback.calls().skip(before.len() as int);
            assert(new =~= calls0.skip(before.len() as int).push((next, go)));
            assert(callback.calls().take(before.len() as int) =~= calls0.take(before.len() as int));
            assert(out.0 =~= out.0.take(k + 1) + rest2.0);
        }
        if !go {
            return Ok(());
        }
        cur = next;
        fuel = fuel - 1;
    }
    assert(out.0 =~= out.0.take(MAX_ITER_COUNT as int));
    Ok(())
}

} // verus!
