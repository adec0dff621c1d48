use vstd::prelude::*;

verus! {

/// The permission flags of one virtual memory mapping, as the target's
/// process introspection interface reports them.
#[derive(Clone, Copy, Debug, PartialEq, Eq, Structural)]
pub struct Perms {
    pub readable: bool,
    pub writable: bool,
    pub executable: bool,
    pub private: bool,
}

/// One contiguous virtual-address range of the target, covering the
/// addresses in [start, end), with its permission flags.
#[derive(Clone, Copy, Debug, PartialEq, Eq, Structural)]
pub struct Region {
    pub start: u64,
    pub end: u64,
    pub perms: Perms,
}

/// The permission pattern the destination search accepts: a private
/// mapping that is readable and executable but not writable, the shape of
/// a mapped code segment.
pub open spec fn injectable_perms(p: Perms) -> bool {
    p.readable && !p.writable && p.executable && p.private
}

/// A region can host a payload of `len` bytes: it has the injectable
/// permission pattern and its size (end - start) is at least `len`.
pub open spec fn eligible(r: Region, len: nat) -> bool {
    injectable_perms(r.perms) && r.start <= r.end && r.end - r.start >= len
}

fn eligible_exec(r: &Region, len: usize) -> (b: bool)
    ensures
        b == eligible(*r, len as nat),
{
    r.perms.readable && !r.perms.writable && r.perms.executable && r.perms.private
        && r.start <= r.end && r.end - r.start >= len as u64
}

/// Picks the destination region for a payload of `payload_len` bytes out
/// of `regions`: among the eligible regions, the one with the lowest start
/// address, and of several with that start address the one listed first.
/// Yields None exactly when no region is eligible.
pub fn select_destination(regions: &Vec<Region>, payload_len: usize) -> (r: Option<Region>)
    ensures
        (r is Some) <==> (exists|i: int|
            0 <= i < regions@.len() && eligible(regions@[i], payload_len as nat)),
        r matches Some(reg) ==> {
            &&& eligible(reg, payload_len as nat)
            &&& forall|j: int|
                0 <= j < regions@.len() && eligible(regions@[j], payload_len as nat)
                    ==> reg.start <= #[trigger] regions@[j].start
            &&& exists|i: int|
                {
                    &&& 0 <= i < regions@.len()
                    &&& regions@[i] == reg
                    &&& forall|j: int|
                        0 <= j < i && eligible(#[trigger] regions@[j], payload_len as nat)
                            ==> regions@[j].start > reg.start
                }
        },
{
    let mut best: Option<Region> = None;
    let ghost mut bi: int = 0;
    let mut k: usize = 0;
    while k < regions.len()
        invariant
            k <= regions.len(),
            best is None ==> forall|j: int|
                0 <= j < k ==> !eligible(#[trigger] regions@[j], payload_len as nat),
            best matches Some(b) ==> {
                &&& 0 <= bi < k
                &&& regions@[bi] == b
                &&& eligible(b, payload_len as nat)
                &&& forall|j: int|
                    0 <= j < k && eligible(regions@[j], payload_len as nat)
                        ==> b.start <= #[trigger] regions@[j].start
                &&& forall|j: int|
                    0 <= j < bi && eligible(#[trigger] regions@[j], payload_len as nat)
                        ==> regions@[j].start > b.start
            },
        decreases regions.len() - k,
    {
        let cand = regions[k];
        if eligible_exec(&cand, payload_len) {
            match best {
                None => {
                    best = Some(cand);
                    proof {
                        bi = k as int;
                    }
                },
                Some(b) => {
                    if cand.start < b.start {
                        best = Some(cand);
                        proof {
                            bi = k as int;
                        }
                    }
                },
            }
        }
        k = k + 1;
    }
    best
}

} // verus!
