use vstd::prelude::*;

verus! {

/// The identity of an account or signer: a 32-byte public key.
#[derive(Clone, Copy, Debug)]
pub struct Principal {
    pub bytes: [u8; 32],
}

impl Principal {
    pub fn new(bytes: [u8; 32]) -> (r: Principal)
        ensures
            r.bytes == bytes,
    {
        Principal { bytes }
    }

    pub fn to_bytes(&self) -> (r: [u8; 32])
        ensures
            r == self.bytes,
    {
        self.bytes
    }
}

impl PartialEq for Principal {
    fn eq(&self, other: &Principal) -> (r: bool) {
        let mut i: usize = 0;
        while i < 32
            invariant
                0 <= i <= 32,
                forall|j: int| 0 <= j < i ==> self.bytes[j] == other.bytes[j],
            decreases 32 - i,
        {
            if self.bytes[i] != other.bytes[i] {
                return false;
            }
            i += 1;
        }
        assert(self.bytes =~= other.bytes);
        true
    }
}

impl vstd::std_specs::cmp::PartialEqSpecImpl for Principal {
    open spec fn obeys_eq_spec() -> bool {
        true
    }

    open spec fn eq_spec(&self, other: &Principal) -> bool {
        *self == *other
    }
}

/// The list with every occurrence of `p` taken out, the other entries kept in order.
pub open spec fn without(s: Seq<Principal>, p: Principal) -> Seq<Principal> {
    s.filter(|x: Principal| x != p)
}

/// Whether `p` occurs in `list`.
pub fn contains_principal(list: &Vec<Principal>, p: &Principal) -> (r: bool)
    ensures
        r == list@.contains(*p),
{
    let mut i: usize = 0;
    while i < list.len()
        invariant
            0 <= i <= list@.len(),
            forall|j: int| 0 <= j < i ==> list@[j] != *p,
        decreases list@.len() - i,
    {
        if list[i] == *p {
            assert(list@[i as int] == *p);
            return true;
        }
        i += 1;
    }
    false
}

/// A copy of `list` without `p`.
pub fn remove_principal(list: &Vec<Principal>, p: &Principal) -> (r: Vec<Principal>)
    ensures
        r@ == without(list@, *p),
        r@.len() <= list@.len(),
        list@.no_duplicates() ==> r@.no_duplicates(),
        list@.no_duplicates() && list@.contains(*p) ==> r@.len() == list@.len() - 1,
{
    let mut out: Vec<Principal> = Vec::new();
    let mut i: usize = 0;
    while i < list.len()
        invariant
            0 <= i <= list@.len(),
            out@ == without(list@.subrange(0, i as int), *p),
            out@.len() <= i,
            forall|k: int| 0 <= k < out@.len() ==> list@.subrange(0, i as int).contains(#[trigger] out@[k]),
            list@.no_duplicates() ==> out@.no_duplicates(),
            list@.no_duplicates() ==> (list@.subrange(0, i as int).contains(*p)
                ==> out@.len() == i - 1),
            list@.no_duplicates() ==> (!list@.subrange(0, i as int).contains(*p)
                ==> out@.len() == i),
        decreases list@.len() - i,
    {
        let ghost before = list@.subrange(0, i as int);
        let ghost after = list@.subrange(0, i as int + 1);
        assert(after.drop_last() =~= before);
        assert(after.last() == list@[i as int]);
        proof {
            reveal(Seq::filter);
        }
        let item = list[i];
        if !(item == *p) {
            out.push(item);
        }
        proof {
            assert forall|k: int| 0 <= k < out@.len() implies after.contains(#[trigger] out@[k]) by {
                if k < out@.len() - 1 || item == *p {
                    let j = choose|j: int| 0 <= j < before.len() && before[j] == out@[k];
                    assert(after[j] == out@[k]);
                } else {
                    assert(after[i as int] == out@[k]);
                }
            }
            if list@.no_duplicates() {
                if !(item == *p) {
                    assert forall|k: int| 0 <= k < out@.len() - 1 implies out@[k] != item by {
                        let j = choose|j: int| 0 <= j < before.len() && before[j] == out@[k];
                        assert(list@[j] == out@[k]);
                    }
                }
                if after.contains(*p) && !before.contains(*p) {
                    assert(item == *p);
                }
                if before.contains(*p) {
                    let j = choose|j: int| 0 <= j < before.len() && before[j] == *p;
                    assert(list@[j] == *p);
                    assert(item != *p);
                    assert(after[j] == *p);
                }
                if !after.contains(*p) {
                    assert(after[i as int] == item);
                    if before.contains(*p) {
                        let j = choose|j: int| 0 <= j < before.len() && before[j] == *p;
                        assert(after[j] == *p);
                    }
                }
            }
        }
        i += 1;
    }
    assert(list@.subrange(0, list@.len() as int) =~= list@);
    out
}

} // verus!
