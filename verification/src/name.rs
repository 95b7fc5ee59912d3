//! Domain names as they stand in a datagram: label by label.

use vstd::prelude::*;

verus! {

/// A domain name: its labels from the left, without the root.
#[derive(Clone, Debug, PartialEq, Eq)]
pub struct DomainName {
    pub labels: Vec<Vec<u8>>,
}

impl View for DomainName {
    type V = Seq<Seq<u8>>;

    open spec fn view(&self) -> Seq<Seq<u8>> {
        Seq::new(self.labels@.len(), |i: int| self.labels@[i]@)
    }
}

/// `b` with an ASCII capital letter replaced by its small letter.
pub open spec fn lower_byte(b: u8) -> u8 {
    if 65 <= b && b <= 90 {
        (b + 32) as u8
    } else {
        b
    }
}

/// A label in lower case.
pub open spec fn folded_label(label: Seq<u8>) -> Seq<u8> {
    Seq::new(label.len(), |i: int| lower_byte(label[i]))
}

/// A name in lower case.
pub open spec fn folded(name: Seq<Seq<u8>>) -> Seq<Seq<u8>> {
    Seq::new(name.len(), |i: int| folded_label(name[i]))
}

/// Whether two names are the same name: DNS does not tell the case of
/// ASCII letters apart.
pub open spec fn same_name(a: Seq<Seq<u8>>, b: Seq<Seq<u8>>) -> bool {
    folded(a) == folded(b)
}

/// `b` with an ASCII capital letter replaced by its small letter.
pub fn to_lower_byte(b: u8) -> (out: u8)
    ensures
        out == lower_byte(b),
{
    if b >= 65 && b <= 90 {
        b + 32
    } else {
        b
    }
}

fn same_label(a: &Vec<u8>, b: &Vec<u8>) -> (same: bool)
    ensures
        same == (folded_label(a@) == folded_label(b@)),
{
    if a.len() != b.len() {
        proof {
            assert(folded_label(a@).len() != folded_label(b@).len());
        }
        return false;
    }
    let mut i: usize = 0;
    while i < a.len()
        invariant
            i <= a.len(),
            a.len() == b.len(),
            forall|j: int| 0 <= j < i ==> lower_byte(a@[j]) == lower_byte(b@[j]),
        decreases a.len() - i,
    {
        if to_lower_byte(a[i]) != to_lower_byte(b[i]) {
            proof {
                assert(folded_label(a@)[i as int] != folded_label(b@)[i as int]);
            }
            return false;
        }
        i = i + 1;
    }
    proof {
        assert(folded_label(a@) =~= folded_label(b@));
    }
    true
}

impl DomainName {
    /// A copy of the name.
    pub fn duplicate(&self) -> (copy: DomainName)
        ensures
            copy@ == self@,
    {
        let mut labels: Vec<Vec<u8>> = Vec::new();
        let mut i: usize = 0;
        while i < self.labels.len()
            invariant
                i <= self.labels.len(),
                labels@.len() == i,
                forall|j: int| 0 <= j < i ==> labels@[j]@ == self.labels@[j]@,
            decreases self.labels.len() - i,
        {
            let label = &self.labels[i];
            let mut copy: Vec<u8> = Vec::new();
            let mut k: usize = 0;
            while k < label.len()
                invariant
                    k <= label.len(),
                    copy@ == label@.take(k as int),
                decreases label.len() - k,
            {
                copy.push(label[k]);
                proof {
                    assert(copy@ =~= label@.take(k + 1));
                }
                k = k + 1;
            }
            proof {
                assert(label@.take(k as int) =~= label@);
            }
            labels.push(copy);
            i = i + 1;
        }
        let copy = DomainName { labels };
        proof {
            assert(copy@ =~= self@);
        }
        copy
    }

    /// Whether `other` is the same name, whatever the case of its letters.
    pub fn same_as(&self, other: &DomainName) -> (same: bool)
        ensures
            same == same_name(self@, other@),
    {
        if self.labels.len() != other.labels.len() {
            proof {
                assert(folded(self@).len() != folded(other@).len());
            }
            return false;
        }
        let mut i: usize = 0;
        while i < self.labels.len()
            invariant
                i <= self.labels.len(),
                self.labels.len() == other.labels.len(),
                forall|j: int| 0 <= j < i ==> folded_label(self@[j]) == folded_label(other@[j]),
            decreases self.labels.len() - i,
        {
            if !same_label(&self.labels[i], &other.labels[i]) {
                proof {
                    assert(folded(self@)[i as int] == folded_label(self@[i as int]));
                    assert(folded(other@)[i as int] == folded_label(other@[i as int]));
                }
                return false;
            }
            i = i + 1;
        }
        proof {
            assert(folded(self@) =~= folded(other@));
        }
        true
    }
}

} // verus!
