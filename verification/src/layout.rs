//! Whether the layout that the native compiler reports for the records of a
//! graph is one that a record can have: every field lies within its object,
//! and the fields of a struct or class come one after the other.

use vstd::prelude::*;
use crate::decl::DeclGraph;
use crate::decl::DeclKind;
use crate::decl::FieldDecl;
use crate::decl::RecordDecl;
use crate::decl::RecordTag;

verus! {

/// The bit after the last bit of a field.
pub open spec fn field_end(f: FieldDecl) -> int {
    f.offset + f.size
}

/// Whether the field `f` lies within an object of the record `r`: it starts
/// within the object and does not reach beyond it.
pub open spec fn field_within(f: FieldDecl, r: RecordDecl) -> bool {
    f.offset < r.size * 8 && field_end(f) <= r.size * 8
}

impl DeclGraph {
    /// The field that declaration `k` declares.
    pub open spec fn field_at(&self, k: int) -> FieldDecl {
        self.decls@[k].kind->Field_0
    }

    /// The record that declaration `p` declares.
    pub open spec fn record_at(&self, p: int) -> RecordDecl {
        self.decls@[p].kind->Record_0
    }

    /// Whether declaration `k` is a field of declaration `p`.
    pub open spec fn field_in(&self, k: int, p: int) -> bool {
        0 <= k < self.len() && 0 <= p < self.len() && self.decls@[k].kind is Field
            && self.decls@[k].parent == Some(p as usize)
    }

    /// Whether the field that declaration `k` declares lies within its
    /// object.
    pub open spec fn field_fits(&self, k: int) -> bool {
        self.decls@[k].kind is Field ==> (self.decls@[k].parent matches Some(p) && field_within(
            self.field_at(k),
            self.record_at(p as int),
        ))
    }

    /// Whether the fields that declarations `a` and `b` declare, in this
    /// order, do not overlap where they are fields of one struct or class.
    pub open spec fn fields_apart(&self, a: int, b: int) -> bool {
        forall|p: int|
            #![trigger self.field_in(a, p), self.field_in(b, p)]
            self.field_in(a, p) && self.field_in(b, p) && self.record_at(p).tag != RecordTag::Union
                ==> field_end(self.field_at(a)) <= self.field_at(b).offset
    }

    /// Whether the layout of every record is one that a record can have.
    pub open spec fn layout_valid(&self) -> bool {
        &&& forall|k: int| 0 <= k < self.len() ==> #[trigger] self.field_fits(k)
        &&& forall|a: int, b: int| 0 <= a < b < self.len() ==> #[trigger] self.fields_apart(a, b)
    }

    /// The greatest end of a field of `p` among the first `k` declarations;
    /// zero where there is none.
    pub open spec fn max_end(&self, p: int, k: int) -> int
        decreases k,
    {
        if k <= 0 || k > self.len() {
            0
        } else {
            let before = self.max_end(p, k - 1);
            if self.field_in(k - 1, p) && field_end(self.field_at(k - 1)) > before {
                field_end(self.field_at(k - 1))
            } else {
                before
            }
        }
    }

    /// No field of `p` among the first `k` declarations ends after the
    /// greatest end, and one of them ends there unless that is zero.
    pub proof fn lemma_max_end(&self, p: int, k: int)
        requires
            0 <= k <= self.len(),
        ensures
            forall|a: int|
                0 <= a < k && self.field_in(a, p) ==> field_end(#[trigger] self.field_at(a))
                    <= self.max_end(p, k),
            self.max_end(p, k) == 0 || exists|a: int|
                0 <= a < k && self.field_in(a, p) && field_end(#[trigger] self.field_at(a))
                    == self.max_end(p, k),
            self.max_end(p, k) >= 0,
        decreases k,
    {
        if k > 0 {
            self.lemma_max_end(p, k - 1);
            if self.max_end(p, k) != 0 {
                if self.field_in(k - 1, p) && field_end(self.field_at(k - 1)) > self.max_end(
                    p,
                    k - 1,
                ) {
                    assert(field_end(self.field_at(k - 1)) == self.max_end(p, k));
                } else {
                    let a = choose|a: int|
                        0 <= a < k - 1 && self.field_in(a, p) && field_end(
                            #[trigger] self.field_at(a),
                        ) == self.max_end(p, k - 1);
                    assert(0 <= a < k && self.field_in(a, p) && field_end(self.field_at(a))
                        == self.max_end(p, k));
                }
            }
        }
    }

    /// Whether the layout of every record is one that a record can have.
    pub(crate) fn is_layout_valid(&self) -> (r: bool)
        requires
            self.well_formed(),
        ensures
            r == self.layout_valid(),
    {
        let n = self.decls.len();
        let mut ends: Vec<u128> = Vec::new();
        let mut i: usize = 0;
        while i < n
            invariant
                n == self.decls.len(),
                0 <= i <= n,
                ends@.len() == i,
                forall|p: int| 0 <= p < i ==> #[trigger] ends@[p] == self.max_end(p, 0),
            decreases n - i,
        {
            ends.push(0);
            i += 1;
        }
        let mut k: usize = 0;
        while k < n
            invariant
                self.well_formed(),
                n == self.decls.len(),
                0 <= k <= n,
                ends@.len() == n,
                forall|p: int| 0 <= p < n ==> #[trigger] ends@[p] == self.max_end(p, k as int),
                forall|j: int| 0 <= j < k ==> #[trigger] self.field_fits(j),
                forall|a: int, b: int| 0 <= a < b < k ==> #[trigger] self.fields_apart(a, b),
            decreases n - k,
        {
            assert(self.decl_valid(k as int));
            match &self.decls[k].kind {
                DeclKind::Field(f) => {
                    let p = match self.decls[k].parent {
                        Some(p) => p,
                        None => {
                            return false;
                        },
                    };
                    let record = match &self.decls[p].kind {
                        DeclKind::Record(r) => r,
                        _ => {
                            return false;
                        },
                    };
                    let bits: u128 = (record.size as u128) * 8;
                    let end: u128 = (f.offset as u128) + (f.size as u128);
                    if !((f.offset as u128) < bits && end <= bits) {
                        assert(!self.field_fits(k as int));
                        return false;
                    }
                    let is_union = match record.tag {
                        RecordTag::Union => true,
                        _ => false,
                    };
                    proof {
                        self.lemma_max_end(p as int, k as int);
                    }
                    if !is_union && (f.offset as u128) < ends[p] {
                        proof {
                            let a = choose|a: int|
                                0 <= a < k && self.field_in(a, p as int) && field_end(
                                    #[trigger] self.field_at(a),
                                ) == self.max_end(p as int, k as int);
                            assert(self.field_in(a, p as int) && self.field_in(k as int, p as int));
                            assert(!self.fields_apart(a, k as int));
                        }
                        return false;
                    }
                    assert forall|a: int| 0 <= a < k implies #[trigger] self.fields_apart(
                        a,
                        k as int,
                    ) by {
                        assert forall|q: int|
                            #![trigger self.field_in(a, q), self.field_in(k as int, q)]
                            self.field_in(a, q) && self.field_in(k as int, q) && self.record_at(
                                q,
                            ).tag != RecordTag::Union implies field_end(self.field_at(a))
                            <= self.field_at(k as int).offset by {
                            assert(q == p);
                        }
                    }
                    if end > ends[p] {
                        ends.set(p, end);
                    }
                },
                _ => {
                    assert forall|a: int| 0 <= a < k implies #[trigger] self.fields_apart(
                        a,
                        k as int,
                    ) by {
                        assert forall|q: int|
                            #![trigger self.field_in(a, q), self.field_in(k as int, q)]
                            self.field_in(a, q) && self.field_in(k as int, q) && self.record_at(
                                q,
                            ).tag != RecordTag::Union implies field_end(self.field_at(a))
                            <= self.field_at(k as int).offset by {
                            assert(!self.field_in(k as int, q));
                        }
                    }
                },
            }
            k += 1;
        }
        true
    }
}

} // verus!
