//! Which declarations have bindings that a type can refer to.
//!
//! A record, a type alias or an enum that the walk reaches can be bound
//! unless the kind of declaration it is rules that out. It then loses its
//! bindings if one of its own types has no mapped type, and so in turn do the
//! declarations whose types name it. What is left when nothing more is lost
//! is the set of supported declarations.

use vstd::prelude::*;
use crate::decl::DeclGraph;
use crate::decl::DeclKind;
use crate::decl::NativeType;
use crate::scope::Outline;

verus! {

/// How many declarations the set `s` holds.
pub open spec fn count(s: Seq<bool>) -> nat
    decreases s.len(),
{
    if s.len() == 0 {
        0
    } else {
        count(s.drop_last()) + (if s.last() {
            1nat
        } else {
            0nat
        })
    }
}

/// Whether every declaration of `r` is one of `s`.
pub open spec fn within(r: Seq<bool>, s: Seq<bool>) -> bool {
    r.len() == s.len() && forall|i: int| 0 <= i < r.len() ==> (#[trigger] r[i] ==> s[i])
}

/// A set holds no more declarations than a set it lies within.
pub proof fn lemma_count_within(r: Seq<bool>, s: Seq<bool>)
    requires
        within(r, s),
    ensures
        count(r) <= count(s) <= s.len(),
    decreases s.len(),
{
    if s.len() > 0 {
        assert(r.last() ==> s.last());
        assert forall|i: int| 0 <= i < r.drop_last().len() && #[trigger] r.drop_last()[i] implies s.drop_last()[i] by {
            assert(r[i] ==> s[i]);
        }
        lemma_count_within(r.drop_last(), s.drop_last());
    }
}

/// A set that lies within another and differs from it holds fewer
/// declarations.
pub proof fn lemma_count_shrinks(r: Seq<bool>, s: Seq<bool>, x: int)
    requires
        within(r, s),
        0 <= x < s.len(),
        s[x] && !r[x],
    ensures
        count(r) < count(s),
    decreases s.len(),
{
    assert forall|i: int| 0 <= i < r.drop_last().len() && #[trigger] r.drop_last()[i] implies s.drop_last()[i] by {
        assert(r[i] ==> s[i]);
    }
    assert(r.last() ==> s.last());
    if x == s.len() - 1 {
        lemma_count_within(r.drop_last(), s.drop_last());
    } else {
        lemma_count_shrinks(r.drop_last(), s.drop_last(), x);
    }
}

impl DeclGraph {
    /// Whether declaration `i` stands directly in a record.
    pub open spec fn nested_in_record(&self, i: int) -> bool {
        self.decls@[i].parent matches Some(p) && self.decls@[p as int].kind is Record
    }

    /// Whether declaration `i` can have bindings for all that its kind and
    /// its place say: the walk reaches it, and it is a record or a type alias
    /// that stands in no record, or an enum with a name.
    pub open spec fn bindable(&self, i: int) -> bool {
        self.walked(i) && match self.decls@[i].kind {
            DeclKind::Record(_) => !self.nested_in_record(i),
            DeclKind::TypeAlias { .. } => !self.nested_in_record(i),
            DeclKind::Enum(e) => e.name is Some,
            _ => false,
        }
    }

    /// The set of the declarations that can have bindings.
    pub open spec fn bindable_set(&self) -> Seq<bool> {
        Seq::new(self.len() as nat, |i: int| self.bindable(i))
    }

    /// The type that declaration `k` holds and that a declaration with
    /// bindings depends on: the type of a field, or the underlying type of a
    /// type alias.
    pub open spec fn held_type(&self, k: int) -> Option<NativeType> {
        match self.decls@[k].kind {
            DeclKind::Field(f) => Some(f.ty),
            DeclKind::TypeAlias { underlying, .. } => Some(underlying),
            _ => None,
        }
    }

    /// The canonical declaration that depends on the type that declaration
    /// `k` holds: the record of which `k` is a field, or the alias itself.
    pub open spec fn holder(&self, k: int) -> Option<usize> {
        match self.decls@[k].kind {
            DeclKind::Field(_) => match self.decls@[k].parent {
                Some(p) => if p < self.len() && self.canon(p as int) < self.len()
                    && self.definition_of(self.canon(p as int)) == Some(p) {
                    Some(self.decls@[p as int].canonical)
                } else {
                    None
                },
                None => None,
            },
            DeclKind::TypeAlias { .. } => if self.canon(k) == k {
                Some(k as usize)
            } else {
                None
            },
            _ => None,
        }
    }

    /// Whether declaration `k` holds a type that `c` depends on and that has
    /// no mapped type while `s` is the set of supported declarations.
    pub open spec fn breaks(&self, s: Seq<bool>, k: int, c: int) -> bool {
        &&& self.holder(k) == Some(c as usize)
        &&& self.held_type(k) matches Some(t) && !self.mappable(s, t)
    }

    /// Whether one of the declarations before `k` breaks `c`.
    pub open spec fn broken_before(&self, s: Seq<bool>, c: int, k: int) -> bool
        decreases k,
    {
        if k <= 0 || k > self.len() {
            false
        } else {
            self.broken_before(s, c, k - 1) || self.breaks(s, k - 1, c)
        }
    }

    /// The declarations of `s` that keep their bindings while `s` is the set
    /// of supported declarations.
    pub open spec fn refine(&self, s: Seq<bool>) -> Seq<bool> {
        Seq::new(s.len(), |c: int| s[c] && !self.broken_before(s, c, self.len()))
    }

    /// What is left of `s` after refining it until nothing changes, or
    /// `rounds` times.
    pub open spec fn settle(&self, s: Seq<bool>, rounds: nat) -> Seq<bool>
        decreases rounds,
    {
        if rounds == 0 || self.refine(s) == s {
            s
        } else {
            self.settle(self.refine(s), (rounds - 1) as nat)
        }
    }

    /// The set of supported declarations: what is left of the declarations
    /// that can have bindings once none of them holds a type without a mapped
    /// type. It is the greatest set of that kind.
    pub open spec fn support(&self) -> Seq<bool> {
        self.settle(self.bindable_set(), self.len() as nat)
    }

    /// With as many rounds as the set holds declarations, nothing changes
    /// any more at the end.
    pub proof fn lemma_settle_stable(&self, s: Seq<bool>, rounds: nat)
        requires
            count(s) <= rounds,
        ensures
            self.refine(self.settle(s, rounds)) == self.settle(s, rounds),
            within(self.settle(s, rounds), s),
        decreases rounds,
    {
        let r = self.refine(s);
        if r == s {
        } else {
            assert(!(r =~= s));
            let x = choose|x: int| 0 <= x < s.len() && r[x] != s[x];
            lemma_count_shrinks(r, s, x);
            self.lemma_settle_stable(r, (rounds - 1) as nat);
        }
    }

    /// No supported declaration holds a type that has no mapped type.
    pub proof fn lemma_support_closed(&self)
        ensures
            self.refine(self.support()) == self.support(),
            within(self.support(), self.bindable_set()),
    {
        lemma_count_within(self.bindable_set(), self.bindable_set());
        self.lemma_settle_stable(self.bindable_set(), self.len() as nat);
    }

    fn nested_in_record_at(&self, i: usize) -> (r: bool)
        requires
            self.well_formed(),
            i < self.decls.len(),
        ensures
            r == self.nested_in_record(i as int),
    {
        assert(self.decl_valid(i as int));
        match self.decls[i].parent {
            Some(p) => match &self.decls[p].kind {
                DeclKind::Record(_) => true,
                _ => false,
            },
            None => false,
        }
    }

    /// The set of the declarations that can have bindings.
    fn bindable_all(&self, outline: &Outline) -> (s: Vec<bool>)
        requires
            self.well_formed(),
            outline.describes(self),
        ensures
            s@ == self.bindable_set(),
    {
        let n = self.decls.len();
        let mut s: Vec<bool> = Vec::new();
        let mut i: usize = 0;
        while i < n
            invariant
                self.well_formed(),
                outline.describes(self),
                n == self.decls.len(),
                0 <= i <= n,
                s@.len() == i,
                forall|j: int| 0 <= j < i ==> #[trigger] s@[j] == self.bindable(j),
            decreases n - i,
        {
            let by_kind = match &self.decls[i].kind {
                DeclKind::Record(_) => !self.nested_in_record_at(i),
                DeclKind::TypeAlias { .. } => !self.nested_in_record_at(i),
                DeclKind::Enum(e) => e.name.is_some(),
                _ => false,
            };
            s.push(outline.walked[i] && by_kind);
            i += 1;
        }
        assert(s@ =~= self.bindable_set());
        s
    }

    /// The canonical declaration that depends on the type that declaration
    /// `k` holds.
    fn holder_of(&self, k: usize) -> (r: Option<usize>)
        requires
            self.well_formed(),
            k < self.decls.len(),
        ensures
            r == self.holder(k as int),
            r matches Some(c) ==> c < self.decls.len(),
    {
        assert(self.decl_valid(k as int));
        match &self.decls[k].kind {
            DeclKind::Field(_) => match self.decls[k].parent {
                Some(p) => {
                    assert(self.decl_valid(p as int));
                    let c = self.decls[p].canonical;
                    let def = match &self.decls[c].kind {
                        DeclKind::Record(r) => r.definition,
                        _ => None,
                    };
                    if def == Some(p) {
                        Some(c)
                    } else {
                        None
                    }
                },
                None => None,
            },
            DeclKind::TypeAlias { .. } => if self.decls[k].canonical == k {
                Some(k)
            } else {
                None
            },
            _ => None,
        }
    }

    /// Whether the type that declaration `k` holds has no mapped type.
    fn held_type_fails(&self, s: &Vec<bool>, k: usize) -> (r: bool)
        requires
            k < self.decls.len(),
        ensures
            r == (self.held_type(k as int) matches Some(t) && !self.mappable(s@, t)),
    {
        match &self.decls[k].kind {
            DeclKind::Field(f) => !self.is_mappable(s, &f.ty),
            DeclKind::TypeAlias { underlying, .. } => !self.is_mappable(s, underlying),
            _ => false,
        }
    }

    /// One round: the declarations of `s` that keep their bindings, and
    /// whether any loses them.
    fn refine_once(&self, s: &Vec<bool>) -> (r: (Vec<bool>, bool))
        requires
            self.well_formed(),
            s@.len() == self.len(),
        ensures
            r.0@ == self.refine(s@),
            r.1 == (self.refine(s@) != s@),
    {
        let n = self.decls.len();
        let mut next: Vec<bool> = Vec::new();
        let mut i: usize = 0;
        while i < n
            invariant
                n == self.decls.len(),
                s@.len() == n,
                0 <= i <= n,
                next@.len() == i,
                forall|c: int| 0 <= c < i ==> #[trigger] next@[c] == s@[c],
            decreases n - i,
        {
            next.push(s[i]);
            i += 1;
        }
        let mut changed = false;
        let mut k: usize = 0;
        while k < n
            invariant
                self.well_formed(),
                n == self.decls.len(),
                s@.len() == n,
                next@.len() == n,
                0 <= k <= n,
                forall|c: int|
                    0 <= c < n ==> #[trigger] next@[c] == (s@[c] && !self.broken_before(
                        s@,
                        c,
                        k as int,
                    )),
                changed == (exists|c: int| 0 <= c < n && #[trigger] next@[c] != s@[c]),
            decreases n - k,
        {
            let ghost before = next@;
            match self.holder_of(k) {
                Some(c) => {
                    if next[c] && self.held_type_fails(s, k) {
                        next.set(c, false);
                        changed = true;
                        assert(next@[c as int] != s@[c as int]);
                    }
                },
                None => {},
            }
            proof {
                if !changed {
                    assert forall|c: int| 0 <= c < n implies #[trigger] next@[c] == s@[c] by {
                        assert(before[c] == s@[c]);
                    }
                } else if next@ == before {
                    let w = choose|c: int| 0 <= c < n && #[trigger] before[c] != s@[c];
                    assert(next@[w] != s@[w]);
                }
            }
            k += 1;
        }
        assert(next@ =~= self.refine(s@));
        proof {
            if changed {
                let w = choose|c: int| 0 <= c < n && #[trigger] next@[c] != s@[c];
                assert(self.refine(s@)[w] != s@[w]);
            } else {
                assert(next@ =~= s@);
            }
        }
        (next, changed)
    }

    /// The set of supported declarations.
    pub(crate) fn supported_set(&self, outline: &Outline) -> (s: Vec<bool>)
        requires
            self.well_formed(),
            outline.describes(self),
        ensures
            s@ == self.support(),
            s@.len() == self.len(),
    {
        let mut cur = self.bindable_all(outline);
        let ghost mut rounds: nat = self.len() as nat;
        proof {
            lemma_count_within(cur@, cur@);
        }
        loop
            invariant
                self.well_formed(),
                cur@.len() == self.len(),
                count(cur@) <= rounds,
                self.settle(cur@, rounds) == self.support(),
            ensures
                cur@ == self.support(),
            decreases rounds,
        {
            let (next, changed) = self.refine_once(&cur);
            if !changed {
                break;
            }
            proof {
                assert(!(next@ =~= cur@));
                let x = choose|x: int| 0 <= x < cur@.len() && next@[x] != cur@[x];
                lemma_count_shrinks(next@, cur@, x);
                rounds = (rounds - 1) as nat;
            }
            cur = next;
        }
        cur
    }
}

} // verus!
