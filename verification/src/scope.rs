//! Where each declaration stands, and which declarations the walk over the
//! graph reaches.
//!
//! The walk goes through the outermost scope, through namespaces and through
//! the members of records. It passes over redeclarations, over what stands in
//! function bodies, and over class templates and those of their
//! specializations that nothing instantiates.

use vstd::prelude::*;
use crate::decl::AccessSpecifier;
use crate::decl::DeclGraph;
use crate::decl::DeclKind;
use crate::decl::RecordTag;
use crate::decl::TypeShape;

verus! {

/// The access that members of a record have before any access label.
pub open spec fn default_access(tag: RecordTag) -> AccessSpecifier {
    match tag {
        RecordTag::Class => AccessSpecifier::Private,
        _ => AccessSpecifier::Public,
    }
}

/// The access that members of a record have before any access label.
pub fn default_access_of(tag: RecordTag) -> (a: AccessSpecifier)
    ensures
        a == default_access(tag),
{
    match tag {
        RecordTag::Class => AccessSpecifier::Private,
        _ => AccessSpecifier::Public,
    }
}

impl DeclGraph {
    /// Whether declaration `i` is a definition of a class template
    /// specialization, or a declaration of one.
    pub open spec fn is_specialization(&self, i: int) -> bool {
        0 <= i < self.len() && (self.decls@[i].kind matches DeclKind::Record(r)
            && r.specialization is Some)
    }

    /// Whether declaration `i` stands in the body of a function, directly or
    /// inside something that does.
    pub open spec fn in_function_body(&self, i: int) -> bool
        decreases i,
    {
        if 0 <= i < self.len() {
            match self.decls@[i].parent {
                Some(p) => p < i && (self.decls@[p as int].kind is Function
                    || self.in_function_body(p as int)),
                None => false,
            }
        } else {
            false
        }
    }

    /// Whether declaration `i` stands inside a class template
    /// specialization.
    pub open spec fn in_specialization(&self, i: int) -> bool
        decreases i,
    {
        if 0 <= i < self.len() {
            match self.decls@[i].parent {
                Some(p) => p < i && (self.is_specialization(p as int) || self.in_specialization(
                    p as int,
                )),
                None => false,
            }
        } else {
            false
        }
    }

    /// The canonical declaration of the innermost namespace around
    /// declaration `i`, if it stands in any.
    pub open spec fn enclosing_namespace(&self, i: int) -> Option<usize>
        decreases i,
    {
        if 0 <= i < self.len() {
            match self.decls@[i].parent {
                Some(p) => if p < i {
                    if self.decls@[p as int].kind is Namespace {
                        Some(self.decls@[p as int].canonical)
                    } else {
                        self.enclosing_namespace(p as int)
                    }
                } else {
                    None
                },
                None => None,
            }
        } else {
            None
        }
    }

    /// The last access label among the members of record `p` that stand
    /// before declaration `k`.
    pub open spec fn last_label(&self, p: int, k: int) -> Option<AccessSpecifier>
        decreases k,
    {
        if k <= 0 || k > self.len() {
            None
        } else {
            let d = self.decls@[k - 1];
            match d.kind {
                DeclKind::AccessLabel(a) => if d.parent == Some(p as usize) {
                    Some(a)
                } else {
                    self.last_label(p, k - 1)
                },
                _ => self.last_label(p, k - 1),
            }
        }
    }

    /// The access of declaration `i` as a member of the record it stands in:
    /// that of the last label before it, or the default of the record's
    /// keyword. A declaration that is no member is public.
    pub open spec fn resolved_access(&self, i: int) -> AccessSpecifier {
        match self.decls@[i].parent {
            Some(p) => match self.decls@[p as int].kind {
                DeclKind::Record(r) => match self.last_label(p as int, i) {
                    Some(a) => a,
                    None => default_access(r.tag),
                },
                _ => AccessSpecifier::Public,
            },
            None => AccessSpecifier::Public,
        }
    }

    /// Whether declaration `k` can cause a class template specialization to
    /// be instantiated: it is canonical, and stands neither in a function
    /// body nor inside a specialization.
    pub open spec fn trigger_source(&self, k: int) -> bool {
        &&& 0 <= k < self.len()
        &&& self.canon(k) == k
        &&& !self.in_function_body(k)
        &&& !self.in_specialization(k)
    }

    /// Whether one of the first `j` entries of `list` is a declaration of the
    /// entity `c`.
    pub open spec fn names_among(&self, list: Seq<usize>, j: int, c: int) -> bool {
        exists|x: int|
            0 <= x < j && x < list.len() && (#[trigger] list[x]) < self.len() && self.canon(
                list[x] as int,
            ) == c
    }

    /// Whether declaration `k` uses the entity `c` so that a specialization
    /// would be instantiated: as the underlying type of a type alias, or in
    /// an expression of a function's body.
    pub open spec fn uses(&self, k: int, c: int) -> bool {
        match self.decls@[k].kind {
            DeclKind::TypeAlias { underlying, .. } => underlying.shape matches TypeShape::Declared(d)
                && d < self.len() && self.canon(d as int) == c,
            DeclKind::Function(f) => self.names_among(
                f.instantiates@,
                f.instantiates@.len() as int,
                c,
            ),
            _ => false,
        }
    }

    /// Whether declaration `k` triggers the instantiation of the class
    /// template specialization `c`.
    pub open spec fn triggers(&self, k: int, c: int) -> bool {
        self.trigger_source(k) && self.is_specialization(c) && self.uses(k, c)
    }

    /// The first declaration before `k` that triggers the instantiation of
    /// `c`.
    pub open spec fn first_trigger(&self, c: int, k: int) -> Option<usize>
        decreases k,
    {
        if k <= 0 || k > self.len() {
            None
        } else {
            match self.first_trigger(c, k - 1) {
                Some(t) => Some(t),
                None => if self.triggers(k - 1, c) {
                    Some((k - 1) as usize)
                } else {
                    None
                },
            }
        }
    }

    /// The first declaration of the unit that triggers the instantiation of
    /// `c`.
    pub open spec fn trigger_of(&self, c: int) -> Option<usize> {
        self.first_trigger(c, self.len())
    }

    /// The record definition whose members make up the record with the
    /// canonical declaration `c`.
    pub open spec fn definition_of(&self, c: int) -> Option<usize> {
        match self.decls@[c].kind {
            DeclKind::Record(r) => r.definition,
            _ => None,
        }
    }

    /// Whether the walk reaches what stands directly inside declaration `p`,
    /// given whether it reaches the canonical declaration of `p`.
    pub open spec fn opens(&self, p: int, canon_walked: bool) -> bool {
        match self.decls@[p].kind {
            DeclKind::Namespace { .. } => canon_walked,
            DeclKind::Record(_) => canon_walked && self.definition_of(self.canon(p)) == Some(
                p as usize,
            ),
            _ => false,
        }
    }

    /// Whether declaration `i` is one that the walk can stop at: canonical,
    /// outside every function body, not an injected class name, and not a
    /// class template specialization that nothing instantiates.
    pub open spec fn eligible(&self, i: int) -> bool {
        &&& self.canon(i) == i
        &&& !self.in_function_body(i)
        &&& match self.decls@[i].kind {
            DeclKind::Record(r) => !r.is_injected_class_name && (r.specialization is Some
                ==> self.trigger_of(i) is Some),
            _ => true,
        }
    }

    /// Whether the walk reaches declaration `i`.
    pub open spec fn walked(&self, i: int) -> bool
        decreases i,
    {
        if 0 <= i < self.len() {
            self.eligible(i) && match self.decls@[i].parent {
                Some(p) => p < i && self.canon(p as int) <= p && self.opens(
                    p as int,
                    self.walked(self.canon(p as int)),
                ),
                None => true,
            }
        } else {
            false
        }
    }
}

/// What is known of each declaration from where it stands.
pub struct Outline {
    /// Whether the declaration stands in a function body.
    pub in_body: Vec<bool>,
    /// Whether the declaration stands inside a class template specialization.
    pub in_specialization: Vec<bool>,
    /// The innermost namespace around the declaration.
    pub namespace: Vec<Option<usize>>,
    /// The access of the declaration as a member.
    pub access: Vec<AccessSpecifier>,
    /// The declaration that first triggers the instantiation of this one.
    pub trigger: Vec<Option<usize>>,
    /// Whether the walk reaches the declaration.
    pub walked: Vec<bool>,
}

impl Outline {
    /// Whether the outline is that of `g`.
    pub open spec fn describes(&self, g: &DeclGraph) -> bool {
        &&& self.in_body@.len() == g.len()
        &&& self.in_specialization@.len() == g.len()
        &&& self.namespace@.len() == g.len()
        &&& self.access@.len() == g.len()
        &&& self.trigger@.len() == g.len()
        &&& self.walked@.len() == g.len()
        &&& forall|i: int|
            #![trigger self.in_body@[i]]
            #![trigger self.in_specialization@[i]]
            #![trigger self.namespace@[i]]
            #![trigger self.access@[i]]
            #![trigger self.trigger@[i]]
            #![trigger self.walked@[i]]
            0 <= i < g.len() ==> {
                &&& self.in_body@[i] == g.in_function_body(i)
                &&& self.in_specialization@[i] == g.in_specialization(i)
                &&& self.namespace@[i] == g.enclosing_namespace(i)
                &&& self.access@[i] == g.resolved_access(i)
                &&& self.trigger@[i] == g.trigger_of(i)
                &&& self.walked@[i] == g.walked(i)
            }
    }
}

impl DeclGraph {
    fn is_specialization_at(&self, i: usize) -> (r: bool)
        requires
            i < self.decls.len(),
        ensures
            r == self.is_specialization(i as int),
    {
        match &self.decls[i].kind {
            DeclKind::Record(r) => r.specialization.is_some(),
            _ => false,
        }
    }

    fn is_function_at(&self, i: usize) -> (r: bool)
        requires
            i < self.decls.len(),
        ensures
            r == (self.decls@[i as int].kind is Function),
    {
        match &self.decls[i].kind {
            DeclKind::Function(_) => true,
            _ => false,
        }
    }

    /// For each declaration: whether it stands in a function body, whether
    /// it stands inside a specialization, and the namespace around it.
    fn ancestry(&self) -> (r: (Vec<bool>, Vec<bool>, Vec<Option<usize>>))
        requires
            self.well_formed(),
        ensures
            r.0@.len() == self.len(),
            r.1@.len() == self.len(),
            r.2@.len() == self.len(),
            forall|i: int| 0 <= i < self.len() ==> #[trigger] r.0@[i] == self.in_function_body(i),
            forall|i: int| 0 <= i < self.len() ==> #[trigger] r.1@[i] == self.in_specialization(i),
            forall|i: int|
                0 <= i < self.len() ==> #[trigger] r.2@[i] == self.enclosing_namespace(i),
    {
        let mut in_body: Vec<bool> = Vec::new();
        let mut in_spec: Vec<bool> = Vec::new();
        let mut namespace: Vec<Option<usize>> = Vec::new();
        let mut i: usize = 0;
        while i < self.decls.len()
            invariant
                self.well_formed(),
                0 <= i <= self.decls.len(),
                in_body@.len() == i,
                in_spec@.len() == i,
                namespace@.len() == i,
                forall|j: int| 0 <= j < i ==> #[trigger] in_body@[j] == self.in_function_body(j),
                forall|j: int| 0 <= j < i ==> #[trigger] in_spec@[j] == self.in_specialization(j),
                forall|j: int| 0 <= j < i ==> #[trigger] namespace@[j] == self.enclosing_namespace(j),
            decreases self.decls.len() - i,
        {
            assert(self.decl_valid(i as int));
            match self.decls[i].parent {
                Some(p) => {
                    in_body.push(self.is_function_at(p) || in_body[p]);
                    in_spec.push(self.is_specialization_at(p) || in_spec[p]);
                    let ns = match &self.decls[p].kind {
                        DeclKind::Namespace { .. } => Some(self.decls[p].canonical),
                        _ => namespace[p],
                    };
                    namespace.push(ns);
                },
                None => {
                    in_body.push(false);
                    in_spec.push(false);
                    namespace.push(None);
                },
            }
            i += 1;
        }
        (in_body, in_spec, namespace)
    }

    /// The access of each declaration as a member.
    fn accesses(&self) -> (r: Vec<AccessSpecifier>)
        requires
            self.well_formed(),
        ensures
            r@.len() == self.len(),
            forall|i: int| 0 <= i < self.len() ==> #[trigger] r@[i] == self.resolved_access(i),
    {
        let n = self.decls.len();
        let mut labels: Vec<Option<AccessSpecifier>> = Vec::new();
        let mut k: usize = 0;
        while k < n
            invariant
                n == self.decls.len(),
                0 <= k <= n,
                labels@.len() == k,
                forall|p: int| 0 <= p < k ==> #[trigger] labels@[p] == self.last_label(p, 0),
            decreases n - k,
        {
            labels.push(None);
            k += 1;
        }
        let mut access: Vec<AccessSpecifier> = Vec::new();
        let mut i: usize = 0;
        while i < n
            invariant
                self.well_formed(),
                n == self.decls.len(),
                0 <= i <= n,
                labels@.len() == n,
                access@.len() == i,
                forall|p: int| 0 <= p < n ==> #[trigger] labels@[p] == self.last_label(p, i as int),
                forall|j: int| 0 <= j < i ==> #[trigger] access@[j] == self.resolved_access(j),
            decreases n - i,
        {
            assert(self.decl_valid(i as int));
            let d = &self.decls[i];
            let a = match d.parent {
                Some(p) => match &self.decls[p].kind {
                    DeclKind::Record(r) => match labels[p] {
                        Some(a) => a,
                        None => default_access_of(r.tag),
                    },
                    _ => AccessSpecifier::Public,
                },
                None => AccessSpecifier::Public,
            };
            access.push(a);
            match (&d.kind, d.parent) {
                (DeclKind::AccessLabel(a), Some(p)) => {
                    labels.set(p, Some(*a));
                },
                _ => {},
            }
            i += 1;
        }
        access
    }

    /// What the triggers hold while declaration `k` is looked at, after the
    /// first `j` of the specializations that its body instantiates.
    pub open spec fn trigger_within(&self, c: int, k: int, j: int) -> Option<usize> {
        match self.first_trigger(c, k) {
            Some(t) => Some(t),
            None => if self.is_specialization(c) && (self.decls@[k].kind matches DeclKind::Function(
                f,
            ) && self.names_among(f.instantiates@, j, c)) {
                Some(k as usize)
            } else {
                None
            },
        }
    }

    /// Records that `k` triggers the instantiation of what `d` declares,
    /// unless that is no specialization or something triggered it before.
    fn note_use(&self, trig: &mut Vec<Option<usize>>, k: usize, d: usize)
        requires
            self.well_formed(),
            old(trig)@.len() == self.len(),
            k < self.len(),
        ensures
            final(trig)@.len() == self.len(),
            forall|c: int|
                0 <= c < self.len() ==> #[trigger] final(trig)@[c] == (if old(trig)@[c] is None
                    && self.is_specialization(c) && d < self.len() && self.canon(d as int) == c {
                    Some(k)
                } else {
                    old(trig)@[c]
                }),
    {
        if d < self.decls.len() {
            assert(self.decl_valid(d as int));
            let c = self.decls[d].canonical;
            if trig[c].is_none() && self.is_specialization_at(c) {
                trig.set(c, Some(k));
            }
        }
    }

    /// For each declaration, the first declaration that triggers its
    /// instantiation.
    fn triggers_of_all(&self, in_body: &Vec<bool>, in_spec: &Vec<bool>) -> (r: Vec<Option<usize>>)
        requires
            self.well_formed(),
            in_body@.len() == self.len(),
            in_spec@.len() == self.len(),
            forall|i: int| 0 <= i < self.len() ==> #[trigger] in_body@[i] == self.in_function_body(i),
            forall|i: int|
                0 <= i < self.len() ==> #[trigger] in_spec@[i] == self.in_specialization(i),
        ensures
            r@.len() == self.len(),
            forall|c: int| 0 <= c < self.len() ==> #[trigger] r@[c] == self.trigger_of(c),
    {
        let n = self.decls.len();
        let mut trig: Vec<Option<usize>> = Vec::new();
        let mut c: usize = 0;
        while c < n
            invariant
                n == self.decls.len(),
                0 <= c <= n,
                trig@.len() == c,
                forall|x: int| 0 <= x < c ==> #[trigger] trig@[x] == self.first_trigger(x, 0),
            decreases n - c,
        {
            trig.push(None);
            c += 1;
        }
        let mut k: usize = 0;
        while k < n
            invariant
                self.well_formed(),
                n == self.decls.len(),
                in_body@.len() == n,
                in_spec@.len() == n,
                forall|i: int| 0 <= i < n ==> #[trigger] in_body@[i] == self.in_function_body(i),
                forall|i: int| 0 <= i < n ==> #[trigger] in_spec@[i] == self.in_specialization(i),
                0 <= k <= n,
                trig@.len() == n,
                forall|x: int| 0 <= x < n ==> #[trigger] trig@[x] == self.first_trigger(x, k as int),
            decreases n - k,
        {
            if self.decls[k].canonical == k && !in_body[k] && !in_spec[k] {
                assert(self.trigger_source(k as int));
                match &self.decls[k].kind {
                    DeclKind::TypeAlias { underlying, .. } => match underlying.shape {
                        TypeShape::Declared(d) => {
                            self.note_use(&mut trig, k, d);
                        },
                        _ => {},
                    },
                    DeclKind::Function(f) => {
                        let mut j: usize = 0;
                        assert forall|x: int| 0 <= x < n implies #[trigger] trig@[x]
                            == self.trigger_within(x, k as int, 0) by {
                            assert(!self.names_among(f.instantiates@, 0, x));
                        }
                        while j < f.instantiates.len()
                            invariant
                                self.well_formed(),
                                n == self.decls.len(),
                                k < n,
                                self.decls@[k as int].kind == DeclKind::Function(*f),
                                0 <= j <= f.instantiates.len(),
                                trig@.len() == n,
                                forall|x: int|
                                    0 <= x < n ==> #[trigger] trig@[x] == self.trigger_within(
                                        x,
                                        k as int,
                                        j as int,
                                    ),
                            decreases f.instantiates.len() - j,
                        {
                            let ghost before = trig@;
                            let d = f.instantiates[j];
                            self.note_use(&mut trig, k, d);
                            assert forall|x: int| 0 <= x < n implies #[trigger] trig@[x]
                                == self.trigger_within(x, k as int, j + 1) by {
                                let l = f.instantiates@;
                                if self.names_among(l, j as int, x) {
                                    let w = choose|w: int|
                                        0 <= w < j && w < l.len() && (#[trigger] l[w]) < self.len()
                                            && self.canon(l[w] as int) == x;
                                    assert(0 <= w < j + 1 && l[w] < self.len());
                                    assert(self.names_among(l, j + 1, x));
                                } else if d < self.len() && self.canon(d as int) == x {
                                    assert(l[j as int] == d);
                                    assert(self.names_among(l, j + 1, x));
                                } else {
                                    if self.names_among(l, j + 1, x) {
                                        let w = choose|w: int|
                                            0 <= w < j + 1 && w < l.len() && (#[trigger] l[w])
                                                < self.len() && self.canon(l[w] as int) == x;
                                        if w < j {
                                            assert(self.names_among(l, j as int, x));
                                        }
                                    }
                                }
                            }
                            j += 1;
                        }
                    },
                    _ => {},
                }
            }
            k += 1;
        }
        trig
    }

    /// Whether the walk reaches each declaration.
    fn walk(&self, in_body: &Vec<bool>, trigger: &Vec<Option<usize>>) -> (r: Vec<bool>)
        requires
            self.well_formed(),
            in_body@.len() == self.len(),
            forall|i: int| 0 <= i < self.len() ==> #[trigger] in_body@[i] == self.in_function_body(i),
            trigger@.len() == self.len(),
            forall|c: int| 0 <= c < self.len() ==> #[trigger] trigger@[c] == self.trigger_of(c),
        ensures
            r@.len() == self.len(),
            forall|i: int| 0 <= i < self.len() ==> #[trigger] r@[i] == self.walked(i),
    {
        let n = self.decls.len();
        let mut walked: Vec<bool> = Vec::new();
        let mut i: usize = 0;
        while i < n
            invariant
                self.well_formed(),
                n == self.decls.len(),
                in_body@.len() == n,
                forall|j: int| 0 <= j < n ==> #[trigger] in_body@[j] == self.in_function_body(j),
                trigger@.len() == n,
                forall|c: int| 0 <= c < n ==> #[trigger] trigger@[c] == self.trigger_of(c),
                0 <= i <= n,
                walked@.len() == i,
                forall|j: int| 0 <= j < i ==> #[trigger] walked@[j] == self.walked(j),
            decreases n - i,
        {
            assert(self.decl_valid(i as int));
            let d = &self.decls[i];
            let eligible = d.canonical == i && !in_body[i] && match &d.kind {
                DeclKind::Record(r) => !r.is_injected_class_name && (r.specialization.is_none()
                    || trigger[i].is_some()),
                _ => true,
            };
            let reached = match d.parent {
                Some(p) => {
                    assert(self.decl_valid(p as int));
                    let c = self.decls[p].canonical;
                    match &self.decls[p].kind {
                        DeclKind::Namespace { .. } => walked[c],
                        DeclKind::Record(_) => {
                            assert(self.decl_valid(c as int));
                            let def = match &self.decls[c].kind {
                                DeclKind::Record(r) => r.definition,
                                _ => None,
                            };
                            walked[c] && def == Some(p)
                        },
                        _ => false,
                    }
                },
                None => true,
            };
            walked.push(eligible && reached);
            i += 1;
        }
        walked
    }

    /// What is known of each declaration from where it stands.
    pub(crate) fn outline(&self) -> (o: Outline)
        requires
            self.well_formed(),
        ensures
            o.describes(self),
    {
        let (in_body, in_specialization, namespace) = self.ancestry();
        let access = self.accesses();
        let trigger = self.triggers_of_all(&in_body, &in_specialization);
        let walked = self.walk(&in_body, &trigger);
        Outline { in_body, in_specialization, namespace, access, trigger, walked }
    }
}

} // verus!
