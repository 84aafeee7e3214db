//! The names under which declarations are reported, and the targets that
//! own them.

use vstd::prelude::*;
use vstd::string::*;
use crate::decl::DeclGraph;
use crate::decl::DeclKind;
use crate::decl::DeclName;
use crate::scope::Outline;
use crate::text::char_is_alnum;
use crate::text::is_alnum;
use crate::text::push_char;
use crate::text::to_chars;

verus! {

/// How the name of a member of the record called `record` is written.
pub open spec fn spelled(name: DeclName, record: Seq<char>) -> Seq<char> {
    match name {
        DeclName::Identifier(s) => s@,
        DeclName::Operator(s) => "operator"@ + s@,
        DeclName::Constructor => record,
        DeclName::Destructor => "~"@ + record,
        DeclName::Unnamed => "(anonymous)"@,
    }
}

/// How the name of a member of the record called `record` is written.
pub fn spell(name: &DeclName, record: String) -> (r: String)
    ensures
        r@ == spelled(*name, record@),
{
    match name {
        DeclName::Identifier(s) => s.clone(),
        DeclName::Operator(s) => {
            let mut r = String::from_str("operator");
            r.append(s.as_str());
            r
        },
        DeclName::Constructor => record,
        DeclName::Destructor => {
            let mut r = String::from_str("~");
            r.append(record.as_str());
            r
        },
        DeclName::Unnamed => String::from_str("(anonymous)"),
    }
}

/// A target's label with every character that is no letter or digit
/// replaced by an underscore.
pub open spec fn escaped_label(label: Seq<char>) -> Seq<char> {
    label.map_values(|c: char| if is_alnum(c) { c } else { '_' })
}

/// Appends to `s` the label `label` with every character that is no letter
/// or digit replaced by an underscore.
pub fn push_escaped_label(s: &mut String, label: &str)
    ensures
        final(s)@ == old(s)@ + escaped_label(label@),
{
    let chars = to_chars(label);
    let mut i: usize = 0;
    assert(escaped_label(chars@).take(0) =~= Seq::<char>::empty());
    assert(s@ =~= old(s)@ + escaped_label(chars@).take(0));
    while i < chars.len()
        invariant
            0 <= i <= chars.len(),
            chars@ == label@,
            s@ == old(s)@ + escaped_label(chars@).take(i as int),
        decreases chars.len() - i,
    {
        let c = chars[i];
        push_char(s, if char_is_alnum(c) { c } else { '_' });
        assert(escaped_label(chars@).take(i + 1) =~= escaped_label(chars@).take(i as int).push(
            escaped_label(chars@)[i as int],
        ));
        i += 1;
    }
    assert(escaped_label(chars@).take(chars.len() as int) =~= escaped_label(chars@));
}

impl DeclGraph {
    /// The name of the record that declaration `i` stands directly in;
    /// empty where it stands in none.
    pub open spec fn record_around(&self, i: int) -> Seq<char> {
        match self.decls@[i].parent {
            Some(p) => match self.decls@[p as int].kind {
                DeclKind::Record(r) => r.name@,
                _ => Seq::empty(),
            },
            None => Seq::empty(),
        }
    }

    /// The name of declaration `i` as written where it is declared.
    pub open spec fn own_name(&self, i: int) -> Seq<char> {
        match self.decls@[i].kind {
            DeclKind::Namespace { name } => name@,
            DeclKind::Record(r) => r.name@,
            DeclKind::ClassTemplate { name } => name@,
            DeclKind::Field(f) => match f.name {
                Some(n) => n@,
                None => Seq::empty(),
            },
            DeclKind::AccessLabel(_) => Seq::empty(),
            DeclKind::Function(f) => spelled(f.name, self.record_around(i)),
            DeclKind::FunctionTemplate { function_name } => spelled(
                function_name,
                self.record_around(i),
            ),
            DeclKind::TypeAlias { name, .. } => name@,
            DeclKind::Enum(e) => match e.name {
                Some(n) => n@,
                None => "(anonymous)"@,
            },
            DeclKind::Comment { .. } => Seq::empty(),
        }
    }

    /// The name of declaration `i` with the names of all that encloses it,
    /// outermost first, joined by `::`.
    pub open spec fn qualified_name(&self, i: int) -> Seq<char>
        decreases i,
    {
        match self.decls@[i].parent {
            Some(p) => if p < i {
                self.qualified_name(p as int) + "::"@ + self.own_name(i)
            } else {
                self.own_name(i)
            },
            None => self.own_name(i),
        }
    }

    /// The class template specialization that declaration `i` is, or is a
    /// member of.
    pub open spec fn instantiation_around(&self, i: int) -> Option<usize> {
        if self.is_specialization(i) {
            Some(i as usize)
        } else {
            match self.decls@[i].parent {
                Some(p) => if self.is_specialization(p as int) {
                    Some(self.decls@[p as int].canonical)
                } else {
                    None
                },
                None => None,
            }
        }
    }

    /// The declaration whose target owns the item of declaration `i`: for an
    /// instantiated specialization and its members, the declaration that
    /// first triggered the instantiation; for every other declaration,
    /// itself.
    pub open spec fn owner_decl(&self, i: int) -> int {
        match self.instantiation_around(i) {
            Some(sp) => if sp < self.len() {
                match self.trigger_of(sp as int) {
                    Some(t) => if t < self.len() {
                        t as int
                    } else {
                        i
                    },
                    None => i,
                }
            } else {
                i
            },
            None => i,
        }
    }

    /// The target that owns the item of declaration `i`.
    pub open spec fn effective_owner(&self, i: int) -> Seq<char> {
        self.decls@[self.owner_decl(i)].owning_target@
    }

    /// Whether the item of declaration `i` belongs to the target that the
    /// unit is generated for.
    pub open spec fn in_current_target(&self, i: int) -> bool {
        self.effective_owner(i) == self.current_target@
    }

    fn record_around_of(&self, i: usize) -> (r: String)
        requires
            self.well_formed(),
            i < self.decls.len(),
        ensures
            r@ == self.record_around(i as int),
    {
        assert(self.decl_valid(i as int));
        match self.decls[i].parent {
            Some(p) => match &self.decls[p].kind {
                DeclKind::Record(r) => r.name.clone(),
                _ => String::new(),
            },
            None => String::new(),
        }
    }

    /// The name of declaration `i` as written where it is declared.
    pub(crate) fn own_name_of(&self, i: usize) -> (r: String)
        requires
            self.well_formed(),
            i < self.decls.len(),
        ensures
            r@ == self.own_name(i as int),
    {
        match &self.decls[i].kind {
            DeclKind::Namespace { name } => name.clone(),
            DeclKind::Record(r) => r.name.clone(),
            DeclKind::ClassTemplate { name } => name.clone(),
            DeclKind::Field(f) => match &f.name {
                Some(n) => n.clone(),
                None => String::new(),
            },
            DeclKind::AccessLabel(_) => String::new(),
            DeclKind::Function(f) => spell(&f.name, self.record_around_of(i)),
            DeclKind::FunctionTemplate { function_name } => spell(
                function_name,
                self.record_around_of(i),
            ),
            DeclKind::TypeAlias { name, .. } => name.clone(),
            DeclKind::Enum(e) => match &e.name {
                Some(n) => n.clone(),
                None => String::from_str("(anonymous)"),
            },
            DeclKind::Comment { .. } => String::new(),
        }
    }

    /// The name of declaration `i` with the names of all that encloses it,
    /// outermost first, joined by `::`.
    pub(crate) fn qualified_name_of(&self, i: usize) -> (r: String)
        requires
            self.well_formed(),
            i < self.decls.len(),
        ensures
            r@ == self.qualified_name(i as int),
        decreases i,
    {
        assert(self.decl_valid(i as int));
        match self.decls[i].parent {
            Some(p) => {
                let mut r = self.qualified_name_of(p);
                r.append("::");
                let own = self.own_name_of(i);
                r.append(own.as_str());
                r
            },
            None => self.own_name_of(i),
        }
    }

    /// The declaration whose target owns the item of declaration `i`.
    pub(crate) fn owner_decl_of(&self, outline: &Outline, i: usize) -> (r: usize)
        requires
            self.well_formed(),
            outline.describes(self),
            i < self.decls.len(),
        ensures
            r == self.owner_decl(i as int),
            r < self.decls.len(),
    {
        assert(self.decl_valid(i as int));
        let around = match &self.decls[i].kind {
            DeclKind::Record(r) if r.specialization.is_some() => Some(i),
            _ => match self.decls[i].parent {
                Some(p) => {
                    assert(self.decl_valid(p as int));
                    match &self.decls[p].kind {
                        DeclKind::Record(r) if r.specialization.is_some() => Some(
                            self.decls[p].canonical,
                        ),
                        _ => None,
                    }
                },
                None => None,
            },
        };
        match around {
            Some(sp) => match outline.trigger[sp] {
                Some(t) => if t < self.decls.len() {
                    t
                } else {
                    i
                },
                None => i,
            },
            None => i,
        }
    }

    /// The target that owns the item of declaration `i`.
    pub(crate) fn effective_owner_of(&self, outline: &Outline, i: usize) -> (r: String)
        requires
            self.well_formed(),
            outline.describes(self),
            i < self.decls.len(),
        ensures
            r@ == self.effective_owner(i as int),
    {
        self.decls[self.owner_decl_of(outline, i)].owning_target.clone()
    }

    /// Whether the item of declaration `i` belongs to the target that the
    /// unit is generated for.
    pub(crate) fn is_in_current_target(&self, outline: &Outline, i: usize) -> (r: bool)
        requires
            self.well_formed(),
            outline.describes(self),
            i < self.decls.len(),
        ensures
            r == self.in_current_target(i as int),
    {
        self.decls[self.owner_decl_of(outline, i)].owning_target == self.current_target
    }
}

} // verus!
