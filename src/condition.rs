//! Conditions of a `where` clause and the chains they form.
use crate::value::{Value, ValueSlice};
use vstd::prelude::*;

verus! {

/// A predicate on one field: a comparison with one value, or a set operator
/// over a list of values.
#[derive(Debug, Clone, Copy)]
pub enum ConditionKind<'a> {
    Eq(Value<'a>),
    Ne(Value<'a>),
    Gt(Value<'a>),
    Gte(Value<'a>),
    Lt(Value<'a>),
    Lte(Value<'a>),
    AllOf(ValueSlice<'a>),
    NoneOf(ValueSlice<'a>),
    OneOf(ValueSlice<'a>),
    Only(ValueSlice<'a>),
}

impl<'a> ConditionKind<'a> {
    /// Operator and operand as they follow the field name.
    pub open spec fn text(self) -> Seq<char> {
        match self {
            ConditionKind::Eq(v) => "="@ + v.text(),
            ConditionKind::Ne(v) => "!="@ + v.text(),
            ConditionKind::Gt(v) => ">"@ + v.text(),
            ConditionKind::Gte(v) => ">="@ + v.text(),
            ConditionKind::Lt(v) => "<"@ + v.text(),
            ConditionKind::Lte(v) => "<="@ + v.text(),
            ConditionKind::AllOf(l) => "=["@ + l.text() + "]"@,
            ConditionKind::NoneOf(l) => "=!["@ + l.text() + "]"@,
            ConditionKind::OneOf(l) => "=("@ + l.text() + ")"@,
            ConditionKind::Only(l) => "={"@ + l.text() + "}"@,
        }
    }

    /// Appends the operator and its operand.
    pub fn write_to(&self, out: &mut String)
        ensures
            final(out)@ == old(out)@ + self.text(),
    {
        match self {
            ConditionKind::Eq(v) => {
                out.append("=");
                v.write_to(out);
            },
            ConditionKind::Ne(v) => {
                out.append("!=");
                v.write_to(out);
            },
            ConditionKind::Gt(v) => {
                out.append(">");
                v.write_to(out);
            },
            ConditionKind::Gte(v) => {
                out.append(">=");
                v.write_to(out);
            },
            ConditionKind::Lt(v) => {
                out.append("<");
                v.write_to(out);
            },
            ConditionKind::Lte(v) => {
                out.append("<=");
                v.write_to(out);
            },
            ConditionKind::AllOf(l) => {
                out.append("=[");
                l.write_to(out);
                out.append("]");
            },
            ConditionKind::NoneOf(l) => {
                out.append("=![");
                l.write_to(out);
                out.append("]");
            },
            ConditionKind::OneOf(l) => {
                out.append("=(");
                l.write_to(out);
                out.append(")");
            },
            ConditionKind::Only(l) => {
                out.append("={");
                l.write_to(out);
                out.append("}");
            },
        }
        proof {
            assert(final(out)@ =~= old(out)@ + self.text());
        }
    }
}

/// The connective that joins a condition to the one before it.
#[derive(Debug, Clone, Copy, PartialEq, Eq)]
pub enum ChainKind {
    And,
    Or,
}

impl ChainKind {
    /// `&` for AND, `|` for OR.
    pub open spec fn text(self) -> Seq<char> {
        match self {
            ChainKind::And => "&"@,
            ChainKind::Or => "|"@,
        }
    }

    /// Appends the connective's glyph.
    pub fn write_to(&self, out: &mut String)
        ensures
            final(out)@ == old(out)@ + self.text(),
    {
        match self {
            ChainKind::And => out.append("&"),
            ChainKind::Or => out.append("|"),
        }
    }
}

/// `r` is the chain `a` followed by the chain `b`, joined by `kind`: `a`'s
/// conditions and connectives unchanged, then `b`'s first condition joined
/// by `kind`, then the rest of `b` unchanged (so `b`'s last condition ends
/// `r`).
pub open spec fn chain_joined(r: Condition, a: Condition, kind: ChainKind, b: Condition) -> bool {
    &&& r.field() == a.field()
    &&& r.kind() == a.kind()
    &&& r.links() == a.links() + seq![(kind, b.field(), b.kind())] + b.links()
}

/// A link to the next condition of a chain.
#[derive(Debug)]
struct Chain<'a> {
    kind: ChainKind,
    condition: Box<Condition<'a>>,
}

/// A condition on a field, followed by the rest of its chain: a linear run of
/// conditions joined by AND/OR, read left to right, without grouping.
#[derive(Debug)]
pub struct Condition<'a> {
    field: &'a str,
    kind: ConditionKind<'a>,
    next: Option<Chain<'a>>,
}

impl<'a> Condition<'a> {
    /// The text of the chain that starts here: each condition as field,
    /// operator and operand, each joined to the one before by its glyph.
    pub closed spec fn text(self) -> Seq<char>
        decreases self,
    {
        self.field@ + self.kind.text() + match self.next {
            Some(c) => c.kind.text() + c.condition.text(),
            None => Seq::empty(),
        }
    }

    /// The field of the first condition of the chain.
    pub closed spec fn field(self) -> &'a str {
        self.field
    }

    /// The predicate of the first condition of the chain.
    pub closed spec fn kind(self) -> ConditionKind<'a> {
        self.kind
    }

    /// The conditions after the first, in order, each with the connective
    /// that joins it to the one before, its field and its predicate.
    pub closed spec fn links(self) -> Seq<(ChainKind, &'a str, ConditionKind<'a>)>
        decreases self,
    {
        match self.next {
            Some(c) => seq![(c.kind, c.condition.field, c.condition.kind)]
                + c.condition.links(),
            None => Seq::empty(),
        }
    }

    /// The number of conditions in the chain that starts here.
    pub closed spec fn len(self) -> nat
        decreases self,
    {
        match self.next {
            Some(c) => 1 + c.condition.len(),
            None => 1,
        }
    }

    /// A chain of the one condition `field` `kind`.
    pub fn new(field: &'a str, kind: ConditionKind<'a>) -> (r: Condition<'a>)
        ensures
            r.field() == field,
            r.kind() == kind,
            r.links() == Seq::<(ChainKind, &'a str, ConditionKind<'a>)>::empty(),
            r.text() == field@ + kind.text(),
            r.len() == 1,
    {
        let r = Condition { field, kind, next: None };
        proof {
            assert(r.text() =~= field@ + kind.text());
        }
        r
    }

    /// Attaches `condition` with the connective `kind` after the last
    /// condition of this chain.
    fn append(&mut self, kind: ChainKind, condition: Condition<'a>)
        ensures
            chain_joined(*final(self), *old(self), kind, condition),
            final(self).text() == old(self).text() + kind.text() + condition.text(),
            final(self).len() == old(self).len() + condition.len(),
        decreases old(self).len(),
    {
        match &mut self.next {
            Some(c) => {
                c.condition.append(kind, condition);
            },
            None => {
                self.next = Some(Chain { kind, condition: Box::new(condition) });
            },
        }
        proof {
            assert(final(self).text() =~= old(self).text() + kind.text() + condition.text());
            assert(final(self).links() =~= old(self).links() + seq![
                (kind, condition.field, condition.kind),
            ] + condition.links());
        }
    }

    /// Joins `condition` by AND after the last condition of this chain.
    pub fn and(&mut self, condition: Condition<'a>) -> (r: &mut Self)
        ensures
            chain_joined(*r, *old(self), ChainKind::And, condition),
            r.text() == old(self).text() + "&"@ + condition.text(),
            r.len() == old(self).len() + condition.len(),
            *final(self) == *final(r),
    {
        self.append(ChainKind::And, condition);
        self
    }

    /// Joins `condition` by OR after the last condition of this chain.
    pub fn or(&mut self, condition: Condition<'a>) -> (r: &mut Self)
        ensures
            chain_joined(*r, *old(self), ChainKind::Or, condition),
            r.text() == old(self).text() + "|"@ + condition.text(),
            r.len() == old(self).len() + condition.len(),
            *final(self) == *final(r),
    {
        self.append(ChainKind::Or, condition);
        self
    }

    /// Appends the text of the chain.
    pub fn write_to(&self, out: &mut String)
        ensures
            final(out)@ == old(out)@ + self.text(),
        decreases self.len(),
    {
        out.append(self.field);
        self.kind.write_to(out);
        match &self.next {
            Some(c) => {
                c.kind.write_to(out);
                c.condition.write_to(out);
            },
            None => {},
        }
        proof {
            assert(final(out)@ =~= old(out)@ + self.text());
        }
    }

    /// The text of the chain.
    pub fn to_string(&self) -> (r: String)
        ensures
            r@ == self.text(),
    {
        let mut out = String::new();
        self.write_to(&mut out);
        out
    }
}

impl<'a> Clone for Condition<'a> {
    /// A copy of the whole chain.
    fn clone(&self) -> (r: Self)
        ensures
            r == *self,
        decreases self.len(),
    {
        let next = match &self.next {
            Some(c) => Some(Chain { kind: c.kind, condition: Box::new((*c.condition).clone()) }),
            None => None,
        };
        Condition { field: self.field, kind: self.kind, next }
    }
}

/// The `where` clause of a query: the root of one condition chain.
#[derive(Debug, Clone)]
pub struct Where<'a>(Condition<'a>);

impl<'a> Where<'a> {
    /// The chain this clause holds.
    pub closed spec fn condition(self) -> Condition<'a> {
        self.0
    }

    /// `where `, the chain, then `;`.
    pub open spec fn text(self) -> Seq<char> {
        "where "@ + self.condition().text() + ";"@
    }

    /// Joins `condition` by AND at the end of the clause's chain.
    pub fn and(&mut self, condition: Condition<'a>)
        ensures
            chain_joined(final(self).condition(), old(self).condition(), ChainKind::And, condition),
            final(self).condition().text() == old(self).condition().text() + "&"@
                + condition.text(),
    {
        self.0.and(condition);
    }

    /// Joins `condition` by OR at the end of the clause's chain.
    pub fn or(&mut self, condition: Condition<'a>)
        ensures
            chain_joined(final(self).condition(), old(self).condition(), ChainKind::Or, condition),
            final(self).condition().text() == old(self).condition().text() + "|"@
                + condition.text(),
    {
        self.0.or(condition);
    }

    /// Appends the clause.
    pub fn write_to(&self, out: &mut String)
        ensures
            final(out)@ == old(out)@ + self.text(),
    {
        out.append("where ");
        self.0.write_to(out);
        out.append(";");
        proof {
            assert(final(out)@ =~= old(out)@ + self.text());
        }
    }

    /// The text of the clause.
    pub fn to_string(&self) -> (r: String)
        ensures
            r@ == self.text(),
    {
        let mut out = String::new();
        self.write_to(&mut out);
        out
    }
}

impl<'a> From<Condition<'a>> for Where<'a> {
    fn from(v: Condition<'a>) -> (r: Where<'a>)
        ensures
            r.condition() == v,
    {
        Where(v)
    }
}

impl<'a> vstd::std_specs::convert::FromSpecImpl<Condition<'a>> for Where<'a> {
    open spec fn obeys_from_spec() -> bool {
        true
    }

    closed spec fn from_spec(v: Condition<'a>) -> Where<'a> {
        Where(v)
    }
}

} // verus!
