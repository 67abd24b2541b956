//! The `sort` clause.
use vstd::prelude::*;

verus! {

/// Direction of a sort.
#[derive(Debug, Clone, Copy, PartialEq, Eq)]
pub enum Order {
    Ascending,
    Descending,
}

impl Order {
    /// `asc` or `desc`.
    pub open spec fn text(self) -> Seq<char> {
        match self {
            Order::Ascending => "asc"@,
            Order::Descending => "desc"@,
        }
    }

    /// Appends `asc` or `desc`.
    pub fn write_to(&self, out: &mut String)
        ensures
            final(out)@ == old(out)@ + self.text(),
    {
        match self {
            Order::Ascending => out.append("asc"),
            Order::Descending => out.append("desc"),
        }
    }

    /// `asc` or `desc`.
    pub fn to_string(&self) -> (r: String)
        ensures
            r@ == self.text(),
    {
        let mut out = String::new();
        self.write_to(&mut out);
        out
    }
}

/// `sort <field> <asc|desc>;`
pub open spec fn sort_text(field: Seq<char>, order: Order) -> Seq<char> {
    "sort "@ + field + " "@ + order.text() + ";"@
}

/// A sort on one field.
#[derive(Debug, Clone, Copy)]
pub(crate) struct Sort<'a> {
    pub(crate) field: &'a str,
    pub(crate) order: Order,
}

impl<'a> Sort<'a> {
    pub(crate) fn new(field: &'a str, order: Order) -> (r: Sort<'a>)
        ensures
            r.field == field,
            r.order == order,
    {
        Sort { field, order }
    }

    /// Appends the clause.
    pub(crate) fn write_to(&self, out: &mut String)
        ensures
            final(out)@ == old(out)@ + sort_text(self.field@, self.order),
    {
        out.append("sort ");
        out.append(self.field);
        out.append(" ");
        self.order.write_to(out);
        out.append(";");
        proof {
            assert(final(out)@ =~= old(out)@ + sort_text(self.field@, self.order));
        }
    }
}

} // verus!
