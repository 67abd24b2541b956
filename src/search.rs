//! The `search` clause.
use crate::value::Value;
use vstd::prelude::*;

verus! {

/// `search <field> <value>;`
pub open spec fn search_text(field: Seq<char>, value: Value) -> Seq<char> {
    "search "@ + field + " "@ + value.text() + ";"@
}

/// A free-text search term on one field.
#[derive(Debug, Clone, Copy)]
pub struct Search<'a> {
    field: &'a str,
    value: Value<'a>,
}

impl<'a> Search<'a> {
    /// The field searched.
    pub closed spec fn field(self) -> &'a str {
        self.field
    }

    /// The value searched for.
    pub closed spec fn value(self) -> Value<'a> {
        self.value
    }

    /// `search <field> <value>;`
    pub open spec fn text(self) -> Seq<char> {
        search_text(self.field()@, self.value())
    }

    /// A search of `field` for `value`.
    pub fn new(field: &'a str, value: Value<'a>) -> (r: Search<'a>)
        ensures
            r.field() == field,
            r.value() == value,
    {
        Search { field, value }
    }

    /// Appends the clause.
    pub fn write_to(&self, out: &mut String)
        ensures
            final(out)@ == old(out)@ + self.text(),
    {
        out.append("search ");
        out.append(self.field);
        out.append(" ");
        self.value.write_to(out);
        out.append(";");
        proof {
            assert(final(out)@ =~= old(out)@ + self.text());
        }
    }

    /// The text of the clause.
    pub fn to_string(&self) -> (r: String)
        ensures
            r@ == self.text(),
    {
        let mut out = String::new();
        self.write_to(&mut out);
        out
    }
}

} // verus!
