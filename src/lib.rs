//! A builder for query strings in the Apicalypse filter/search/sort language.
pub mod condition;
pub mod search;
pub mod sort;
pub mod value;

use vstd::prelude::*;

verus! {

use crate::condition::{chain_joined, ChainKind, Condition, Where};
use crate::search::{search_text, Search};
use crate::sort::{sort_text, Order, Sort};
use crate::value::{int_text, write_int, Value};

/// The text of each borrowed name.
pub open spec fn names_of(v: Seq<&str>) -> Seq<Seq<char>> {
    v.map_values(|s: &str| s@)
}

/// Comma-joined names (empty for none).
pub open spec fn joined(ns: Seq<Seq<char>>) -> Seq<char>
    decreases ns.len(),
{
    if ns.len() == 0 {
        Seq::empty()
    } else if ns.len() == 1 {
        ns[0]
    } else {
        joined(ns.drop_last()) + seq![','] + ns.last()
    }
}

/// `fields *;` when no field was selected, else `fields a,b,...;`.
pub open spec fn fields_text(ns: Seq<Seq<char>>) -> Seq<char> {
    if ns.len() == 0 {
        "fields *;"@
    } else {
        "fields "@ + joined(ns) + ";"@
    }
}

/// Nothing when no field was excluded, else `exclude a,b,...;`.
pub open spec fn exclude_text(ns: Seq<Seq<char>>) -> Seq<char> {
    if ns.len() == 0 {
        Seq::empty()
    } else {
        "exclude "@ + joined(ns) + ";"@
    }
}

/// Nothing without a chain, else `where <chain>;`.
pub open spec fn where_text(chain: Option<Seq<char>>) -> Seq<char> {
    match chain {
        Some(c) => "where "@ + c + ";"@,
        None => Seq::empty(),
    }
}

/// Nothing when unset, else `limit <n>;`.
pub open spec fn limit_text(n: Option<i32>) -> Seq<char> {
    match n {
        Some(n) => "limit "@ + int_text(n as int) + ";"@,
        None => Seq::empty(),
    }
}

/// Nothing when unset, else `offset <n>;`.
pub open spec fn offset_text(n: Option<i32>) -> Seq<char> {
    match n {
        Some(n) => "offset "@ + int_text(n as int) + ";"@,
        None => Seq::empty(),
    }
}

/// The text of what `and`/`or` with connective glyph `glyph` leaves as the
/// `where` chain, given the chain before and the condition's text.
pub open spec fn extended_chain(
    chain: Option<Seq<char>>,
    glyph: Seq<char>,
    condition: Seq<char>,
) -> Option<Seq<char>> {
    match chain {
        Some(c) => Some(c + glyph + condition),
        None => Some(condition),
    }
}

/// What `and` (with `kind` AND) or `or` (with `kind` OR) makes of the
/// `where` chain `before`: `condition` itself when there was none, else the
/// old chain with `condition` joined at its end by `kind`.
pub open spec fn where_extended(
    after: Option<Condition>,
    before: Option<Condition>,
    kind: ChainKind,
    condition: Condition,
) -> bool {
    match before {
        None => after == Some(condition),
        Some(b) => after is Some && chain_joined(after->Some_0, b, kind, condition),
    }
}

/// The `where` chain text left by a run of builder `and`/`or` calls, each
/// given as its connective and its condition's text, made on a query whose
/// chain text was `start`.
pub open spec fn after_where_calls(
    start: Option<Seq<char>>,
    calls: Seq<(ChainKind, Seq<char>)>,
) -> Option<Seq<char>>
    decreases calls.len(),
{
    if calls.len() == 0 {
        start
    } else {
        extended_chain(
            after_where_calls(start, calls.drop_last()),
            calls.last().0.text(),
            calls.last().1,
        )
    }
}

/// The conditions' texts in call order, each after the first preceded by
/// the glyph of its call's connective.
pub open spec fn flat_chain(calls: Seq<(ChainKind, Seq<char>)>) -> Seq<char>
    decreases calls.len(),
{
    if calls.len() == 0 {
        Seq::empty()
    } else if calls.len() == 1 {
        calls[0].1
    } else {
        flat_chain(calls.drop_last()) + calls.last().0.text() + calls.last().1
    }
}

/// A query under construction: the clauses set so far.
#[derive(Debug, Clone)]
pub struct Apicalypse<'a> {
    fields: Vec<&'a str>,
    exclude: Vec<&'a str>,
    where_clause: Option<Where<'a>>,
    limit: Option<i32>,
    offset: Option<i32>,
    sort: Option<Sort<'a>>,
    search: Option<Search<'a>>,
}

impl<'a> Apicalypse<'a> {
    /// The selected field names, in the order given.
    pub closed spec fn field_names(self) -> Seq<Seq<char>> {
        names_of(self.fields@)
    }

    /// The excluded field names, in the order given.
    pub closed spec fn excluded_names(self) -> Seq<Seq<char>> {
        names_of(self.exclude@)
    }

    /// The text of the `where` chain, if any condition was given.
    pub closed spec fn where_chain(self) -> Option<Seq<char>> {
        match self.where_clause {
            Some(w) => Some(w.condition().text()),
            None => None,
        }
    }

    /// The root of the `where` chain, if any condition was given.
    pub closed spec fn where_condition(self) -> Option<Condition<'a>> {
        match self.where_clause {
            Some(w) => Some(w.condition()),
            None => None,
        }
    }

    /// The limit, if set.
    pub closed spec fn limit_value(self) -> Option<i32> {
        self.limit
    }

    /// The offset, if set.
    pub closed spec fn offset_value(self) -> Option<i32> {
        self.offset
    }

    /// The sort field and direction, if set.
    pub closed spec fn sort_key(self) -> Option<(Seq<char>, Order)> {
        match self.sort {
            Some(s) => Some((s.field@, s.order)),
            None => None,
        }
    }

    /// The search field and value, if set.
    pub closed spec fn search_term(self) -> Option<(Seq<char>, Value<'a>)> {
        match self.search {
            Some(s) => Some((s.field()@, s.value())),
            None => None,
        }
    }

    /// The query text: its clauses in the fixed order fields, exclude,
    /// where, limit, offset, sort, search, each only when present (the
    /// fields clause always).
    pub open spec fn text(self) -> Seq<char> {
        fields_text(self.field_names()) + exclude_text(self.excluded_names()) + where_text(
            self.where_chain(),
        ) + limit_text(self.limit_value()) + offset_text(self.offset_value()) + match self.sort_key() {
            Some((f, o)) => sort_text(f, o),
            None => Seq::empty(),
        } + match self.search_term() {
            Some((f, v)) => search_text(f, v),
            None => Seq::empty(),
        }
    }

    /// A query with no clause set.
    pub fn new() -> (r: Apicalypse<'a>)
        ensures
            r.field_names() == Seq::<Seq<char>>::empty(),
            r.excluded_names() == Seq::<Seq<char>>::empty(),
            r.where_chain() is None,
            r.limit_value() is None,
            r.offset_value() is None,
            r.sort_key() is None,
            r.search_term() is None,
            r.text() == "fields *;"@,
    {
        let r = Apicalypse {
            fields: Vec::new(),
            exclude: Vec::new(),
            where_clause: None,
            limit: None,
            offset: None,
            sort: None,
            search: None,
        };
        proof {
            assert(r.field_names() =~= Seq::<Seq<char>>::empty());
            assert(r.excluded_names() =~= Seq::<Seq<char>>::empty());
            assert(r.text() =~= "fields *;"@);
        }
        r
    }

    /// Selects `fields`, after those selected before.
    pub fn fields(self, fields: &'a [&'a str]) -> (r: Apicalypse<'a>)
        ensures
            r.field_names() == self.field_names() + names_of(fields@),
            r.excluded_names() == self.excluded_names(),
            r.where_chain() == self.where_chain(),
            r.limit_value() == self.limit_value(),
            r.offset_value() == self.offset_value(),
            r.sort_key() == self.sort_key(),
            r.search_term() == self.search_term(),
    {
        let mut s = self;
        extend_names(&mut s.fields, fields);
        s
    }

    /// Excludes `fields`, after those excluded before.
    pub fn exclude(self, fields: &'a [&'a str]) -> (r: Apicalypse<'a>)
        ensures
            r.field_names() == self.field_names(),
            r.excluded_names() == self.excluded_names() + names_of(fields@),
            r.where_chain() == self.where_chain(),
            r.limit_value() == self.limit_value(),
            r.offset_value() == self.offset_value(),
            r.sort_key() == self.sort_key(),
            r.search_term() == self.search_term(),
    {
        let mut s = self;
        extend_names(&mut s.exclude, fields);
        s
    }

    /// Makes `condition` the `where` chain when there is none, else joins it
    /// by AND at the chain's end.
    pub fn and(self, condition: Condition<'a>) -> (r: Apicalypse<'a>)
        ensures
            where_extended(r.where_condition(), self.where_condition(), ChainKind::And, condition),
            r.where_chain() == extended_chain(self.where_chain(), "&"@, condition.text()),
            r.field_names() == self.field_names(),
            r.excluded_names() == self.excluded_names(),
            r.limit_value() == self.limit_value(),
            r.offset_value() == self.offset_value(),
            r.sort_key() == self.sort_key(),
            r.search_term() == self.search_term(),
    {
        let mut s = self;
        match &mut s.where_clause {
            Some(w) => {
                w.and(condition);
            },
            None => {
                s.where_clause = Some(Where::from(condition));
            },
        }
        s
    }

    /// Makes `condition` the `where` chain when there is none, else joins it
    /// by OR at the chain's end.
    pub fn or(self, condition: Condition<'a>) -> (r: Apicalypse<'a>)
        ensures
            where_extended(r.where_condition(), self.where_condition(), ChainKind::Or, condition),
            r.where_chain() == extended_chain(self.where_chain(), "|"@, condition.text()),
            r.field_names() == self.field_names(),
            r.excluded_names() == self.excluded_names(),
            r.limit_value() == self.limit_value(),
            r.offset_value() == self.offset_value(),
            r.sort_key() == self.sort_key(),
            r.search_term() == self.search_term(),
    {
        let mut s = self;
        match &mut s.where_clause {
            Some(w) => {
                w.or(condition);
            },
            None => {
                s.where_clause = Some(Where::from(condition));
            },
        }
        s
    }

    /// Sets the limit (`Some`) or clears it (`None`).
    pub fn limit(self, limit: Option<i32>) -> (r: Apicalypse<'a>)
        ensures
            r.limit_value() == limit,
            r.field_names() == self.field_names(),
            r.excluded_names() == self.excluded_names(),
            r.where_chain() == self.where_chain(),
            r.offset_value() == self.offset_value(),
            r.sort_key() == self.sort_key(),
            r.search_term() == self.search_term(),
    {
        let mut s = self;
        s.limit = limit;
        s
    }

    /// Sets the offset (`Some`) or clears it (`None`).
    pub fn offset(self, offset: Option<i32>) -> (r: Apicalypse<'a>)
        ensures
            r.offset_value() == offset,
            r.field_names() == self.field_names(),
            r.excluded_names() == self.excluded_names(),
            r.where_chain() == self.where_chain(),
            r.limit_value() == self.limit_value(),
            r.sort_key() == self.sort_key(),
            r.search_term() == self.search_term(),
    {
        let mut s = self;
        s.offset = offset;
        s
    }

    /// Sorts on `field` in direction `order`, replacing any earlier sort.
    pub fn sort(self, field: &'a str, order: Order) -> (r: Apicalypse<'a>)
        ensures
            r.sort_key() == Some((field@, order)),
            r.field_names() == self.field_names(),
            r.excluded_names() == self.excluded_names(),
            r.where_chain() == self.where_chain(),
            r.limit_value() == self.limit_value(),
            r.offset_value() == self.offset_value(),
            r.search_term() == self.search_term(),
    {
        let mut s = self;
        s.sort = Some(Sort::new(field, order));
        s
    }

    /// Searches `field` for `value`, replacing any earlier search.
    pub fn search(self, field: &'a str, value: Value<'a>) -> (r: Apicalypse<'a>)
        ensures
            r.search_term() == Some((field@, value)),
            r.field_names() == self.field_names(),
            r.excluded_names() == self.excluded_names(),
            r.where_chain() == self.where_chain(),
            r.limit_value() == self.limit_value(),
            r.offset_value() == self.offset_value(),
            r.sort_key() == self.sort_key(),
    {
        let mut s = self;
        s.search = Some(Search::new(field, value));
        s
    }

    /// The query text.
    pub fn to_string(&self) -> (r: String)
        ensures
            r@ == self.text(),
    {
        let mut out = String::new();
        write_fields_clause(&mut out, &self.fields);
        write_exclude_clause(&mut out, &self.exclude);
        let ghost s1 = out@;
        match &self.where_clause {
            Some(w) => w.write_to(&mut out),
            None => {},
        }
        let ghost s2 = out@;
        write_limit_clause(&mut out, self.limit);
        write_offset_clause(&mut out, self.offset);
        let ghost s3 = out@;
        match &self.sort {
            Some(s) => s.write_to(&mut out),
            None => {},
        }
        let ghost s4 = out@;
        match &self.search {
            Some(s) => s.write_to(&mut out),
            None => {},
        }
        proof {
            assert(s2 =~= s1 + where_text(self.where_chain()));
            assert(s4 =~= s3 + match self.sort_key() {
                Some((f, o)) => sort_text(f, o),
                None => Seq::empty(),
            });
            assert(out@ =~= s4 + match self.search_term() {
                Some((f, v)) => search_text(f, v),
                None => Seq::empty(),
            });
            assert(out@ =~= self.text());
        }
        out
    }
}

/// A join of two or more names holds a comma, so it is `*` only when the
/// names are the single name `*`.
proof fn lemma_joined_star(ns: Seq<Seq<char>>)
    requires
        ns.len() > 0,
        ns != seq!["*"@],
    ensures
        joined(ns) != "*"@,
{
    reveal_strlit("*");
    if ns.len() == 1 {
        assert(joined(ns) == ns[0]);
        if ns[0] == "*"@ {
            assert(ns =~= seq!["*"@]);
        }
    } else {
        let j = joined(ns);
        let k: int = joined(ns.drop_last()).len() as int;
        assert(j[k] == ',');
        if j == "*"@ {
            assert(j.len() == 1);
            assert(j[0] == '*');
        }
    }
}

/// The `fields` clause lists every selected name in the order given, comma
/// joined; it reads `fields *;` exactly when no name was selected (or the
/// one name selected was `*` itself).
pub proof fn lemma_fields_clause(q: Apicalypse)
    ensures
        q.field_names().len() > 0 ==> fields_text(q.field_names()) == "fields "@ + joined(
            q.field_names(),
        ) + ";"@,
        q.field_names() != seq!["*"@] ==> (fields_text(q.field_names()) == "fields *;"@
            <==> q.field_names().len() == 0),
{
    let ns = q.field_names();
    if ns.len() > 0 && ns != seq!["*"@] {
        lemma_joined_star(ns);
        reveal_strlit("fields *;");
        reveal_strlit("fields ");
        reveal_strlit("*");
        reveal_strlit(";");
        let t = "fields "@ + joined(ns) + ";"@;
        if t == "fields *;"@ {
            assert(t.len() == 9);
            assert(joined(ns).len() == 1);
            assert(joined(ns) =~= t.subrange(7, 8));
            assert(joined(ns) =~= "*"@);
        }
    }
}

/// A query that was given no name to exclude has no `exclude` clause: its
/// text runs from the `fields` clause straight on to the `where` clause.
pub proof fn lemma_no_exclude_clause(q: Apicalypse, names: Seq<&str>)
    requires
        q.excluded_names().len() == 0,
        names.len() == 0,
    ensures
        q.excluded_names() + names_of(names) == q.excluded_names(),
        exclude_text(q.excluded_names()) == Seq::<char>::empty(),
        q.text() == fields_text(q.field_names()) + where_text(q.where_chain()) + limit_text(
            q.limit_value(),
        ) + offset_text(q.offset_value()) + match q.sort_key() {
            Some((f, o)) => sort_text(f, o),
            None => Seq::empty(),
        } + match q.search_term() {
            Some((f, v)) => search_text(f, v),
            None => Seq::empty(),
        },
{
    assert(q.excluded_names() + names_of(names) =~= q.excluded_names());
    assert(fields_text(q.field_names()) + exclude_text(q.excluded_names()) =~= fields_text(
        q.field_names(),
    ));
}

/// Builder `and`/`or` calls on a query without a `where` chain, however
/// many and in whatever mix, leave one chain: the conditions in call order,
/// each after the first joined by its call's glyph; the first call's
/// connective is not rendered.
pub proof fn lemma_where_calls(calls: Seq<(ChainKind, Seq<char>)>)
    requires
        calls.len() > 0,
    ensures
        after_where_calls(None, calls) == Some(flat_chain(calls)),
    decreases calls.len(),
{
    if calls.len() > 1 {
        lemma_where_calls(calls.drop_last());
        assert(after_where_calls(None, calls) == extended_chain(
            Some(flat_chain(calls.drop_last())),
            calls.last().0.text(),
            calls.last().1,
        ));
    } else {
        assert(calls.drop_last().len() == 0);
        assert(calls.last() == calls[0]);
        assert(after_where_calls(None, calls.drop_last()) == None::<Seq<char>>);
    }
}

/// The text of a query is a function of the query alone: rendering the same
/// query twice gives the same text.
pub proof fn lemma_text_deterministic(a: Apicalypse, b: Apicalypse)
    requires
        a == b,
    ensures
        a.text() == b.text(),
{
}

/// Appends the `fields` clause.
fn write_fields_clause(out: &mut String, names: &Vec<&str>)
    ensures
        final(out)@ == old(out)@ + fields_text(names_of(names@)),
{
    if names.len() == 0 {
        out.append("fields *;");
    } else {
        out.append("fields ");
        write_names(out, names);
        out.append(";");
        proof {
            assert(final(out)@ =~= old(out)@ + fields_text(names_of(names@)));
        }
    }
}

/// Appends the `exclude` clause, or nothing when `names` is empty.
fn write_exclude_clause(out: &mut String, names: &Vec<&str>)
    ensures
        final(out)@ == old(out)@ + exclude_text(names_of(names@)),
{
    if names.len() == 0 {
        proof {
            assert(old(out)@ =~= old(out)@ + exclude_text(names_of(names@)));
        }
    } else {
        out.append("exclude ");
        write_names(out, names);
        out.append(";");
        proof {
            assert(final(out)@ =~= old(out)@ + exclude_text(names_of(names@)));
        }
    }
}

/// Appends the `limit` clause, or nothing when unset.
fn write_limit_clause(out: &mut String, limit: Option<i32>)
    ensures
        final(out)@ == old(out)@ + limit_text(limit),
{
    match limit {
        Some(n) => {
            out.append("limit ");
            write_int(out, n as i64);
            out.append(";");
            proof {
                assert(final(out)@ =~= old(out)@ + limit_text(limit));
            }
        },
        None => {
            proof {
                assert(old(out)@ =~= old(out)@ + limit_text(limit));
            }
        },
    }
}

/// Appends the `offset` clause, or nothing when unset.
fn write_offset_clause(out: &mut String, offset: Option<i32>)
    ensures
        final(out)@ == old(out)@ + offset_text(offset),
{
    match offset {
        Some(n) => {
            out.append("offset ");
            write_int(out, n as i64);
            out.append(";");
            proof {
                assert(final(out)@ =~= old(out)@ + offset_text(offset));
            }
        },
        None => {
            proof {
                assert(old(out)@ =~= old(out)@ + offset_text(offset));
            }
        },
    }
}

impl<'a> Default for Apicalypse<'a> {
    /// A query with no clause set.
    fn default() -> (r: Self)
        ensures
            r.field_names() == Seq::<Seq<char>>::empty(),
            r.excluded_names() == Seq::<Seq<char>>::empty(),
            r.where_chain() is None,
            r.limit_value() is None,
            r.offset_value() is None,
            r.sort_key() is None,
            r.search_term() is None,
    {
        Apicalypse::new()
    }
}

/// Appends `names` to `v`.
fn extend_names<'a>(v: &mut Vec<&'a str>, names: &'a [&'a str])
    ensures
        names_of(final(v)@) == names_of(old(v)@) + names_of(names@),
{
    let mut i: usize = 0;
    while i < names.len()
        invariant
            i <= names@.len(),
            v@ == old(v)@ + names@.subrange(0, i as int),
        decreases names@.len() - i,
    {
        v.push(names[i]);
        proof {
            assert(v@ =~= old(v)@ + names@.subrange(0, i as int + 1));
        }
        i = i + 1;
    }
    proof {
        assert(names@.subrange(0, names@.len() as int) =~= names@);
        assert(names_of(v@) =~= names_of(old(v)@) + names_of(names@));
    }
}

/// Appends the comma-joined names.
fn write_names(out: &mut String, names: &Vec<&str>)
    ensures
        final(out)@ == old(out)@ + joined(names_of(names@)),
{
    let mut i: usize = 0;
    while i < names.len()
        invariant
            i <= names@.len(),
            out@ == old(out)@ + joined(names_of(names@.subrange(0, i as int))),
        decreases names@.len() - i,
    {
        let ghost before = out@;
        if i > 0 {
            out.append(",");
        }
        out.append(names[i]);
        proof {
            let sub = names_of(names@.subrange(0, i as int + 1));
            assert(sub.drop_last() =~= names_of(names@.subrange(0, i as int)));
            assert(sub.last() == names@[i as int]@);
            if i == 0 {
                assert(out@ =~= old(out)@ + joined(sub));
            } else {
                reveal_strlit(",");
                assert(","@ =~= seq![',']);
                assert(out@ =~= before + seq![','] + names@[i as int]@);
                assert(out@ =~= old(out)@ + joined(sub));
            }
        }
        i = i + 1;
    }
    proof {
        assert(names@.subrange(0, names@.len() as int) =~= names@);
    }
}

} // verus!
