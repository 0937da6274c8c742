//! Projection of a table of optional request options into the ordered list of
//! query parameters that is sent to an endpoint.
use vstd::prelude::*;
use crate::youtube_options::WireLiteral;

verus! {

/// A query parameter as sent: its upstream name and its value.
pub type QueryParam = (&'static str, String);

/// A request option: its upstream name and its value, if it is set.
pub type OptionEntry = (&'static str, Option<String>);

pub open spec fn opt_view(o: Option<String>) -> Option<Seq<char>> {
    match o {
        Some(s) => Some(s@),
        None => None,
    }
}

pub open spec fn param_view(p: QueryParam) -> (Seq<char>, Seq<char>) {
    (p.0@, p.1@)
}

pub open spec fn params_view(ps: Seq<QueryParam>) -> Seq<(Seq<char>, Seq<char>)> {
    ps.map_values(|p: QueryParam| param_view(p))
}

pub open spec fn entry_view(e: OptionEntry) -> (Seq<char>, Option<Seq<char>>) {
    (e.0@, opt_view(e.1))
}

pub open spec fn table_view(t: Seq<OptionEntry>) -> Seq<(Seq<char>, Option<Seq<char>>)> {
    t.map_values(|e: OptionEntry| entry_view(e))
}

pub open spec fn digit_char(d: nat) -> char {
    if d == 0 { '0' } else if d == 1 { '1' } else if d == 2 { '2' } else if d == 3 { '3' }
    else if d == 4 { '4' } else if d == 5 { '5' } else if d == 6 { '6' } else if d == 7 { '7' }
    else if d == 8 { '8' } else { '9' }
}

/// Decimal digits of a natural number, most significant first, without
/// leading zeros.
pub open spec fn nat_decimal(n: nat) -> Seq<char>
    decreases n,
{
    if n < 10 {
        seq![digit_char(n)]
    } else {
        nat_decimal(n / 10).push(digit_char(n % 10))
    }
}

/// Decimal notation of an integer, with a leading '-' when it is negative.
pub open spec fn int_decimal(n: int) -> Seq<char> {
    if n < 0 {
        seq!['-'] + nat_decimal((-n) as nat)
    } else {
        nat_decimal(n as nat)
    }
}

/// Relies on `ToString` through `Display` for `i64` in the standard library:
/// the decimal notation, with a '-' in front of a negative number.
#[verifier::external_body]
pub(crate) fn decimal_string(n: i64) -> (r: String)
    ensures
        r@ == int_decimal(n as int),
{
    n.to_string()
}

/// An entry for an option that holds text.
pub fn text_entry(name: &'static str, value: &Option<String>) -> (r: OptionEntry)
    ensures
        entry_view(r) == (name@, opt_view(*value)),
{
    match value {
        Some(x) => (name, Some(x.clone())),
        None => (name, None),
    }
}

pub open spec fn opt_wire<T: WireLiteral>(o: Option<T>) -> Option<Seq<char>> {
    match o {
        Some(x) => Some(x.wire()),
        None => None,
    }
}

pub open spec fn opt_decimal(o: Option<i64>) -> Option<Seq<char>> {
    match o {
        Some(x) => Some(int_decimal(x as int)),
        None => None,
    }
}

/// An entry for an option that is one of a closed set of choices.
pub fn choice_entry<T: WireLiteral>(name: &'static str, value: &Option<T>) -> (r: OptionEntry)
    ensures
        entry_view(r) == (name@, opt_wire(*value)),
{
    match value {
        Some(x) => (name, Some(x.to_string())),
        None => (name, None),
    }
}

/// An entry for an option that holds an integer, sent in decimal.
pub fn integer_entry(name: &'static str, value: Option<i64>) -> (r: OptionEntry)
    ensures
        entry_view(r) == (name@, opt_decimal(value)),
{
    match value {
        Some(x) => (name, Some(decimal_string(x))),
        None => (name, None),
    }
}

/// Adds an entry at the end of a table of options.
pub fn push_entry(t: &mut Vec<OptionEntry>, e: OptionEntry)
    ensures
        table_view(final(t)@) == table_view(old(t)@).push(entry_view(e)),
{
    t.push(e);
    proof {
        assert(table_view(final(t)@) =~= table_view(old(t)@).push(entry_view(e)));
    }
}

/// The parameters that a table of options yields: one per option that is set,
/// in the order of the table.
pub open spec fn present(t: Seq<(Seq<char>, Option<Seq<char>>)>) -> Seq<(Seq<char>, Seq<char>)>
    decreases t.len(),
{
    if t.len() == 0 {
        Seq::empty()
    } else {
        let rest = present(t.drop_last());
        match t.last().1 {
            Some(v) => rest.push((t.last().0, v)),
            None => rest,
        }
    }
}

/// How many parameters carry the given name.
pub open spec fn count_name(ps: Seq<(Seq<char>, Seq<char>)>, name: Seq<char>) -> nat
    decreases ps.len(),
{
    if ps.len() == 0 {
        0
    } else {
        count_name(ps.drop_last(), name) + if ps.last().0 == name {
            1nat
        } else {
            0nat
        }
    }
}

/// The names of a table of options are pairwise distinct.
pub open spec fn distinct_names(t: Seq<(Seq<char>, Option<Seq<char>>)>) -> bool {
    forall|i: int, j: int| 0 <= i < t.len() && 0 <= j < t.len() && i != j ==> t[i].0 != t[j].0
}

/// The fixed parameters followed by one parameter for each option that is set.
pub fn project(fixed: Vec<QueryParam>, table: &Vec<OptionEntry>) -> (r: Vec<QueryParam>)
    ensures
        params_view(r@) == params_view(fixed@) + present(table_view(table@)),
{
    let mut out = fixed;
    let ghost fixed_view = params_view(out@);
    let ghost tv = table_view(table@);
    let mut i: usize = 0;
    while i < table.len()
        invariant
            tv == table_view(table@),
            i <= table.len(),
            params_view(out@) == fixed_view + present(tv.subrange(0, i as int)),
        decreases table.len() - i,
    {
        let name = table[i].0;
        let ghost before = params_view(out@);
        proof {
            let sub = tv.subrange(0, i + 1);
            assert(sub.drop_last() =~= tv.subrange(0, i as int));
            assert(sub.last() == entry_view(table@[i as int]));
        }
        match &table[i].1 {
            Some(v) => {
                out.push((name, v.clone()));
                proof {
                    assert(params_view(out@) =~= before.push((name@, v@)));
                }
            },
            None => {},
        }
        proof {
            assert(params_view(out@) =~= fixed_view + present(tv.subrange(0, i + 1)));
        }
        i = i + 1;
    }
    proof {
        assert(tv.subrange(0, i as int) =~= tv);
    }
    out
}

pub proof fn lemma_count_concat(a: Seq<(Seq<char>, Seq<char>)>, b: Seq<(Seq<char>, Seq<char>)>, name: Seq<char>)
    ensures
        count_name(a + b, name) == count_name(a, name) + count_name(b, name),
    decreases b.len(),
{
    if b.len() > 0 {
        lemma_count_concat(a, b.drop_last(), name);
        assert((a + b).drop_last() =~= a + b.drop_last());
    } else {
        assert(a + b =~= a);
    }
}

pub proof fn lemma_count_push(s: Seq<(Seq<char>, Seq<char>)>, x: (Seq<char>, Seq<char>), name: Seq<char>)
    ensures
        count_name(s.push(x), name) == count_name(s, name) + if x.0 == name {
            1nat
        } else {
            0nat
        },
{
    assert(s.push(x).drop_last() =~= s);
}

/// A name that no option of the table carries is never sent.
pub proof fn lemma_count_present_absent(t: Seq<(Seq<char>, Option<Seq<char>>)>, name: Seq<char>)
    requires
        forall|j: int| 0 <= j < t.len() ==> t[j].0 != name,
    ensures
        count_name(present(t), name) == 0,
    decreases t.len(),
{
    if t.len() > 0 {
        lemma_count_present_absent(t.drop_last(), name);
        if let Some(v) = t.last().1 {
            lemma_count_push(present(t.drop_last()), (t.last().0, v), name);
        }
    }
}

/// In a table with distinct names, an option is sent once if it is set, with
/// its value, and not at all otherwise.
pub proof fn lemma_count_present(t: Seq<(Seq<char>, Option<Seq<char>>)>, i: int)
    requires
        distinct_names(t),
        0 <= i < t.len(),
    ensures
        count_name(present(t), t[i].0) == (if t[i].1 is Some {
            1nat
        } else {
            0nat
        }),
        t[i].1 is Some ==> present(t).contains((t[i].0, t[i].1->0)),
    decreases t.len(),
{
    let d = t.drop_last();
    if let Some(v) = t.last().1 {
        lemma_count_push(present(d), (t.last().0, v), t[i].0);
    }
    if i == t.len() - 1 {
        lemma_count_present_absent(d, t[i].0);
        if t[i].1 is Some {
            assert(present(t).last() == (t[i].0, t[i].1->0));
        }
    } else {
        assert(distinct_names(d));
        lemma_count_present(d, i);
        if t[i].1 is Some {
            let k = choose|k: int| 0 <= k < present(d).len() && present(d)[k] == (t[i].0, t[i].1->0);
            assert(present(t)[k] == (t[i].0, t[i].1->0));
        }
    }
}

} // verus!
