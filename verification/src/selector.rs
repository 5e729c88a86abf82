//! Field selectors: the `|`-joined, nestable field lists that remote
//! methods take in their `fields` parameter.

use vstd::prelude::*;

verus! {

use vstd::string::StringExecFns;

/// One requested field: plain, or a field with a nested selection of
/// subfields.
pub enum Field {
    One(String),
    Nested(String, Vec<Field>),
}

/// The rendering of one field: its name, with a bracketed nested
/// selector when it has subfields.
pub open spec fn spec_field_rendered(f: Field) -> Seq<char>
    decreases f,
{
    match f {
        Field::One(name) => name@,
        Field::Nested(base, inner) => base@ + "["@ + spec_selector(inner@) + "]"@,
    }
}

/// The rendering of a selection: the fields' renderings joined with
/// `|`.
pub open spec fn spec_selector(fields: Seq<Field>) -> Seq<char>
    decreases fields,
{
    if fields.len() == 0 {
        Seq::empty()
    } else if fields.len() == 1 {
        spec_field_rendered(fields.first())
    } else {
        spec_field_rendered(fields.first()) + "|"@ + spec_selector(fields.drop_first())
    }
}

/// Appending one field to the end of a rendered selection.
proof fn lemma_selector_push(fields: Seq<Field>, f: Field)
    ensures
        spec_selector(fields.push(f)) =~= if fields.len() == 0 {
            spec_field_rendered(f)
        } else {
            spec_selector(fields) + "|"@ + spec_field_rendered(f)
        },
    decreases fields.len(),
{
    let n = fields.push(f);
    if fields.len() == 0 {
        assert(n.len() == 1);
        assert(n.first() == f);
    } else {
        assert(n.drop_first() =~= fields.drop_first().push(f));
        lemma_selector_push(fields.drop_first(), f);
        if fields.len() == 1 {
            assert(spec_selector(n) =~= spec_field_rendered(n.first()) + "|"@ + spec_selector(
                n.drop_first(),
            ));
            assert(spec_selector(n.drop_first()) =~= spec_field_rendered(f));
        }
    }
}

/// Renders one field.
fn render_field(f: &Field) -> (r: String)
    ensures
        r@ == spec_field_rendered(*f),
    decreases *f,
{
    match f {
        Field::One(name) => {
            let mut out = String::new();
            out.append(name.as_str());
            out
        },
        Field::Nested(base, inner) => {
            let mut out = String::new();
            out.append(base.as_str());
            out.append("[");
            let nested = format_selector_fields(inner);
            out.append(nested.as_str());
            out.append("]");
            out
        },
    }
}

/// Renders a selection of fields as the remote API's `fields`
/// parameter expects it: renderings joined with `|`, nested
/// selections bracketed.
pub fn format_selector_fields(fields: &Vec<Field>) -> (r: String)
    ensures
        r@ == spec_selector(fields@),
    decreases fields@,
{
    let mut out = String::new();
    let n = fields.len();
    let mut i: usize = 0;
    while i < n
        invariant
            0 <= i <= n,
            n == fields@.len(),
            out@ =~= spec_selector(fields@.take(i as int)),
        decreases n - i,
    {
        if i > 0 {
            out.append("|");
        }
        proof {
            assert(decreases_to!(fields@ => fields@[i as int]));
        }
        let piece = render_field(&fields[i]);
        out.append(piece.as_str());
        proof {
            lemma_selector_push(fields@.take(i as int), fields@[i as int]);
            assert(fields@.take(i + 1) =~= fields@.take(i as int).push(fields@[i as int]));
        }
        i = i + 1;
    }
    assert(fields@.take(n as int) =~= fields@);
    out
}

} // verus!
