//! Structured-field projections of entities: the API-facing shape, kept apart
//! from the storage layout. A serializer walks the fields in order.

use vstd::prelude::*;

verus! {

/// The value of one projected field.
#[derive(Clone, Debug, PartialEq, Eq)]
pub enum FieldValue {
    Uint(u64),
    Text(String),
    Bytes(Vec<u8>),
}

/// A named field of a projection.
#[derive(Clone, Debug, PartialEq, Eq)]
pub struct Field {
    pub name: String,
    pub value: FieldValue,
}

/// A field value as plain mathematical values.
pub enum FieldView {
    Uint(u64),
    Text(Seq<char>),
    Bytes(Seq<u8>),
}

impl View for FieldValue {
    type V = FieldView;

    open spec fn view(&self) -> FieldView {
        match self {
            FieldValue::Uint(n) => FieldView::Uint(*n),
            FieldValue::Text(s) => FieldView::Text(s@),
            FieldValue::Bytes(b) => FieldView::Bytes(b@),
        }
    }
}

impl View for Field {
    type V = (Seq<char>, FieldView);

    open spec fn view(&self) -> (Seq<char>, FieldView) {
        (self.name@, self.value@)
    }
}

/// The fields of a projection, in order, as plain values.
pub open spec fn fields_view(fields: Seq<Field>) -> Seq<(Seq<char>, FieldView)> {
    fields.map_values(|f: Field| f@)
}

/// Appends a numeric field.
pub fn push_uint(fields: &mut Vec<Field>, name: &str, n: u64)
    ensures
        fields_view(final(fields)@) == fields_view(old(fields)@).push((name@, FieldView::Uint(n))),
{
    fields.push(Field { name: String::from_str(name), value: FieldValue::Uint(n) });
    assert(fields_view(final(fields)@) =~= fields_view(old(fields)@).push(
        (name@, FieldView::Uint(n)),
    ));
}

/// Appends a text field.
pub fn push_text(fields: &mut Vec<Field>, name: &str, s: &String)
    ensures
        fields_view(final(fields)@) == fields_view(old(fields)@).push((name@, FieldView::Text(s@))),
{
    fields.push(Field { name: String::from_str(name), value: FieldValue::Text(s.clone()) });
    assert(fields_view(final(fields)@) =~= fields_view(old(fields)@).push(
        (name@, FieldView::Text(s@)),
    ));
}

/// Appends a byte-string field.
pub fn push_bytes(fields: &mut Vec<Field>, name: &str, b: &Vec<u8>)
    ensures
        fields_view(final(fields)@) == fields_view(old(fields)@).push((name@, FieldView::Bytes(b@))),
{
    fields.push(Field { name: String::from_str(name), value: FieldValue::Bytes(b.clone()) });
    assert(fields_view(final(fields)@) =~= fields_view(old(fields)@).push(
        (name@, FieldView::Bytes(b@)),
    ));
}

} // verus!
