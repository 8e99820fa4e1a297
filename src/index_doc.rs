use vstd::prelude::*;

use crate::document::{
    all_fields, field_name, field_views, is_facet, optional, optional_pair, person_fields, FieldValue,
    PersonField,
};
use crate::models::Person;
use crate::text::starts_with;
use tantivy::schema::{Field, Schema};
use tantivy::{TantivyDocument, TantivyError};

verus! {

#[verifier::external_type_specification]
#[verifier::external_body]
pub struct ExSchema(Schema);

#[verifier::external_type_specification]
#[verifier::external_body]
pub struct ExTantivyDocument(TantivyDocument);

#[verifier::external_type_specification]
#[verifier::external_body]
pub struct ExTantivyError(TantivyError);

/// The fields a schema declares: each name with its field id.
pub uninterp spec fn schema_field_ids(s: Schema) -> Map<Seq<char>, u32>;

/// The values a document holds, in the order they were added: the field id,
/// whether the value is a facet, and its text (for a facet, its encoded path).
pub uninterp spec fn document_values(d: TantivyDocument) -> Seq<(u32, bool, Seq<char>)>;

/// The encoded form of a facet path, as the index engine stores it.
pub uninterp spec fn facet_encoding(path: Seq<char>) -> Seq<char>;

/// Relies on Schema::get_field: the field registered under the name, or an error
/// when the schema has no such field.
#[verifier::external_body]
fn get_field_id(schema: &Schema, name: &str) -> (r: Result<u32,TantivyError>)
    ensures
        schema_field_ids(*schema).contains_key(name@) ==> r is Ok && r->Ok_0 == schema_field_ids(
            *schema,
        )[name@],
        !schema_field_ids(*schema).contains_key(name@) ==> r matches Err(_),
{
    match schema.get_field(name) {
        Ok(field) => Ok(field.field_id()),
        Err(err) => Err(err),
    }
}

/// Relies on TantivyDocument::new: a document that holds no value.
#[verifier::external_body]
fn new_document() -> (r: TantivyDocument)
    ensures
        document_values(r) == Seq::<(u32, bool, Seq<char>)>::empty(),
{
    TantivyDocument::new()
}

/// Relies on TantivyDocument::add_text: appends the text as a value of the field.
#[verifier::external_body]
fn add_text(document: &mut TantivyDocument, field: u32, text: String)
    ensures
        document_values(*final(document)) == document_values(*old(document)).push(
            (field, false, text@),
        ),
{
    document.add_text(Field::from_field_id(field), text)
}

/// Relies on TantivyDocument::add_facet with a `&str` path, which parses it with
/// Facet::from (that panics unless the path starts with `/`) and appends the facet.
#[verifier::external_body]
fn add_facet(document: &mut TantivyDocument, field: u32, path: &str)
    requires
        starts_with(path@, seq!['/']),
    ensures
        document_values(*final(document)) == document_values(*old(document)).push(
            (field, true, facet_encoding(path@)),
        ),
{
    document.add_facet(Field::from_field_id(field), path)
}

/// Why a person could not be turned into a document.
#[derive(Clone, Debug)]
pub enum DocumentError {
    /// The schema lacks the named field.
    FieldNotFound(String),
}

/// The schema declares every field of a person document.
pub open spec fn declares_all_fields(ids: Map<Seq<char>, u32>) -> bool {
    forall|k: int| 0 <= k < all_fields().len() ==> ids.contains_key(#[trigger] field_name(all_fields()[k]))
}

/// The value a document receives for one field of a person.
pub open spec fn entry_of(ids: Map<Seq<char>, u32>, fv: (PersonField, Seq<char>)) -> (u32, bool, Seq<char>) {
    (
        ids[field_name(fv.0)],
        is_facet(fv.0),
        if is_facet(fv.0) {
            facet_encoding(fv.1)
        } else {
            fv.1
        },
    )
}

/// The values of a person's document under a schema's field ids.
pub open spec fn document_of(p: Person, ids: Map<Seq<char>, u32>) -> Seq<(u32, bool, Seq<char>)> {
    person_fields(p).map_values(|fv: (PersonField, Seq<char>)| entry_of(ids, fv))
}

proof fn lemma_optional_plain(f: PersonField, v: Option<String>)
    requires
        !is_facet(f),
    ensures
        forall|k: int| 0 <= k < optional(f, v).len() ==> !is_facet(#[trigger] optional(f, v)[k].0),
{
}

proof fn lemma_optional_pair_plain(f: PersonField, g: PersonField, v: Option<String>)
    requires
        !is_facet(f),
        !is_facet(g),
    ensures
        forall|k: int|
            0 <= k < optional_pair(f, g, v).len() ==> !is_facet(#[trigger] optional_pair(f, g, v)[k].0),
{
}

/// Every facet value of a person's document is a path from the root `/`.
proof fn lemma_facets_rooted(p: Person)
    ensures
        forall|k: int|
            0 <= k < person_fields(p).len() && is_facet(#[trigger] person_fields(p)[k].0) ==> starts_with(
                person_fields(p)[k].1,
                seq!['/'],
            ),
{
    let pf = person_fields(p);
    if let Some(a) = p.address {
        lemma_optional_plain(PersonField::AddressZipCode, a.zip_code);
        lemma_optional_pair_plain(PersonField::AddressCity, PersonField::AddressCityNgram, a.city);
        lemma_optional_pair_plain(PersonField::AddressLine1, PersonField::AddressLine1Ngram, a.line_1);
        lemma_optional_pair_plain(PersonField::AddressLine2, PersonField::AddressLine2Ngram, a.line_2);
    }
    assert forall|k: int| 0 <= k < pf.len() && is_facet(#[trigger] pf[k].0) implies starts_with(
        pf[k].1,
        seq!['/'],
    ) by {
        assert(pf[k].1.len() > 0 && pf[k].1[0] == '/');
        assert(pf[k].1.subrange(0, 1) =~= seq!['/']);
    }
}

impl Person {
    /// Builds this person's document under the schema, looking every field up by
    /// name first; fails on the first field, in schema order, that the schema lacks.
    pub fn to_doc(self, schema: Schema) -> (r: Result<TantivyDocument, DocumentError>)
        ensures
            declares_all_fields(schema_field_ids(schema)) <==> r is Ok,
            r matches Ok(d) ==> document_values(d) == document_of(self, schema_field_ids(schema)),
            r matches Err(DocumentError::FieldNotFound(name)) ==> exists|k: int|
                0 <= k < all_fields().len() && name@ == field_name(all_fields()[k])
                    && !schema_field_ids(schema).contains_key(name@) && forall|j: int|
                    0 <= j < k ==> schema_field_ids(schema).contains_key(
                        #[trigger] field_name(all_fields()[j]),
                    ),
    {
        let ghost map = schema_field_ids(schema);
        let fields = PersonField::all();
        let mut ids: Vec<u32> = Vec::new();
        let mut k: usize = 0;
        while k < fields.len()
            invariant
                fields@ == all_fields(),
                map == schema_field_ids(schema),
                k <= fields@.len(),
                ids@.len() == k,
                forall|j: int|
                    0 <= j < k ==> map.contains_key(#[trigger] field_name(all_fields()[j])) && ids@[j]
                        == map[field_name(all_fields()[j])],
            decreases fields@.len() - k,
        {
            let name = fields[k].name();
            match get_field_id(&schema, name) {
                Ok(id) => ids.push(id),
                Err(_) => {
                    return Err(DocumentError::FieldNotFound(name.to_owned()));
                },
            }
            k = k + 1;
        }
        assert(declares_all_fields(map));
        let values = self.to_fields();
        proof {
            lemma_facets_rooted(self);
        }
        let mut document = new_document();
        let mut i: usize = 0;
        while i < values.len()
            invariant
                map == schema_field_ids(schema),
                field_views(values@) == person_fields(self),
                ids@.len() == all_fields().len(),
                forall|j: int|
                    0 <= j < all_fields().len() ==> ids@[j] == map[field_name(#[trigger] all_fields()[j])],
                forall|j: int|
                    0 <= j < person_fields(self).len() && is_facet(#[trigger] person_fields(self)[j].0)
                        ==> starts_with(person_fields(self)[j].1, seq!['/']),
                i <= values@.len(),
                document_values(document) == document_of(self, map).take(i as int),
            decreases values@.len() - i,
        {
            let value: &FieldValue = &values[i];
            assert(field_views(values@)[i as int] == value@);
            let id = ids[value.field.position()];
            if value.field.is_facet() {
                assert(is_facet(person_fields(self)[i as int].0));
                add_facet(&mut document, id, value.value.as_str());
            } else {
                add_text(&mut document, id, value.value.clone());
            }
            assert(document_of(self, map).take(i + 1) =~= document_of(self, map).take(i as int).push(
                entry_of(map, person_fields(self)[i as int]),
            ));
            i = i + 1;
        }
        assert(document_of(self, map).take(i as int) =~= document_of(self, map));
        Ok(document)
    }
}

} // verus!
