use vstd::prelude::*;

use crate::models::{Address, Person};
use crate::text::{has_prefix, starts_with};

verus! {

/// The fields of a person document in the index.
#[derive(Clone, Copy, Debug, PartialEq, Eq, Structural)]
pub enum PersonField {
    Id,
    FirstName,
    FirstNameNgram,
    LastName,
    LastNameNgram,
    Sex,
    Email,
    EmailNgram,
    AddressCountry,
    AddressZipCode,
    AddressCity,
    AddressCityNgram,
    AddressLine1,
    AddressLine1Ngram,
    AddressLine2,
    AddressLine2Ngram,
}

/// The name of a field in the schema.
pub open spec fn field_name(f: PersonField) -> Seq<char> {
    match f {
        PersonField::Id => "id"@,
        PersonField::FirstName => "first_name"@,
        PersonField::FirstNameNgram => "first_name_ngram"@,
        PersonField::LastName => "last_name"@,
        PersonField::LastNameNgram => "last_name_ngram"@,
        PersonField::Sex => "sex"@,
        PersonField::Email => "email"@,
        PersonField::EmailNgram => "email_ngram"@,
        PersonField::AddressCountry => "address_country"@,
        PersonField::AddressZipCode => "address_zip_code"@,
        PersonField::AddressCity => "address_city"@,
        PersonField::AddressCityNgram => "address_city_ngram"@,
        PersonField::AddressLine1 => "address_line_1"@,
        PersonField::AddressLine1Ngram => "address_line_1_ngram"@,
        PersonField::AddressLine2 => "address_line_2"@,
        PersonField::AddressLine2Ngram => "address_line_2_ngram"@,
    }
}

/// Every field, in the order the schema declares them.
pub open spec fn all_fields() -> Seq<PersonField> {
    seq![
        PersonField::Id,
        PersonField::FirstName,
        PersonField::FirstNameNgram,
        PersonField::LastName,
        PersonField::LastNameNgram,
        PersonField::Sex,
        PersonField::Email,
        PersonField::EmailNgram,
        PersonField::AddressCountry,
        PersonField::AddressZipCode,
        PersonField::AddressCity,
        PersonField::AddressCityNgram,
        PersonField::AddressLine1,
        PersonField::AddressLine1Ngram,
        PersonField::AddressLine2,
        PersonField::AddressLine2Ngram,
    ]
}

/// Whether a field holds hierarchical facet paths rather than text.
pub open spec fn is_facet(f: PersonField) -> bool {
    f == PersonField::Sex || f == PersonField::AddressCountry
}

impl PersonField {
    /// Every field, in the order the schema declares them.
    pub fn all() -> (r: Vec<PersonField>)
        ensures
            r@ == all_fields(),
    {
        let r = vec![
            PersonField::Id,
            PersonField::FirstName,
            PersonField::FirstNameNgram,
            PersonField::LastName,
            PersonField::LastNameNgram,
            PersonField::Sex,
            PersonField::Email,
            PersonField::EmailNgram,
            PersonField::AddressCountry,
            PersonField::AddressZipCode,
            PersonField::AddressCity,
            PersonField::AddressCityNgram,
            PersonField::AddressLine1,
            PersonField::AddressLine1Ngram,
            PersonField::AddressLine2,
            PersonField::AddressLine2Ngram,
        ];
        assert(r@ =~= all_fields());
        r
    }

    /// The position of the field in the schema's order.
    pub fn position(&self) -> (r: usize)
        ensures
            r < all_fields().len(),
            all_fields()[r as int] == *self,
    {
        match self {
            PersonField::Id => 0,
            PersonField::FirstName => 1,
            PersonField::FirstNameNgram => 2,
            PersonField::LastName => 3,
            PersonField::LastNameNgram => 4,
            PersonField::Sex => 5,
            PersonField::Email => 6,
            PersonField::EmailNgram => 7,
            PersonField::AddressCountry => 8,
            PersonField::AddressZipCode => 9,
            PersonField::AddressCity => 10,
            PersonField::AddressCityNgram => 11,
            PersonField::AddressLine1 => 12,
            PersonField::AddressLine1Ngram => 13,
            PersonField::AddressLine2 => 14,
            PersonField::AddressLine2Ngram => 15,
        }
    }

    /// The field's name in the schema.
    pub fn name(&self) -> (r: &'static str)
        ensures
            r@ == field_name(*self),
    {
        match self {
            PersonField::Id => "id",
            PersonField::FirstName => "first_name",
            PersonField::FirstNameNgram => "first_name_ngram",
            PersonField::LastName => "last_name",
            PersonField::LastNameNgram => "last_name_ngram",
            PersonField::Sex => "sex",
            PersonField::Email => "email",
            PersonField::EmailNgram => "email_ngram",
            PersonField::AddressCountry => "address_country",
            PersonField::AddressZipCode => "address_zip_code",
            PersonField::AddressCity => "address_city",
            PersonField::AddressCityNgram => "address_city_ngram",
            PersonField::AddressLine1 => "address_line_1",
            PersonField::AddressLine1Ngram => "address_line_1_ngram",
            PersonField::AddressLine2 => "address_line_2",
            PersonField::AddressLine2Ngram => "address_line_2_ngram",
        }
    }

    /// Whether the field holds facet paths.
    pub fn is_facet(&self) -> (r: bool)
        ensures
            r == is_facet(*self),
    {
        match self {
            PersonField::Sex | PersonField::AddressCountry => true,
            _ => false,
        }
    }
}

/// A value put into one field of a document.
#[derive(Clone, Debug)]
pub struct FieldValue {
    pub field: PersonField,
    pub value: String,
}

impl View for FieldValue {
    type V = (PersonField, Seq<char>);

    open spec fn view(&self) -> (PersonField, Seq<char>) {
        (self.field, self.value@)
    }
}

/// The path under which a facet value is indexed: the value itself when it
/// already starts at the root `/`, else the value placed under the root.
pub open spec fn facet_path_of(v: Seq<char>) -> Seq<char> {
    if starts_with(v, seq!['/']) {
        v
    } else {
        seq!['/'] + v
    }
}

/// The value of a facet field for one category under a top-level facet name:
/// `/<name>/<value>`.
pub open spec fn facet_under(name: Seq<char>, v: Seq<char>) -> Seq<char> {
    seq!['/'] + name + seq!['/'] + v
}

/// The one value of an optional text field, or nothing.
pub open spec fn optional(f: PersonField, v: Option<String>) -> Seq<(PersonField, Seq<char>)> {
    match v {
        Some(s) => seq![(f, s@)],
        None => seq![],
    }
}

/// The same text put into a plain field and its n-gram twin, or nothing.
pub open spec fn optional_pair(f: PersonField, g: PersonField, v: Option<String>) -> Seq<
    (PersonField, Seq<char>),
> {
    match v {
        Some(s) => seq![(f, s@), (g, s@)],
        None => seq![],
    }
}

/// The country facet `/country/<country>`, when the address names a country.
pub open spec fn country_field(v: Option<String>) -> Seq<(PersonField, Seq<char>)> {
    match v {
        Some(c) => seq![
            (PersonField::AddressCountry, facet_under(seq!['c', 'o', 'u', 'n', 't', 'r', 'y'], c@)),
        ],
        None => seq![],
    }
}

/// The fields that an address contributes, in order.
pub open spec fn address_fields(a: Address) -> Seq<(PersonField, Seq<char>)> {
    country_field(a.country) + optional(PersonField::AddressZipCode, a.zip_code) + optional_pair(
        PersonField::AddressCity,
        PersonField::AddressCityNgram,
        a.city,
    ) + optional_pair(PersonField::AddressLine1, PersonField::AddressLine1Ngram, a.line_1)
        + optional_pair(PersonField::AddressLine2, PersonField::AddressLine2Ngram, a.line_2)
}

/// The document of a person, field by field: the identifier, each name and the
/// e-mail twice (plain and n-gram), the sex as the facet `/sex/<sex>`, then what
/// the address holds. Settings are not indexed.
pub open spec fn person_fields(p: Person) -> Seq<(PersonField, Seq<char>)> {
    let head = seq![
        (PersonField::Id, p.id@),
        (PersonField::FirstName, p.first_name@),
        (PersonField::FirstNameNgram, p.first_name@),
        (PersonField::LastName, p.last_name@),
        (PersonField::LastNameNgram, p.last_name@),
        (PersonField::Email, p.email@),
        (PersonField::EmailNgram, p.email@),
        (PersonField::Sex, facet_under(seq!['s', 'e', 'x'], p.sex@)),
    ];
    match p.address {
        Some(a) => head + address_fields(a),
        None => head,
    }
}

/// The views of a list of field values.
pub open spec fn field_views(fs: Seq<FieldValue>) -> Seq<(PersonField, Seq<char>)> {
    fs.map_values(|f: FieldValue| f@)
}

/// Places a facet value under the root `/` unless it already starts there.
pub fn facet_path(value: &str) -> (r: String)
    ensures
        r@ == facet_path_of(value@),
{
    proof {
        reveal_strlit("/");
        assert("/"@ =~= seq!['/']);
    }
    if has_prefix(value, "/") {
        value.to_owned()
    } else {
        let mut path = String::from_str("/");
        path.append(value);
        path
    }
}

fn push_optional(fields: &mut Vec<FieldValue>, f: PersonField, v: &Option<String>)
    ensures
        field_views(final(fields)@) == field_views(old(fields)@) + optional(f, *v),
{
    let ghost start = fields@;
    if let Some(s) = v {
        fields.push(FieldValue { field: f, value: s.clone() });
    }
    assert(field_views(fields@) =~= field_views(start) + optional(f, *v));
}

fn push_optional_pair(fields: &mut Vec<FieldValue>, f: PersonField, g: PersonField, v: &Option<String>)
    ensures
        field_views(final(fields)@) == field_views(old(fields)@) + optional_pair(f, g, *v),
{
    let ghost start = fields@;
    if let Some(s) = v {
        fields.push(FieldValue { field: f, value: s.clone() });
        fields.push(FieldValue { field: g, value: s.clone() });
    }
    assert(field_views(fields@) =~= field_views(start) + optional_pair(f, g, *v));
}

impl Person {
    /// The field values of this person's document, in the order they are added.
    pub fn to_fields(&self) -> (r: Vec<FieldValue>)
        ensures
            field_views(r@) == person_fields(*self),
    {
        proof {
            reveal_strlit("/sex/");
            reveal_strlit("/country/");
            assert("/sex/"@ =~= seq!['/'] + seq!['s', 'e', 'x'] + seq!['/']);
            assert("/country/"@ =~= seq!['/'] + seq!['c', 'o', 'u', 'n', 't', 'r', 'y'] + seq!['/']);
        }
        let mut fields: Vec<FieldValue> = Vec::new();
        fields.push(FieldValue { field: PersonField::Id, value: self.id.clone() });
        fields.push(FieldValue { field: PersonField::FirstName, value: self.first_name.clone() });
        fields.push(FieldValue { field: PersonField::FirstNameNgram, value: self.first_name.clone() });
        fields.push(FieldValue { field: PersonField::LastName, value: self.last_name.clone() });
        fields.push(FieldValue { field: PersonField::LastNameNgram, value: self.last_name.clone() });
        fields.push(FieldValue { field: PersonField::Email, value: self.email.clone() });
        fields.push(FieldValue { field: PersonField::EmailNgram, value: self.email.clone() });
        let mut sex = String::from_str("/sex/");
        sex.append(self.sex.as_str());
        fields.push(FieldValue { field: PersonField::Sex, value: sex });
        let ghost head = fields@;
        assert(field_views(head) =~= person_fields(*self).take(8));
        if let Some(address) = &self.address {
            let ghost start = fields@;
            if let Some(country) = &address.country {
                let mut facet = String::from_str("/country/");
                facet.append(country.as_str());
                fields.push(FieldValue { field: PersonField::AddressCountry, value: facet });
            }
            assert(field_views(fields@) =~= field_views(start) + country_field(address.country));
            push_optional(&mut fields, PersonField::AddressZipCode, &address.zip_code);
            push_optional_pair(&mut fields, PersonField::AddressCity, PersonField::AddressCityNgram, &address.city);
            push_optional_pair(&mut fields, PersonField::AddressLine1, PersonField::AddressLine1Ngram, &address.line_1);
            push_optional_pair(&mut fields, PersonField::AddressLine2, PersonField::AddressLine2Ngram, &address.line_2);
            assert(field_views(fields@) =~= person_fields(*self));
        } else {
            assert(field_views(fields@) =~= person_fields(*self));
        }
        fields
    }
}

} // verus!
