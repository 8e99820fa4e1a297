use vstd::prelude::*;

verus! {

/// A postal address, every part optional.
#[derive(Clone, Debug)]
pub struct Address {
    pub country: Option<String>,
    pub zip_code: Option<String>,
    pub city: Option<String>,
    pub line_1: Option<String>,
    pub line_2: Option<String>,
}

/// A person's preferences.
#[derive(Clone, Debug)]
pub struct PersonSettings {
    pub locale: Option<String>,
}

/// One input record.
#[derive(Clone, Debug)]
pub struct Person {
    pub id: String,
    pub first_name: String,
    pub last_name: String,
    pub sex: String,
    pub email: String,
    pub address: Option<Address>,
    pub settings: Option<PersonSettings>,
}

} // verus!
