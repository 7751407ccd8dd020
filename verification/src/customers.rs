//! Customers: what a new one looks like and how changes are merged in.

use vstd::prelude::*;
use vstd::string::*;
use crate::clock::{current_record_stamp, is_record_stamp};
use crate::ident::{fresh_id, ID_LENGTH};
use crate::text::{changed_or, same_text, text_of};

verus! {

/// A customer as stored.
#[derive(Debug, Clone, PartialEq, Eq)]
pub struct Customer {
    pub id: String,
    pub name: String,
    pub phone: Option<String>,
    pub email: Option<String>,
    pub birthdate: Option<String>,
    pub gender: Option<String>,
    pub preferred_designer_id: Option<String>,
    pub preferred_service: Option<String>,
    pub allergies: Option<String>,
    pub total_visits: i32,
    pub last_visit_date: Option<String>,
    pub notes: Option<String>,
    pub created_at: String,
    pub updated_at: String,
}

/// What is asked for a new customer.
#[derive(Debug, PartialEq, Eq)]
pub struct CreateCustomerInput {
    pub name: String,
    pub phone: Option<String>,
    pub email: Option<String>,
    pub birthdate: Option<String>,
    pub gender: Option<String>,
    pub preferred_designer_id: Option<String>,
    pub preferred_service: Option<String>,
    pub allergies: Option<String>,
    pub notes: Option<String>,
}

/// The changes asked for a customer; a field left out stays as it is.
#[derive(Debug, PartialEq, Eq)]
pub struct UpdateCustomerInput {
    pub name: Option<String>,
    pub phone: Option<String>,
    pub email: Option<String>,
    pub birthdate: Option<String>,
    pub gender: Option<String>,
    pub preferred_designer_id: Option<String>,
    pub preferred_service: Option<String>,
    pub allergies: Option<String>,
    pub notes: Option<String>,
}

/// One reservation in a customer's history.
#[derive(Debug, PartialEq, Eq)]
pub struct CustomerReservation {
    pub id: String,
    pub date: String,
    pub time: String,
    pub service_type: Option<String>,
    pub designer_name: Option<String>,
    pub status: String,
    pub notes: Option<String>,
}

/// A `Customer` as a mathematical value.
pub struct CustomerData {
    pub id: Seq<char>,
    pub name: Seq<char>,
    pub phone: Option<Seq<char>>,
    pub email: Option<Seq<char>>,
    pub birthdate: Option<Seq<char>>,
    pub gender: Option<Seq<char>>,
    pub preferred_designer_id: Option<Seq<char>>,
    pub preferred_service: Option<Seq<char>>,
    pub allergies: Option<Seq<char>>,
    pub total_visits: i32,
    pub last_visit_date: Option<Seq<char>>,
    pub notes: Option<Seq<char>>,
    pub created_at: Seq<char>,
    pub updated_at: Seq<char>,
}

impl View for Customer {
    type V = CustomerData;

    open spec fn view(&self) -> CustomerData {
        CustomerData {
            id: self.id@,
            name: self.name@,
            phone: text_of(self.phone),
            email: text_of(self.email),
            birthdate: text_of(self.birthdate),
            gender: text_of(self.gender),
            preferred_designer_id: text_of(self.preferred_designer_id),
            preferred_service: text_of(self.preferred_service),
            allergies: text_of(self.allergies),
            total_visits: self.total_visits,
            last_visit_date: text_of(self.last_visit_date),
            notes: text_of(self.notes),
            created_at: self.created_at@,
            updated_at: self.updated_at@,
        }
    }
}

/// Told when a phone number belongs to another customer already.
pub open spec fn phone_taken_text() -> Seq<char> {
    "이미 등록된 전화번호입니다."@
}

/// Whether a phone number is one to look up: given and not empty.
pub open spec fn is_given(phone: Option<Seq<char>>) -> bool {
    phone matches Some(p) && p.len() > 0
}

/// The customer that an input describes, under the id and at the time given:
/// never seen yet.
pub open spec fn customer_from(
    data: CreateCustomerInput,
    id: Seq<char>,
    now: Seq<char>,
) -> CustomerData {
    CustomerData {
        id,
        name: data.name@,
        phone: text_of(data.phone),
        email: text_of(data.email),
        birthdate: text_of(data.birthdate),
        gender: text_of(data.gender),
        preferred_designer_id: text_of(data.preferred_designer_id),
        preferred_service: text_of(data.preferred_service),
        allergies: text_of(data.allergies),
        total_visits: 0,
        last_visit_date: None,
        notes: text_of(data.notes),
        created_at: now,
        updated_at: now,
    }
}

/// A customer after the changes, made at the time given. Visits are not
/// touched, nor the id or the time of creation.
pub open spec fn customer_after(
    current: CustomerData,
    data: UpdateCustomerInput,
    now: Seq<char>,
) -> CustomerData {
    CustomerData {
        id: current.id,
        name: match data.name {
            Some(n) => n@,
            None => current.name,
        },
        phone: changed_or(text_of(data.phone), current.phone),
        email: changed_or(text_of(data.email), current.email),
        birthdate: changed_or(text_of(data.birthdate), current.birthdate),
        gender: changed_or(text_of(data.gender), current.gender),
        preferred_designer_id: changed_or(
            text_of(data.preferred_designer_id),
            current.preferred_designer_id,
        ),
        preferred_service: changed_or(text_of(data.preferred_service), current.preferred_service),
        allergies: changed_or(text_of(data.allergies), current.allergies),
        total_visits: current.total_visits,
        last_visit_date: current.last_visit_date,
        notes: changed_or(text_of(data.notes), current.notes),
        created_at: current.created_at,
        updated_at: now,
    }
}

/// Whether a changed phone number must be looked up: it is given, not empty,
/// and not the one the customer has.
pub open spec fn changes_phone(current: Option<Seq<char>>, change: Option<Seq<char>>) -> bool {
    is_given(change) && change != current
}

/// What a customer operation stands for.
pub open spec fn customer_result(r: Result<Customer, String>) -> Result<CustomerData, Seq<char>> {
    match r {
        Ok(c) => Ok(c@),
        Err(why) => Err(why@),
    }
}

fn has_text(value: &Option<String>) -> (r: bool)
    ensures
        r == is_given(text_of(*value)),
{
    match value {
        Some(t) => t.as_str().unicode_len() > 0,
        None => false,
    }
}

fn same_optional(a: &Option<String>, b: &Option<String>) -> (r: bool)
    ensures
        r == (text_of(*a) == text_of(*b)),
{
    match (a, b) {
        (Some(x), Some(y)) => same_text(x.as_str(), y.as_str()),
        (None, None) => true,
        _ => false,
    }
}

fn or_old(change: Option<String>, old: Option<String>) -> (r: Option<String>)
    ensures
        text_of(r) == changed_or(text_of(change), text_of(old)),
{
    match change {
        Some(c) => Some(c),
        None => old,
    }
}

/// Whether the phone number of a new customer must be looked up among the
/// customers there are.
pub fn create_needs_phone_check(data: &CreateCustomerInput) -> (r: bool)
    ensures
        r == is_given(text_of(data.phone)),
{
    has_text(&data.phone)
}

/// Whether a change of phone number must be looked up among the other customers.
pub fn update_needs_phone_check(current: &Customer, data: &UpdateCustomerInput) -> (r: bool)
    ensures
        r == changes_phone(current@.phone, text_of(data.phone)),
{
    has_text(&data.phone) && !same_optional(&data.phone, &current.phone)
}

/// Makes a customer under the id and at the time given. Refused if the phone
/// number had to be looked up and was found with another customer.
pub fn new_customer(
    data: CreateCustomerInput,
    phone_taken: bool,
    id: String,
    now: String,
) -> (r: Result<Customer, String>)
    ensures
        customer_result(r) == if is_given(text_of(data.phone)) && phone_taken {
            Err::<CustomerData, Seq<char>>(phone_taken_text())
        } else {
            Ok(customer_from(data, id@, now@))
        },
{
    if has_text(&data.phone) && phone_taken {
        return Err(String::from_str("이미 등록된 전화번호입니다."));
    }
    Ok(
        Customer {
            id,
            name: data.name,
            phone: data.phone,
            email: data.email,
            birthdate: data.birthdate,
            gender: data.gender,
            preferred_designer_id: data.preferred_designer_id,
            preferred_service: data.preferred_service,
            allergies: data.allergies,
            total_visits: 0,
            last_visit_date: None,
            notes: data.notes,
            created_at: now.clone(),
            updated_at: now,
        },
    )
}

/// Makes a customer now, under a fresh id.
pub fn create_customer(
    data: CreateCustomerInput,
    phone_taken: bool,
) -> (r: Result<Customer, String>)
    ensures
        is_given(text_of(data.phone)) && phone_taken ==> r is Err && r->Err_0@ == phone_taken_text(),
        !(is_given(text_of(data.phone)) && phone_taken) ==> {
            &&& r matches Ok(c)
            &&& c@ == customer_from(data, c@.id, c@.created_at)
            &&& c@.id.len() == ID_LENGTH
            &&& is_record_stamp(c@.created_at)
        },
{
    let id = fresh_id();
    let now = current_record_stamp();
    new_customer(data, phone_taken, id, now)
}

/// Applies changes to a customer at the time given. Refused if the new phone
/// number had to be looked up and was found with another customer.
pub fn update_customer(
    current: Customer,
    data: UpdateCustomerInput,
    phone_taken: bool,
    now: String,
) -> (r: Result<Customer, String>)
    ensures
        customer_result(r) == if changes_phone(current@.phone, text_of(data.phone)) && phone_taken {
            Err::<CustomerData, Seq<char>>(phone_taken_text())
        } else {
            Ok(customer_after(current@, data, now@))
        },
{
    if update_needs_phone_check(&current, &data) && phone_taken {
        return Err(String::from_str("이미 등록된 전화번호입니다."));
    }
    let name = match data.name {
        Some(n) => n,
        None => current.name,
    };
    Ok(
        Customer {
            id: current.id,
            name,
            phone: or_old(data.phone, current.phone),
            email: or_old(data.email, current.email),
            birthdate: or_old(data.birthdate, current.birthdate),
            gender: or_old(data.gender, current.gender),
            preferred_designer_id: or_old(data.preferred_designer_id, current.preferred_designer_id),
            preferred_service: or_old(data.preferred_service, current.preferred_service),
            allergies: or_old(data.allergies, current.allergies),
            total_visits: current.total_visits,
            last_visit_date: current.last_visit_date,
            notes: or_old(data.notes, current.notes),
            created_at: current.created_at,
            updated_at: now,
        },
    )
}

/// The number of visits read from a stored customer: none where nothing is stored.
pub fn visits_or_zero(stored: Option<i32>) -> (visits: i32)
    ensures
        visits == match stored {
            Some(n) => n,
            None => 0,
        },
{
    match stored {
        Some(n) => n,
        None => 0,
    }
}

} // verus!
