//! Reservations: what a new one looks like, which ones a request asks for,
//! and the record kept of a change of status.

use vstd::prelude::*;
use vstd::string::*;
use crate::clock::{current_record_stamp, is_record_stamp};
use crate::ident::{fresh_id, ID_LENGTH};
use crate::text::text_of;

verus! {

/// A reservation as stored.
#[derive(Debug, PartialEq, Eq)]
pub struct Reservation {
    pub id: String,
    pub customer_name: String,
    pub customer_phone: Option<String>,
    pub date: String,
    pub time: String,
    pub designer_id: Option<String>,
    pub service_type: Option<String>,
    pub status: String,
    pub notes: Option<String>,
    pub created_at: String,
    pub updated_at: String,
}

/// What is asked for a reservation, new or changed.
#[derive(Debug, PartialEq, Eq)]
pub struct CreateReservationInput {
    pub customer_name: String,
    pub customer_phone: Option<String>,
    pub date: String,
    pub time: String,
    pub designer_id: Option<String>,
    pub service_type: Option<String>,
    pub notes: Option<String>,
}

/// A `Reservation` as a mathematical value.
pub struct ReservationData {
    pub id: Seq<char>,
    pub customer_name: Seq<char>,
    pub customer_phone: Option<Seq<char>>,
    pub date: Seq<char>,
    pub time: Seq<char>,
    pub designer_id: Option<Seq<char>>,
    pub service_type: Option<Seq<char>>,
    pub status: Seq<char>,
    pub notes: Option<Seq<char>>,
    pub created_at: Seq<char>,
    pub updated_at: Seq<char>,
}

impl View for Reservation {
    type V = ReservationData;

    open spec fn view(&self) -> ReservationData {
        ReservationData {
            id: self.id@,
            customer_name: self.customer_name@,
            customer_phone: text_of(self.customer_phone),
            date: self.date@,
            time: self.time@,
            designer_id: text_of(self.designer_id),
            service_type: text_of(self.service_type),
            status: self.status@,
            notes: text_of(self.notes),
            created_at: self.created_at@,
            updated_at: self.updated_at@,
        }
    }
}

/// The reservation that an input describes: pending.
pub open spec fn reservation_from(
    data: CreateReservationInput,
    id: Seq<char>,
    now: Seq<char>,
) -> ReservationData {
    ReservationData {
        id,
        customer_name: data.customer_name@,
        customer_phone: text_of(data.customer_phone),
        date: data.date@,
        time: data.time@,
        designer_id: text_of(data.designer_id),
        service_type: text_of(data.service_type),
        status: "pending"@,
        notes: text_of(data.notes),
        created_at: now,
        updated_at: now,
    }
}

/// Makes a reservation under the id and at the time given.
pub fn new_reservation(data: CreateReservationInput, id: String, now: String) -> (r: Reservation)
    ensures
        r@ == reservation_from(data, id@, now@),
{
    Reservation {
        id,
        customer_name: data.customer_name,
        customer_phone: data.customer_phone,
        date: data.date,
        time: data.time,
        designer_id: data.designer_id,
        service_type: data.service_type,
        status: String::from_str("pending"),
        notes: data.notes,
        created_at: now.clone(),
        updated_at: now,
    }
}

/// Makes a reservation now, under a fresh id.
pub fn create_reservation(data: CreateReservationInput) -> (r: Reservation)
    ensures
        r@ == reservation_from(data, r@.id, r@.created_at),
        r@.id.len() == ID_LENGTH,
        is_record_stamp(r@.created_at),
{
    let id = fresh_id();
    let now = current_record_stamp();
    new_reservation(data, id, now)
}

/// Which reservations a request asks for. `T` is the type of a day's text.
#[derive(Debug, PartialEq, Eq)]
pub enum ReservationQuery<T> {
    /// Those of one day, by time.
    OnDay(T),
    /// Those from the first day to the second, the latest day first.
    Between(T, T),
    /// Those from a day on.
    From(T),
    /// Those up to a day.
    Until(T),
    /// All.
    All,
}

impl View for ReservationQuery<String> {
    type V = ReservationQuery<Seq<char>>;

    open spec fn view(&self) -> ReservationQuery<Seq<char>> {
        match *self {
            ReservationQuery::OnDay(d) => ReservationQuery::OnDay(d@),
            ReservationQuery::Between(a, b) => ReservationQuery::Between(a@, b@),
            ReservationQuery::From(a) => ReservationQuery::From(a@),
            ReservationQuery::Until(b) => ReservationQuery::Until(b@),
            ReservationQuery::All => ReservationQuery::All,
        }
    }
}

/// The query for a request: a single day wins over a range, and a range may
/// be open at either end.
pub open spec fn query_for(
    date: Option<Seq<char>>,
    date_from: Option<Seq<char>>,
    date_to: Option<Seq<char>>,
) -> ReservationQuery<Seq<char>> {
    match (date, date_from, date_to) {
        (Some(d), _, _) => ReservationQuery::OnDay(d),
        (None, Some(a), Some(b)) => ReservationQuery::Between(a, b),
        (None, Some(a), None) => ReservationQuery::From(a),
        (None, None, Some(b)) => ReservationQuery::Until(b),
        (None, None, None) => ReservationQuery::All,
    }
}

/// Picks the query for a request for reservations.
pub fn get_reservations(
    date: Option<String>,
    date_from: Option<String>,
    date_to: Option<String>,
) -> (q: ReservationQuery<String>)
    ensures
        q@ == query_for(text_of(date), text_of(date_from), text_of(date_to)),
{
    match date {
        Some(d) => ReservationQuery::OnDay(d),
        None => match (date_from, date_to) {
            (Some(a), Some(b)) => ReservationQuery::Between(a, b),
            (Some(a), None) => ReservationQuery::From(a),
            (None, Some(b)) => ReservationQuery::Until(b),
            (None, None) => ReservationQuery::All,
        },
    }
}

/// The record kept of one change of a reservation's status.
#[derive(Debug, PartialEq, Eq)]
pub struct StatusChange {
    pub id: String,
    pub reservation_id: String,
    pub old_status: String,
    pub new_status: String,
    pub changed_at: String,
}

/// Makes the record of a change of status under the id and at the time given.
pub fn new_status_change(
    reservation_id: String,
    old_status: String,
    new_status: String,
    id: String,
    now: String,
) -> (c: StatusChange)
    ensures
        c.id@ == id@,
        c.reservation_id@ == reservation_id@,
        c.old_status@ == old_status@,
        c.new_status@ == new_status@,
        c.changed_at@ == now@,
{
    StatusChange { id, reservation_id, old_status, new_status, changed_at: now }
}

/// Makes the record of a change of status now, under a fresh id.
pub fn update_reservation_status(
    reservation_id: String,
    old_status: String,
    new_status: String,
) -> (c: StatusChange)
    ensures
        c.reservation_id@ == reservation_id@,
        c.old_status@ == old_status@,
        c.new_status@ == new_status@,
        c.id@.len() == ID_LENGTH,
        is_record_stamp(c.changed_at@),
{
    let id = fresh_id();
    let now = current_record_stamp();
    new_status_change(reservation_id, old_status, new_status, id, now)
}

} // verus!
