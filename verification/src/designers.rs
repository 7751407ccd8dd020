//! Designers: what a new one looks like and how changes are merged in.

use vstd::prelude::*;
use crate::clock::{current_record_stamp, is_record_stamp};
use crate::ident::{fresh_id, ID_LENGTH};
use crate::text::{changed_or, text_of};

verus! {

/// A designer as stored.
#[derive(Debug, PartialEq, Eq)]
pub struct Designer {
    pub id: String,
    pub name: String,
    pub specialty: Option<String>,
    pub is_active: bool,
    pub created_at: String,
    pub updated_at: String,
}

/// What is asked for a new designer.
#[derive(Debug, PartialEq, Eq)]
pub struct CreateDesignerInput {
    pub name: String,
    pub specialty: Option<String>,
    pub is_active: Option<bool>,
}

/// The changes asked for a designer; a field left out stays as it is.
#[derive(Debug, PartialEq, Eq)]
pub struct UpdateDesignerInput {
    pub name: Option<String>,
    pub specialty: Option<String>,
    pub is_active: Option<bool>,
}

/// A `Designer` as a mathematical value.
pub struct DesignerData {
    pub id: Seq<char>,
    pub name: Seq<char>,
    pub specialty: Option<Seq<char>>,
    pub is_active: bool,
    pub created_at: Seq<char>,
    pub updated_at: Seq<char>,
}

impl View for Designer {
    type V = DesignerData;

    open spec fn view(&self) -> DesignerData {
        DesignerData {
            id: self.id@,
            name: self.name@,
            specialty: text_of(self.specialty),
            is_active: self.is_active,
            created_at: self.created_at@,
            updated_at: self.updated_at@,
        }
    }
}

/// The designer that an input describes: active unless said otherwise.
pub open spec fn designer_from(
    data: CreateDesignerInput,
    id: Seq<char>,
    now: Seq<char>,
) -> DesignerData {
    DesignerData {
        id,
        name: data.name@,
        specialty: text_of(data.specialty),
        is_active: match data.is_active {
            Some(active) => active,
            None => true,
        },
        created_at: now,
        updated_at: now,
    }
}

/// A designer after the changes, made at the time given.
pub open spec fn designer_after(
    current: DesignerData,
    data: UpdateDesignerInput,
    now: Seq<char>,
) -> DesignerData {
    DesignerData {
        id: current.id,
        name: match data.name {
            Some(n) => n@,
            None => current.name,
        },
        specialty: changed_or(text_of(data.specialty), current.specialty),
        is_active: match data.is_active {
            Some(active) => active,
            None => current.is_active,
        },
        created_at: current.created_at,
        updated_at: now,
    }
}

/// Makes a designer under the id and at the time given.
pub fn new_designer(data: CreateDesignerInput, id: String, now: String) -> (d: Designer)
    ensures
        d@ == designer_from(data, id@, now@),
{
    let is_active = match data.is_active {
        Some(active) => active,
        None => true,
    };
    Designer {
        id,
        name: data.name,
        specialty: data.specialty,
        is_active,
        created_at: now.clone(),
        updated_at: now,
    }
}

/// Makes a designer now, under a fresh id.
pub fn create_designer(data: CreateDesignerInput) -> (d: Designer)
    ensures
        d@ == designer_from(data, d@.id, d@.created_at),
        d@.id.len() == ID_LENGTH,
        is_record_stamp(d@.created_at),
{
    let id = fresh_id();
    let now = current_record_stamp();
    new_designer(data, id, now)
}

/// Applies changes to a designer at the time given.
pub fn update_designer(current: Designer, data: UpdateDesignerInput, now: String) -> (d: Designer)
    ensures
        d@ == designer_after(current@, data, now@),
{
    let name = match data.name {
        Some(n) => n,
        None => current.name,
    };
    let specialty = match data.specialty {
        Some(s) => Some(s),
        None => current.specialty,
    };
    let is_active = match data.is_active {
        Some(active) => active,
        None => current.is_active,
    };
    Designer {
        id: current.id,
        name,
        specialty,
        is_active,
        created_at: current.created_at,
        updated_at: now,
    }
}

/// Puts a stored row together, reading the flag that tells whether the
/// designer is active: 1 means active.
pub fn row_to_designer(
    id: String,
    name: String,
    specialty: Option<String>,
    active_flag: i32,
    created_at: String,
    updated_at: String,
) -> (d: Designer)
    ensures
        d@ == (DesignerData {
            id: id@,
            name: name@,
            specialty: text_of(specialty),
            is_active: active_flag == 1,
            created_at: created_at@,
            updated_at: updated_at@,
        }),
{
    Designer { id, name, specialty, is_active: flag_is_set(active_flag), created_at, updated_at }
}

/// How a yes or no is stored: as 1 or 0.
pub fn stored_flag(value: bool) -> (flag: i32)
    ensures
        flag == if value {
            1i32
        } else {
            0i32
        },
{
    if value {
        1
    } else {
        0
    }
}

/// How a stored flag is read: 1 is yes, anything else no.
pub fn flag_is_set(flag: i32) -> (value: bool)
    ensures
        value == (flag == 1),
{
    flag == 1
}

} // verus!
