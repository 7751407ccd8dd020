use sisters_salon::business_hours::row_to_business_hours;
use sisters_salon::customers::{
    create_customer, create_needs_phone_check, new_customer, update_customer,
    update_needs_phone_check, visits_or_zero, CreateCustomerInput, Customer, UpdateCustomerInput,
};
use sisters_salon::designers::{
    create_designer, flag_is_set, new_designer, row_to_designer, stored_flag, update_designer,
    CreateDesignerInput, Designer, UpdateDesignerInput,
};
use sisters_salon::reservations::{
    create_reservation, get_reservations, new_reservation, new_status_change,
    update_reservation_status, CreateReservationInput, ReservationQuery,
};

fn some(text: &str) -> Option<String> {
    Some(text.to_string())
}

fn input(phone: Option<&str>) -> CreateCustomerInput {
    CreateCustomerInput {
        name: "Mina".to_string(),
        phone: phone.map(String::from),
        email: some("m@example.com"),
        birthdate: None,
        gender: some("female"),
        preferred_designer_id: None,
        preferred_service: some("cut"),
        allergies: None,
        notes: some("n"),
    }
}

fn stored() -> Customer {
    new_customer(input(Some("010")), false, "c-1".to_string(), "2024-01-01 00:00:00".to_string())
        .unwrap()
}

fn no_changes() -> UpdateCustomerInput {
    UpdateCustomerInput {
        name: None,
        phone: None,
        email: None,
        birthdate: None,
        gender: None,
        preferred_designer_id: None,
        preferred_service: None,
        allergies: None,
        notes: None,
    }
}

#[test]
fn new_customer_has_no_visits() {
    let c = stored();
    assert_eq!(
        c,
        Customer {
            id: "c-1".to_string(),
            name: "Mina".to_string(),
            phone: some("010"),
            email: some("m@example.com"),
            birthdate: None,
            gender: some("female"),
            preferred_designer_id: None,
            preferred_service: some("cut"),
            allergies: None,
            total_visits: 0,
            last_visit_date: None,
            notes: some("n"),
            created_at: "2024-01-01 00:00:00".to_string(),
            updated_at: "2024-01-01 00:00:00".to_string(),
        }
    );
}

#[test]
fn new_customer_with_taken_phone() {
    let r = new_customer(input(Some("010")), true, "c".to_string(), "t".to_string());
    assert_eq!(r, Err("이미 등록된 전화번호입니다.".to_string()));
    assert!(new_customer(input(Some("")), true, "c".to_string(), "t".to_string()).is_ok());
    assert!(new_customer(input(None), true, "c".to_string(), "t".to_string()).is_ok());
    assert!(create_needs_phone_check(&input(Some("010"))));
    assert!(!create_needs_phone_check(&input(Some(""))));
    assert!(!create_needs_phone_check(&input(None)));
}

#[test]
fn create_customer_stamps_and_numbers() {
    let a = create_customer(input(None), false).unwrap();
    let b = create_customer(input(None), false).unwrap();
    assert_ne!(a.id, b.id);
    assert_eq!(a.id.len(), 36);
    assert_eq!(a.created_at, a.updated_at);
    assert_eq!(a.created_at.len(), "2024-01-01 00:00:00".len());
    assert_eq!(a.total_visits, 0);
    assert_eq!(create_customer(input(Some("1")), true), Err("이미 등록된 전화번호입니다.".to_string()));
}

#[test]
fn update_customer_merges() {
    let mut current = stored();
    current.total_visits = 4;
    current.last_visit_date = some("2024-02-02");
    let changes = UpdateCustomerInput {
        name: some("Mina Kim"),
        phone: some("011"),
        email: None,
        birthdate: some("1990-01-01"),
        notes: some(""),
        ..no_changes()
    };
    let after = update_customer(current, changes, false, "2024-03-03 03:03:03".to_string()).unwrap();
    assert_eq!(after.id, "c-1");
    assert_eq!(after.name, "Mina Kim");
    assert_eq!(after.phone, some("011"));
    assert_eq!(after.email, some("m@example.com"));
    assert_eq!(after.birthdate, some("1990-01-01"));
    assert_eq!(after.gender, some("female"));
    assert_eq!(after.notes, some(""));
    assert_eq!(after.total_visits, 4);
    assert_eq!(after.last_visit_date, some("2024-02-02"));
    assert_eq!(after.created_at, "2024-01-01 00:00:00");
    assert_eq!(after.updated_at, "2024-03-03 03:03:03");
}

#[test]
fn update_customer_checks_changed_phone_only() {
    let taken = Err("이미 등록된 전화번호입니다.".to_string());
    let to = |phone: Option<&str>| UpdateCustomerInput { phone: phone.map(String::from), ..no_changes() };
    assert_eq!(update_customer(stored(), to(Some("011")), true, "t".to_string()), taken);
    assert!(update_customer(stored(), to(Some("010")), true, "t".to_string()).is_ok());
    assert!(update_customer(stored(), to(Some("")), true, "t".to_string()).is_ok());
    assert!(update_customer(stored(), to(None), true, "t".to_string()).is_ok());
    assert!(update_needs_phone_check(&stored(), &to(Some("011"))));
    assert!(!update_needs_phone_check(&stored(), &to(Some("010"))));
    assert!(!update_needs_phone_check(&stored(), &to(None)));
    let unchanged = update_customer(stored(), no_changes(), false, "2024-01-01 00:00:00".to_string());
    assert_eq!(unchanged, Ok(stored()));
}

#[test]
fn stored_visits() {
    assert_eq!(visits_or_zero(None), 0);
    assert_eq!(visits_or_zero(Some(3)), 3);
    assert_eq!(visits_or_zero(Some(-1)), -1);
}

#[test]
fn designers_default_to_active() {
    let d = new_designer(
        CreateDesignerInput { name: "Lee".to_string(), specialty: None, is_active: None },
        "d-1".to_string(),
        "t0".to_string(),
    );
    assert_eq!(
        d,
        Designer {
            id: "d-1".to_string(),
            name: "Lee".to_string(),
            specialty: None,
            is_active: true,
            created_at: "t0".to_string(),
            updated_at: "t0".to_string(),
        }
    );
    let off = new_designer(
        CreateDesignerInput { name: "Han".to_string(), specialty: some("perm"), is_active: Some(false) },
        "d-2".to_string(),
        "t0".to_string(),
    );
    assert!(!off.is_active);
    assert_eq!(off.specialty, some("perm"));
    let fresh = create_designer(CreateDesignerInput { name: "Ko".to_string(), specialty: None, is_active: None });
    assert_eq!(fresh.id.len(), 36);
    assert!(fresh.is_active);
    assert_eq!(fresh.created_at, fresh.updated_at);
}

#[test]
fn designers_merge_changes() {
    let current = row_to_designer("d-1".to_string(), "Lee".to_string(), some("cut"), 1, "t0".to_string(), "t1".to_string());
    assert!(current.is_active);
    let after = update_designer(
        current,
        UpdateDesignerInput { name: None, specialty: None, is_active: Some(false) },
        "t2".to_string(),
    );
    assert_eq!(
        after,
        Designer {
            id: "d-1".to_string(),
            name: "Lee".to_string(),
            specialty: some("cut"),
            is_active: false,
            created_at: "t0".to_string(),
            updated_at: "t2".to_string(),
        }
    );
    let renamed = update_designer(
        after,
        UpdateDesignerInput { name: some("Lee J"), specialty: some("dye"), is_active: None },
        "t3".to_string(),
    );
    assert_eq!(renamed.name, "Lee J");
    assert_eq!(renamed.specialty, some("dye"));
    assert!(!renamed.is_active);
}

#[test]
fn flags() {
    assert_eq!(stored_flag(true), 1);
    assert_eq!(stored_flag(false), 0);
    assert!(flag_is_set(1));
    assert!(!flag_is_set(0));
    assert!(!flag_is_set(2));
    assert!(!flag_is_set(-1));
    assert!(!row_to_designer("d".to_string(), "n".to_string(), None, 2, "a".to_string(), "b".to_string()).is_active);
    let closed = row_to_business_hours(0, 0, None, None, None, None, 1);
    assert!(closed.is_closed);
    let open = row_to_business_hours(1, 1, some("10:00"), some("20:00"), None, None, 0);
    assert!(!open.is_closed);
    assert_eq!(open.open_time, some("10:00"));
    assert_eq!(open.close_time, some("20:00"));
    assert_eq!((open.id, open.day_of_week), (1, 1));
}

fn booking() -> CreateReservationInput {
    CreateReservationInput {
        customer_name: "Mina".to_string(),
        customer_phone: some("010"),
        date: "2024-03-01".to_string(),
        time: "10:00".to_string(),
        designer_id: None,
        service_type: some("cut"),
        notes: None,
    }
}

#[test]
fn reservations_start_pending() {
    let r = new_reservation(booking(), "r-1".to_string(), "t0".to_string());
    assert_eq!(r.status, "pending");
    assert_eq!(r.id, "r-1");
    assert_eq!(r.customer_name, "Mina");
    assert_eq!(r.customer_phone, some("010"));
    assert_eq!((r.date.as_str(), r.time.as_str()), ("2024-03-01", "10:00"));
    assert_eq!(r.designer_id, None);
    assert_eq!(r.service_type, some("cut"));
    assert_eq!((r.created_at.as_str(), r.updated_at.as_str()), ("t0", "t0"));
    let fresh = create_reservation(booking());
    assert_eq!(fresh.status, "pending");
    assert_eq!(fresh.id.len(), 36);
}

#[test]
fn reservation_queries() {
    let d = |s: &str| Some(s.to_string());
    assert_eq!(get_reservations(d("a"), d("b"), d("c")), ReservationQuery::OnDay("a".to_string()));
    assert_eq!(get_reservations(d("a"), None, None), ReservationQuery::OnDay("a".to_string()));
    assert_eq!(
        get_reservations(None, d("b"), d("c")),
        ReservationQuery::Between("b".to_string(), "c".to_string())
    );
    assert_eq!(get_reservations(None, d("b"), None), ReservationQuery::From("b".to_string()));
    assert_eq!(get_reservations(None, None, d("c")), ReservationQuery::Until("c".to_string()));
    assert_eq!(get_reservations(None, None, None), ReservationQuery::All);
}

#[test]
fn status_changes_are_recorded() {
    let c = new_status_change(
        "r-1".to_string(),
        "pending".to_string(),
        "confirmed".to_string(),
        "h-1".to_string(),
        "t5".to_string(),
    );
    assert_eq!(c.id, "h-1");
    assert_eq!(c.reservation_id, "r-1");
    assert_eq!(c.old_status, "pending");
    assert_eq!(c.new_status, "confirmed");
    assert_eq!(c.changed_at, "t5");
    let now = update_reservation_status("r-1".to_string(), "confirmed".to_string(), "completed".to_string());
    assert_eq!(now.reservation_id, "r-1");
    assert_eq!(now.old_status, "confirmed");
    assert_eq!(now.new_status, "completed");
    assert_eq!(now.id.len(), 36);
}
