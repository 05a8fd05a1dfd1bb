use user_registry::domain::entities::user::User;
use user_registry::domain::errors::user_entity_error::UserEntityError;
use user_registry::domain::value_objects::id::ID;
use user_registry::presentation::dtos::user_dto::CreateUserDTO;

#[test]
fn new() {
    let name = "Andrew";
    let email = "andrew@email.com";
    let phone = "+550011111-2222";
    let address = "Dawn St.";

    let user = User::new(
        name.to_string(),
        email.to_string(),
        phone.to_string(),
        address.to_string(),
    );

    assert_eq!(user.id, ID::New);
    assert_eq!(user.name, name);
    assert_eq!(user.email, email);
    assert_eq!(user.phone, phone);
    assert_eq!(user.address, address);
}

#[test]
fn restore_non_positive_id() {
    let id = 0;

    let user = User::restore(
        id,
        "Andrew".to_string(),
        "andrew@email.com".to_string(),
        "+550011111-2222".to_string(),
        "Dawn St.".to_string(),
    );

    assert_eq!(user, Err(UserEntityError::InvalidId(0)))
}

#[test]
fn restore_ok() {
    let id = 42;
    let name = "Andrew";
    let email = "andrew@email.com";
    let phone = "+550011111-2222";
    let address = "Dawn St.";

    let user = User::restore(
        id,
        name.to_string(),
        email.to_string(),
        phone.to_string(),
        address.to_string(),
    )
    .unwrap();

    assert_eq!(user.id, ID::Existing(42));
    assert_eq!(user.name, name);
    assert_eq!(user.email, email);
    assert_eq!(user.phone, phone);
    assert_eq!(user.address, address);
}

#[test]
fn from_create_user_dto() {
    let dto = CreateUserDTO {
        name: String::from("Andrew"),
        email: String::from("andrew@email.com"),
        phone: String::from("+550011111-2222"),
        address: String::from("Dawn St."),
    };

    let user: User = dto.clone().into();

    assert_eq!(user.id, ID::New);
    assert_eq!(user.name, dto.name);
    assert_eq!(user.email, dto.email);
    assert_eq!(user.phone, dto.phone);
    assert_eq!(user.address, dto.address);
}

fn restore_with_id(id: i32) -> Result<User, UserEntityError> {
    User::restore(
        id,
        "Andrew".to_string(),
        "andrew@email.com".to_string(),
        "+550011111-2222".to_string(),
        "Dawn St.".to_string(),
    )
}

#[test]
fn restore_refuses_every_non_positive_id_with_that_id() {
    for id in [0, -1, -42, i32::MIN] {
        assert_eq!(restore_with_id(id), Err(UserEntityError::InvalidId(id)));
    }
}

#[test]
fn restore_accepts_every_positive_id() {
    for id in [1, 2, 42, i32::MAX] {
        let user = restore_with_id(id).unwrap();
        assert_eq!(user.id, ID::Existing(id));
    }
}

#[test]
fn new_is_unassigned_whatever_the_fields() {
    let empty = User::new(String::new(), String::new(), String::new(), String::new());
    assert_eq!(empty.id, ID::New);
    assert_eq!(empty.name, "");

    let odd = User::new(
        "42".to_string(),
        "not an email".to_string(),
        "-1".to_string(),
        "\u{e9}\n".to_string(),
    );
    assert_eq!(odd.id, ID::New);
    assert_eq!(odd.address, "\u{e9}\n");
}
