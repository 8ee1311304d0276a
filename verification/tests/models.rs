use openbridge::db::deserialize::FormError;
use openbridge::db::keydb::MaintenanceMSG;
use openbridge::db::mongo::ObjectID;
use openbridge::db::models::{
    GroupForm, NotebookInfo, User, UserDeleteForm, UserForm, UserPortalRep, UserType,
};
use openbridge::db::{collections_to_create, document_found, documents_found, search_pattern};
use openbridge::errors::BridgeError;

#[test]
fn test_usertype_partial_eq() {
    let user = UserType::User;
    let group = UserType::GroupAdmin;
    let system = UserType::SystemAdmin;

    assert_eq!(user, UserType::User);
    assert_eq!(group, UserType::GroupAdmin);
    assert_eq!(system, UserType::SystemAdmin);
}

#[test]
fn test_enum_to_array() {
    let col = UserType::to_array_str();
    assert_eq!(col, ["user", "group", "system"])
}

#[test]
fn user_type_names_roundtrip() {
    for t in [UserType::User, UserType::GroupAdmin, UserType::SystemAdmin] {
        let name: &str = t.into();
        assert_eq!(UserType::from(name), t);
    }
    assert_eq!(UserType::from("superuser"), UserType::User);
    assert_eq!(UserType::from("System"), UserType::User);
}

#[test]
fn test_group_form_deserialize() {
    let form = "name=group1&subscriptions=sub1&last_updated_by=me";
    let result = GroupForm::from_query(form).unwrap();
    assert_eq!(result.name, "group1");
    assert!(result.subscriptions.contains(&"sub1".to_string()));
    assert_eq!(result.last_updated_by, "me");
}

#[test]
fn test_user_form_deserialize() {
    let form = "sub=123&groups=group1&user_type=system&last_updated_by=me";
    let result = UserForm::from_query(form).unwrap();
    assert_eq!(result.email, "123");
    assert_eq!(result.groups, vec!["group1"]);
    assert_eq!(result.user_type, Some(UserType::SystemAdmin));
    assert_eq!(result.last_updated_by, "me");
}

#[test]
fn group_form_decodes_values_and_keeps_repeats() {
    let form = "name=my%20group&subscriptions=a&subscriptions=b%2Fc&last_updated_by=x&name=final";
    let result = GroupForm::from_query(form).unwrap();
    assert_eq!(result.name, "final");
    assert_eq!(result.subscriptions, vec!["a".to_string(), "b/c".to_string()]);
    assert_eq!(result.last_updated_by, "x");
}

#[test]
fn group_form_value_stops_at_second_equals() {
    let result = GroupForm::from_query("name=a=b&last_updated_by=me").unwrap();
    assert_eq!(result.name, "a");
}

#[test]
fn form_errors() {
    assert_eq!(
        GroupForm::from_query("name&last_updated_by=me").unwrap_err(),
        FormError::MissingValue
    );
    assert_eq!(
        GroupForm::from_query("name=%FF&last_updated_by=me").unwrap_err(),
        FormError::InvalidEncoding
    );
    assert_eq!(
        GroupForm::from_query("color=red&name=x&last_updated_by=me").unwrap_err(),
        FormError::UnknownField("color".to_string())
    );
    assert_eq!(
        GroupForm::from_query("subscriptions=a&last_updated_by=me").unwrap_err(),
        FormError::MissingField("name".to_string())
    );
    assert_eq!(
        GroupForm::from_query("name=a").unwrap_err(),
        FormError::MissingField("last_updated_by".to_string())
    );
    // The first failing parameter decides the error.
    assert_eq!(
        GroupForm::from_query("color=red&name").unwrap_err(),
        FormError::UnknownField("color".to_string())
    );
    assert_eq!(
        UserForm::from_query("groups=g&last_updated_by=me").unwrap_err(),
        FormError::MissingField("name".to_string())
    );
    assert_eq!(
        UserDeleteForm::from_query("sub=1&last_updated_by=me").unwrap_err(),
        FormError::UnknownField("sub".to_string())
    );
}

#[test]
fn user_forms() {
    let f = UserForm::from_query("email=a%40b.c&last_updated_by=me").unwrap();
    assert_eq!(f.email, "a@b.c");
    assert!(f.groups.is_empty());
    assert_eq!(f.user_type, None);
    let f = UserForm::from_query("email=a&user_type=group&groups=x&groups=y&last_updated_by=me")
        .unwrap();
    assert_eq!(f.user_type, Some(UserType::GroupAdmin));
    assert_eq!(f.groups, vec!["x".to_string(), "y".to_string()]);
    let d = UserDeleteForm::from_query("last_updated_by=root&email=u%2Bv").unwrap();
    assert_eq!(d.email, "u+v");
    assert_eq!(d.last_updated_by, "root");
}

#[test]
fn maintenance_messages() {
    assert_eq!(MaintenanceMSG::from_payload(b"start"), MaintenanceMSG::Start);
    assert_eq!(MaintenanceMSG::from_payload(b"stop"), MaintenanceMSG::Stop);
    assert_eq!(MaintenanceMSG::from_payload(b"stopped"), MaintenanceMSG::Ignored);
    assert_eq!(MaintenanceMSG::from_payload(b""), MaintenanceMSG::Ignored);
}

#[test]
fn lookups() {
    assert_eq!(search_pattern("ann"), "^ann");
    assert_eq!(document_found(Some(3)).ok(), Some(3));
    match document_found::<u8>(None) {
        Err(BridgeError::GeneralError(m)) => assert_eq!(m, "Could not find any document"),
        other => panic!("{:?}", other),
    }
    match documents_found::<u8>(vec![], true) {
        Err(BridgeError::RecordSearchError(m)) => assert_eq!(m, "Could not find any documents"),
        other => panic!("{:?}", other),
    }
    match documents_found::<u8>(vec![], false) {
        Err(BridgeError::GeneralError(m)) => assert_eq!(m, "Could not find any documents"),
        other => panic!("{:?}", other),
    }
    assert_eq!(documents_found(vec![1u8, 2], false).ok(), Some(vec![1u8, 2]));
}

#[test]
fn test_object_id_from_hex() {
    let id = ObjectID::new("507f1f77bcf86cd799439011");
    assert_eq!(
        id.into_inner(),
        [0x50, 0x7f, 0x1f, 0x77, 0xbc, 0xf8, 0x6c, 0xd7, 0x99, 0x43, 0x90, 0x11]
    );
    let upper = ObjectID::parse("507F1F77BCF86CD799439011").unwrap();
    assert_eq!(upper, id);
}

#[test]
fn test_object_id_rejects_other_text() {
    assert!(ObjectID::parse("507f1f77bcf86cd79943901").is_none());
    assert!(ObjectID::parse("507f1f77bcf86cd79943901g").is_none());
    assert!(ObjectID::parse("").is_none());
    assert!(ObjectID::parse("507f1f77bcf86cd7994390111").is_none());
    let fresh = ObjectID::new("not an id");
    let again = ObjectID::new("not an id");
    assert_ne!(fresh, again);
}

#[test]
fn test_object_id_hex() {
    let id = ObjectID::new("507F1F77BCF86CD799439011");
    assert_eq!(id.to_hex(), "507f1f77bcf86cd799439011");
    assert_eq!(ObjectID::parse(&id.to_hex()), Some(id));
}

fn sample_user(created_at: i128) -> User {
    User {
        _id: ObjectID::new("67aceff11a66c1fa7c99726c"),
        sub: "sub".to_string(),
        user_name: "Ada".to_string(),
        email: "ada@example.com".to_string(),
        groups: vec!["g".to_string()],
        user_type: UserType::GroupAdmin,
        token: None,
        notebook: Some(NotebookInfo {
            start_time: Some(5),
            last_active: None,
            max_idle_time: None,
            start_up_url: None,
            persist_pvc: true,
        }),
        created_at,
        updated_at: 1_700_086_400_000_000_000,
        last_updated_by: "admin".to_string(),
    }
}

#[test]
fn test_user_portal_rep() {
    let user = sample_user(1_700_000_000_000_000_000);
    let record = user.notebook.as_ref().unwrap().lifecycle_record();
    assert_eq!(record.start_time, Some(5));
    assert!(record.persist_pvc);
    let rep = UserPortalRep::from_user(user).unwrap();
    assert_eq!(rep._id, "67aceff11a66c1fa7c99726c");
    assert_eq!(rep.user_type, "group");
    assert_eq!(rep.created_at, "2023-11-14 22:13:20.0 +00:00:00");
    assert_eq!(rep.updated_at, "2023-11-15 22:13:20.0 +00:00:00");
    assert_eq!(rep.email, "ada@example.com");
    assert!(UserPortalRep::from_user(sample_user(i128::MAX)).is_none());
}

#[test]
fn test_collections_to_create() {
    let existing = vec!["users".to_string(), "locks".to_string(), "other".to_string()];
    assert_eq!(collections_to_create(&existing), vec!["groups", "applications"]);
    assert_eq!(collections_to_create(&vec![]), vec!["users", "groups", "locks", "applications"]);
}
