use chat_notify::dto::{get_chat_type, valid_chat_dto, AppError, ChatDTO};
use chat_notify::event::ChatType;

#[test]
fn chat_type_follows_name_size_and_visibility() {
    assert_eq!(get_chat_type(&ChatDTO::new("", &[1, 2], false)), ChatType::Single);
    assert_eq!(get_chat_type(&ChatDTO::new("", &[1, 2, 3], false)), ChatType::Group);
    assert_eq!(
        get_chat_type(&ChatDTO::new("general", &[1, 2, 3], true)),
        ChatType::PublicChannel
    );
    assert_eq!(
        get_chat_type(&ChatDTO::new("private", &[1, 2, 3], false)),
        ChatType::PrivateChannel
    );
}

#[test]
fn dto_new_treats_empty_name_as_absent() {
    let unnamed = ChatDTO::new("", &[1, 2], false);
    assert!(unnamed.name.is_none());
    assert_eq!(unnamed.members, vec![1, 2]);
    assert!(!unnamed.public);

    let named = ChatDTO::new("general", &[3, 4], true);
    assert_eq!(named.name.as_deref(), Some("general"));
    assert_eq!(named.members, vec![3, 4]);
    assert!(named.public);
}

fn error_message(r: Result<(), AppError>) -> String {
    match r {
        Err(AppError::ChatDTOError(m)) => m,
        Ok(()) => panic!("expected a rejection"),
    }
}

#[test]
fn chat_needs_at_least_two_members() {
    let dto = ChatDTO::new("", &[1], false);
    assert_eq!(error_message(valid_chat_dto(&dto, 1)), "Chat must have at least 2 members");
}

#[test]
fn large_unnamed_group_is_rejected() {
    let dto = ChatDTO::new("", &[1, 2, 3, 4, 5, 6, 7, 8, 9], false);
    assert_eq!(
        error_message(valid_chat_dto(&dto, 9)),
        "Group chat with more than 8 members must have a name"
    );
}

#[test]
fn missing_members_are_rejected() {
    let dto = ChatDTO::new("general", &[1, 2, 6], false);
    assert_eq!(error_message(valid_chat_dto(&dto, 2)), "Some members do not exist");
}

#[test]
fn valid_dto_is_accepted() {
    let dto = ChatDTO::new("general", &[1, 2, 3], true);
    assert!(valid_chat_dto(&dto, 3).is_ok());

    let large_named = ChatDTO::new("big", &[1, 2, 3, 4, 5, 6, 7, 8, 9], false);
    assert!(valid_chat_dto(&large_named, 9).is_ok());
}
