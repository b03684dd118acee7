use chat_rs::messages::content::{self, CompleteReasonEnum, Content, RoleEnum};
use chat_rs::messages::parts::{PartEnum, Parts};
use chat_rs::messages::Messages;

#[test]
fn test_messages_push() {
    let mut messages = Messages::default();
    let sys_content = content::from_system(vec!["You are a helpful machine"]);
    let user_content = content::from_user(vec!["Hi there, I'm a user!"]);

    messages.push(sys_content).push(user_content);

    assert_eq!(messages.len(), 2);
    let thinking_part = PartEnum::from_reasoning("Thinking...".to_string());
    let model_content = Content {
        parts: Parts(vec![thinking_part]),
        role: RoleEnum::Model,
        complete_reason: CompleteReasonEnum::NoReason,
        metadata: None,
    };

    messages.push(model_content.clone());

    assert_eq!(messages.len(), 3);
    assert_eq!(messages.last().expect("Last message content not found"), &model_content);

    let response_part = PartEnum::from_text("Hello there, user".to_string());
    let model_content = Content {
        parts: Parts(vec![response_part]),
        role: RoleEnum::Model,
        complete_reason: CompleteReasonEnum::Stop,
        metadata: None,
    };

    messages.push(model_content);
    assert_eq!(messages.len(), 3);
}

#[test]
fn push_of_the_same_role_appends_parts_to_the_last_message() {
    let mut messages = Messages::default();
    messages.push(content::from_user(vec!["a"]));
    messages.push(content::from_user(vec!["b"]));
    assert_eq!(messages.len(), 1);
    let last = messages.last().unwrap();
    assert_eq!(last.parts.len(), 2);
    assert_eq!(last.parts.0[1].text().unwrap().as_str(), "b");
}

#[test]
fn extend_appends_messages_as_they_are() {
    let mut a = Messages::default();
    a.push(content::from_user(vec!["a"]));
    let mut b = Messages::default();
    b.push(content::from_user(vec!["b"]));
    a.extend(b);
    assert_eq!(a.len(), 2);
}

#[test]
fn message_list_constructors_make_one_message() {
    let m = chat_rs::messages::from_user(vec!["hi", "there"]);
    assert_eq!(m.len(), 1);
    assert_eq!(m.last().unwrap().role, RoleEnum::User);
    assert_eq!(m.last().unwrap().parts.len(), 2);
    let s = chat_rs::messages::from_system(vec!["rules"]);
    assert_eq!(s.last().unwrap().role, RoleEnum::System);
    let model = chat_rs::messages::from_model(vec!["ok"]);
    assert_eq!(model.last().unwrap().role, RoleEnum::Model);
}
