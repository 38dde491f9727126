use notifico::credentials::{Credential, CredentialStorage, SimpleCredentials};
use notifico::error::EngineError;
use notifico::pipeline::{Event, Pipeline};
use notifico::recipient::{Contact, MemoryRecipientDirectory, Recipient, RecipientDirectory};
use notifico::step::SerializedStep;

fn text(s: &str) -> serde_json::Value {
    serde_json::Value::String(s.to_string())
}

fn contact(channel: &str, address: &str) -> Contact {
    Contact { channel: channel.to_string(), address: address.to_string() }
}

#[test]
fn primary_contact_is_the_first_on_the_channel() {
    let r = Recipient {
        id: 1,
        contacts: vec![
            contact("smtp", "first@example.com"),
            contact("telegram", "@one"),
            contact("smtp", "second@example.com"),
            contact("telegram", "@two"),
        ],
    };
    assert_eq!(r.get_primary_contact("smtp").unwrap().address, "first@example.com");
    assert_eq!(r.get_primary_contact("telegram").unwrap().address, "@one");
    assert_eq!(r.get_primary_contact("telegram").unwrap().channel, "telegram");
    assert!(matches!(r.get_primary_contact("sms"), Err(EngineError::ContactNotSet)));
    assert!(matches!(r.get_primary_contact("Telegram"), Err(EngineError::ContactNotSet)));
    assert!(matches!(r.get_primary_contact(""), Err(EngineError::ContactNotSet)));
    let nobody = Recipient { id: 2, contacts: vec![] };
    assert!(matches!(nobody.get_primary_contact("smtp"), Err(EngineError::ContactNotSet)));
}

#[test]
fn recipient_clone_is_equal_and_separate() {
    let r = Recipient { id: 1, contacts: vec![contact("smtp", "a"), contact("sms", "b")] };
    let mut copy = r.clone();
    assert_eq!(copy.id, 1);
    assert_eq!(copy.contacts.len(), 2);
    assert_eq!(copy.contacts[1].channel, "sms");
    assert_eq!(copy.contacts[1].address, "b");
    copy.contacts.clear();
    assert_eq!(r.contacts.len(), 2);
}

#[test]
fn directory_finds_recipients_by_identifier() {
    let d = MemoryRecipientDirectory::new(vec![
        Recipient { id: 1, contacts: vec![contact("smtp", "one")] },
        Recipient { id: 2, contacts: vec![] },
        Recipient { id: 1, contacts: vec![contact("smtp", "later")] },
    ]);
    // a later recipient replaces an earlier one with the same identifier
    assert_eq!(d.get_recipient(1).unwrap().contacts[0].address, "later");
    assert_eq!(d.get_recipient(2).unwrap().id, 2);
    assert!(d.get_recipient(3).is_none());
    assert!(MemoryRecipientDirectory::new(vec![]).get_recipient(1).is_none());
}

fn store() -> SimpleCredentials {
    SimpleCredentials::new(vec![
        Credential { credential_type: "smtp".to_string(), name: "main".to_string(), value: text("a") },
        Credential { credential_type: "telegram_bot".to_string(), name: "main".to_string(), value: text("b") },
        Credential { credential_type: "telegram_bot".to_string(), name: "second".to_string(), value: text("c") },
        Credential { credential_type: "telegram_bot".to_string(), name: "main".to_string(), value: text("d") },
    ])
}

#[test]
fn credentials_are_found_by_type_and_name() {
    let s = store();
    assert_eq!(s.get_credential(0, "smtp", "main").unwrap(), text("a"));
    assert_eq!(s.get_credential(0, "telegram_bot", "main").unwrap(), text("b"));
    assert_eq!(s.get_credential(5, "telegram_bot", "second").unwrap(), text("c"));
}

#[test]
fn missing_credential_names_type_and_name() {
    let s = store();
    for (kind, name) in [("smtp", "second"), ("sms", "main"), ("", ""), ("main", "smtp")] {
        match s.get_credential(0, kind, name) {
            Err(EngineError::CredentialNotFound(k, n)) => assert_eq!((k.as_str(), n.as_str()), (kind, name)),
            _ => panic!("unexpected"),
        }
    }
    assert!(matches!(
        SimpleCredentials::new(vec![]).get_credential(0, "smtp", "main"),
        Err(EngineError::CredentialNotFound(_, _))
    ));
}

#[test]
fn pipeline_clone_keeps_steps_and_channel() {
    let mut object = serde_json::Map::new();
    object.insert("step".to_string(), text("smtp.send"));
    object.insert("credential".to_string(), text("main"));
    let p = Pipeline { channel: "smtp".to_string(), steps: vec![SerializedStep::new(object.clone()).unwrap()] };
    let copy = p.clone();
    assert_eq!(copy.channel, "smtp");
    assert_eq!(copy.steps.len(), 1);
    assert_eq!(copy.steps[0].as_object(), &object);
    let e = Event { name: "user.signup".to_string(), pipelines: vec![p, copy] };
    assert_eq!(e.pipelines.len(), 2);
    assert_eq!(e.name, "user.signup");
}

#[test]
fn engine_error_clone_keeps_the_variant() {
    let errors = vec![
        EngineError::InvalidStep,
        EngineError::RecipientNotSet,
        EngineError::ContactNotSet,
        EngineError::CredentialNotFound("t".to_string(), "n".to_string()),
        EngineError::InvalidCredentialFormat,
        EngineError::TemplateNotFound,
        EngineError::TemplateRender,
        EngineError::Storage("s".to_string()),
    ];
    for e in &errors {
        assert_eq!(format!("{:?}", e.clone()), format!("{:?}", e));
    }
}
