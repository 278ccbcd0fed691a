use freebsd_nfs_exporter::message::{BrokerMessage, FieldValue};

#[test]
fn new_message_is_empty() {
    let message = BrokerMessage::new();
    assert_eq!(message.len(), 0);
    assert_eq!(message.get_binary("nfsstat"), None);
    assert_eq!(message.get_string("cmd"), None);
}

#[test]
fn fields_keep_their_order() {
    let mut message = BrokerMessage::new();
    message.insert_string("cmd", "nfsstat");
    message.insert_binary("nfsstat", vec![1, 2, 3]);
    message.insert_string("note", "");
    assert_eq!(message.len(), 3);
    assert_eq!(message.fields[0].name, "cmd");
    assert!(matches!(&message.fields[0].value, FieldValue::Text(t) if t == "nfsstat"));
    assert_eq!(message.fields[1].name, "nfsstat");
    assert!(matches!(&message.fields[1].value, FieldValue::Binary(b) if b == &vec![1u8, 2, 3]));
    assert_eq!(message.fields[2].name, "note");
}

#[test]
fn lookup_goes_by_name_and_kind() {
    let mut message = BrokerMessage::new();
    message.insert_string("nfsstat", "text");
    message.insert_binary("other", vec![9]);
    assert_eq!(message.get_binary("nfsstat"), None);
    assert_eq!(message.get_string("nfsstat"), Some(&"text".to_string()));
    assert_eq!(message.get_binary("other"), Some(&vec![9u8]));
    assert_eq!(message.get_string("other"), None);
    assert_eq!(message.get_binary("nfs"), None);
    assert_eq!(message.get_binary(""), None);
    message.insert_binary("nfsstat", vec![4, 5]);
    assert_eq!(message.get_binary("nfsstat"), Some(&vec![4u8, 5]));
}

#[test]
fn first_field_of_a_name_wins() {
    let mut message = BrokerMessage::new();
    message.insert_binary("nfsstat", vec![1]);
    message.insert_binary("nfsstat", vec![2]);
    message.insert_string("cmd", "first");
    message.insert_string("cmd", "second");
    assert_eq!(message.get_binary("nfsstat"), Some(&vec![1u8]));
    assert_eq!(message.get_string("cmd"), Some(&"first".to_string()));
}

#[test]
fn empty_payload_is_found() {
    let mut message = BrokerMessage::new();
    message.insert_binary("nfsstat", Vec::new());
    assert_eq!(message.get_binary("nfsstat"), Some(&Vec::new()));
}
