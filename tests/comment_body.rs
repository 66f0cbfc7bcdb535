use bytes::BytesMut;
use dis_gateway::comment::Comment;
use dis_gateway::model::{EntityId, ParseError, PduType, VariableDatum};

fn sample_comment() -> Comment {
    Comment::builder()
        .with_origin_id(EntityId::new(1, 2, 3))
        .with_receiver_id(EntityId::new(4, 5, 6))
        .with_variable_datum(VariableDatum::new(0x1000, vec![0x01, 0x02, 0x03]))
        .build()
}

#[test]
fn comment_variable_datum_padding() {
    let comment = sample_comment();
    assert_eq!(comment.body_length(), 20 + 16);
    let mut buf = BytesMut::new();
    let written = comment.serialize(&mut buf);
    assert_eq!(written, 36);
    assert_eq!(buf.len(), 36);
    let expected: Vec<u8> = vec![
        0, 1, 0, 2, 0, 3, 0, 4, 0, 5, 0, 6, 0, 0, 0, 0, 0, 0, 0, 1, 0, 0, 0x10, 0, 0, 0, 0, 24,
        1, 2, 3, 0, 0, 0, 0, 0,
    ];
    assert_eq!(buf.to_vec(), expected);
    let (parsed, consumed) = Comment::parse(&buf).unwrap();
    assert_eq!(consumed, 36);
    assert_eq!(parsed, comment);
}

#[test]
fn comment_parse_leaves_following_bytes() {
    let first = sample_comment();
    let second = Comment::builder()
        .with_origin_id(EntityId::new(9, 9, 9))
        .with_variable_datum(VariableDatum::new(7, vec![]))
        .with_variable_datum(VariableDatum::new(8, vec![1, 2, 3, 4, 5, 6, 7, 8]))
        .build();
    let mut buf = BytesMut::new();
    first.serialize(&mut buf);
    second.serialize(&mut buf);
    assert_eq!(buf.len(), 36 + 20 + 8 + 16);
    let (a, n) = Comment::parse(&buf).unwrap();
    assert_eq!(a, first);
    let (b, m) = Comment::parse(&buf[n..]).unwrap();
    assert_eq!(b, second);
    assert_eq!(n + m, buf.len());
}

#[test]
fn comment_empty_body() {
    let comment = Comment::builder().build();
    assert_eq!(comment.body_length(), 20);
    let mut buf = BytesMut::new();
    assert_eq!(comment.serialize(&mut buf), 20);
    assert_eq!(Comment::parse(&buf).unwrap(), (comment, 20));
}

#[test]
fn comment_truncated_input() {
    let comment = sample_comment();
    let mut buf = BytesMut::new();
    comment.serialize(&mut buf);
    assert_eq!(Comment::parse(&buf[..19]), Err(ParseError::Truncated));
    assert_eq!(Comment::parse(&buf[..35]), Err(ParseError::Truncated));
}

#[test]
fn comment_interaction_and_type() {
    let comment = sample_comment();
    assert_eq!(comment.body_type(), PduType::Comment);
    assert_eq!(comment.originator(), Some(&EntityId::new(1, 2, 3)));
    assert_eq!(comment.receiver(), Some(&EntityId::new(4, 5, 6)));
    assert_eq!(Comment::default(), Comment::builder().build());
    let rebuilt = comment.into_builder().with_receiver_id(EntityId::new(7, 7, 7)).build();
    assert_eq!(rebuilt.receiving_id, EntityId::new(7, 7, 7));
    assert_eq!(rebuilt.variable_datum_records.len(), 1);
}
