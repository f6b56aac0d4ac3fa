use serde_json::Value;
use sib_client::envelope::{blocks_of, parse_envelope, read_block, BlockDefect, EnvelopeError, ShapeError};

fn json(text: &str) -> Value {
    serde_json::from_str::<Value>(text).unwrap()
}

#[test]
fn reads_blocks_in_order() {
    let body = br#"{"blocks":[
        {"blockType":"urn:sib:product-base-1","data":{"itemNumber":"4711","model":"X"}},
        {"blockType":"urn:sib:product-brand-1","data":{"brandName":"Acme"}}
    ]}"#;
    let blocks = parse_envelope(body).unwrap();
    assert_eq!(blocks.len(), 2);
    assert_eq!(blocks[0].block_type, "urn:sib:product-base-1");
    assert_eq!(blocks[0].data, json(r#"{"itemNumber":"4711","model":"X"}"#));
    assert_eq!(blocks[1].block_type, "urn:sib:product-brand-1");
    assert_eq!(blocks[1].data, json(r#"{"brandName":"Acme"}"#));
}

#[test]
fn reads_an_empty_envelope() {
    let blocks = parse_envelope(br#"{"blocks":[]}"#).unwrap();
    assert!(blocks.is_empty());
}

#[test]
fn ignores_additional_members() {
    let body = br#"{"version":3,"blocks":[{"blockType":"a","data":1,"etag":"x"}],"more":null}"#;
    let blocks = parse_envelope(body).unwrap();
    assert_eq!(blocks.len(), 1);
    assert_eq!(blocks[0].block_type, "a");
    assert_eq!(blocks[0].data, json("1"));
}

#[test]
fn takes_any_payload() {
    let body = br#"{"blocks":[
        {"blockType":"n","data":null},
        {"blockType":"s","data":"text"},
        {"blockType":"l","data":[1,2,3]},
        {"blockType":"","data":false}
    ]}"#;
    let blocks = parse_envelope(body).unwrap();
    assert_eq!(blocks.len(), 4);
    assert_eq!(blocks[0].data, Value::Null);
    assert_eq!(blocks[1].data, json(r#""text""#));
    assert_eq!(blocks[2].data, json("[1,2,3]"));
    assert_eq!(blocks[3].block_type, "");
    assert_eq!(blocks[3].data, Value::Bool(false));
}

#[test]
fn refuses_what_is_not_json() {
    match parse_envelope(b"<html>502</html>") {
        Err(EnvelopeError::Json(e)) => assert!(e.is_syntax()),
        other => panic!("unexpected: {:?}", other),
    }
    match parse_envelope(br#"{"blocks":["#) {
        Err(EnvelopeError::Json(e)) => assert!(e.is_eof()),
        other => panic!("unexpected: {:?}", other),
    }
    assert!(matches!(parse_envelope(b""), Err(EnvelopeError::Json(_))));
    assert!(matches!(parse_envelope(br#"{"blocks":[]} x"#), Err(EnvelopeError::Json(_))));
}

#[test]
fn refuses_a_document_without_blocks() {
    assert!(matches!(parse_envelope(b"{}"), Err(EnvelopeError::Shape(ShapeError::NoBlocks))));
    assert!(matches!(parse_envelope(b"[]"), Err(EnvelopeError::Shape(ShapeError::NoBlocks))));
    assert!(matches!(parse_envelope(b"null"), Err(EnvelopeError::Shape(ShapeError::NoBlocks))));
    assert!(matches!(
        parse_envelope(br#"{"Blocks":[]}"#),
        Err(EnvelopeError::Shape(ShapeError::NoBlocks))
    ));
}

#[test]
fn refuses_blocks_that_are_no_array() {
    assert!(matches!(
        parse_envelope(br#"{"blocks":{}}"#),
        Err(EnvelopeError::Shape(ShapeError::BlocksNotArray))
    ));
    assert!(matches!(
        parse_envelope(br#"{"blocks":null}"#),
        Err(EnvelopeError::Shape(ShapeError::BlocksNotArray))
    ));
}

#[test]
fn names_the_first_bad_block() {
    let body = br#"{"blocks":[
        {"blockType":"a","data":1},
        {"blockType":"b"},
        {"data":2}
    ]}"#;
    match parse_envelope(body) {
        Err(EnvelopeError::Shape(e)) => {
            assert_eq!(e, ShapeError::BadBlock { index: 1, defect: BlockDefect::NoData })
        }
        other => panic!("unexpected: {:?}", other),
    }
}

#[test]
fn tells_the_defects_apart() {
    assert_eq!(read_block(&json(r#"{"data":1}"#)).unwrap_err(), BlockDefect::NoBlockType);
    assert_eq!(read_block(&json(r#"{"block_type":"a","data":1}"#)).unwrap_err(), BlockDefect::NoBlockType);
    assert_eq!(read_block(&json(r#"["a",1]"#)).unwrap_err(), BlockDefect::NoBlockType);
    assert_eq!(read_block(&json("7")).unwrap_err(), BlockDefect::NoBlockType);
    assert_eq!(
        read_block(&json(r#"{"blockType":7,"data":1}"#)).unwrap_err(),
        BlockDefect::BlockTypeNotString
    );
    assert_eq!(
        read_block(&json(r#"{"blockType":null}"#)).unwrap_err(),
        BlockDefect::BlockTypeNotString
    );
    assert_eq!(read_block(&json(r#"{"blockType":"a"}"#)).unwrap_err(), BlockDefect::NoData);
}

#[test]
fn reads_one_block() {
    let block = read_block(&json(r#"{"blockType":"urn:x","data":{"k":[true]}}"#)).unwrap();
    assert_eq!(block.block_type, "urn:x");
    assert_eq!(block.data, json(r#"{"k":[true]}"#));
}

#[test]
fn reads_blocks_of_a_parsed_document() {
    let root = json(r#"{"blocks":[{"blockType":"a","data":"x"}]}"#);
    let blocks = blocks_of(&root).unwrap();
    assert_eq!(blocks.len(), 1);
    assert_eq!(blocks[0].block_type, "a");
    assert_eq!(blocks[0].data, json(r#""x""#));
    assert_eq!(
        blocks_of(&json(r#"{"blocks":[7]}"#)).unwrap_err(),
        ShapeError::BadBlock { index: 0, defect: BlockDefect::NoBlockType }
    );
}
