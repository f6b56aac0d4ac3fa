use serde_json::Value;
use sib_client::envelope::Block;
use sib_client::fetch::{FetchError, Reply, Request};
use sib_client::product_info::{fetch_product_info, ProductInfo, ProductInfoError};
use sib_client::schema::{Asset, ProductBaseBlock, ProductBrandBlock};
use sib_client::store::{BlockError, SibResponse};

fn text(data: &Value, name: &str) -> Option<String> {
    data.get(name).and_then(Value::as_str).map(str::to_string)
}

fn image(data: &Value, name: &str) -> Option<Asset> {
    let asset = data.get(name)?;
    Some(Asset {
        content_size: asset.get("contentSize").and_then(Value::as_u64).unwrap_or(0),
        content_size_string: None,
        extension: None,
        filename: None,
        large_thumbnail: None,
        medium_thumbnail: None,
        small_thumbnail: text(asset, "smallThumbnail"),
        url: text(asset, "url"),
    })
}

fn base(data: &Value) -> Result<ProductBaseBlock, String> {
    if !data.is_object() {
        return Err("base block is no object".to_string());
    }
    Ok(ProductBaseBlock {
        item_number: text(data, "itemNumber"),
        model: text(data, "model"),
        short_description: text(data, "shortDescription"),
        main_image: image(data, "mainImage"),
        discontinued: false,
        expected_availability_end: None,
    })
}

fn brand(data: &Value) -> Result<ProductBrandBlock, String> {
    if !data.is_object() {
        return Err("brand block is no object".to_string());
    }
    Ok(ProductBrandBlock { brand_name: text(data, "brandName"), brand_logo: image(data, "brandLogo") })
}

fn store(blocks: &[(&str, &str)]) -> SibResponse {
    SibResponse::new(
        "https://api.example.com/p/123",
        blocks
            .iter()
            .map(|(block_type, data)| Block {
                block_type: block_type.to_string(),
                data: serde_json::from_str::<Value>(data).unwrap(),
            })
            .collect(),
    )
}

#[test]
fn summary_from_a_store_with_both_blocks() {
    let store = store(&[
        (
            "urn:sib:product-base-1",
            r#"{"itemNumber":"4711","model":"X","shortDescription":"A pump",
                "mainImage":{"contentSize":3,"smallThumbnail":"https://img/p-s.png"}}"#,
        ),
        (
            "urn:sib:product-brand-1",
            r#"{"brandName":"Acme","brandLogo":{"contentSize":9,"smallThumbnail":"https://img/a-s.png"}}"#,
        ),
    ]);
    let info = ProductInfo::from_store(&store, base, brand).unwrap();
    assert_eq!(info.item_number.as_deref(), Some("4711"));
    assert_eq!(info.model.as_deref(), Some("X"));
    assert_eq!(info.short_description.as_deref(), Some("A pump"));
    assert_eq!(info.main_image_url.as_deref(), Some("https://img/p-s.png"));
    assert_eq!(info.brand_logo_url.as_deref(), Some("https://img/a-s.png"));
    assert_eq!(info.brand_name.as_deref(), Some("Acme"));
}

#[test]
fn summary_from_a_store_without_the_blocks() {
    let store = store(&[("urn:sib:product-texts-1", r#"{"description":"x"}"#)]);
    let info = ProductInfo::from_store(&store, base, brand).unwrap();
    assert_eq!(info.item_number, None);
    assert_eq!(info.model, None);
    assert_eq!(info.short_description, None);
    assert_eq!(info.main_image_url, None);
    assert_eq!(info.brand_logo_url, None);
    assert_eq!(info.brand_name, None);
}

#[test]
fn summary_fails_with_the_block_that_does_not_decode() {
    let store = store(&[
        ("urn:sib:product-base-1", r#"{"itemNumber":"4711"}"#),
        ("urn:sib:product-brand-1", "[]"),
    ]);
    let err = ProductInfo::from_store(&store, base, brand).unwrap_err();
    assert_eq!(err.block_type, "urn:sib:product-brand-1");
    assert_eq!(err.url, "https://api.example.com/p/123");
    assert_eq!(err.cause, "brand block is no object");
}

#[test]
fn summary_reports_the_base_block_first() {
    let store = store(&[("urn:sib:product-base-1", "7"), ("urn:sib:product-brand-1", "8")]);
    let err = ProductInfo::from_store(&store, base, brand).unwrap_err();
    assert_eq!(err.block_type, "urn:sib:product-base-1");
    assert_eq!(err.cause, "base block is no object");
}

#[test]
fn summarize_passes_failures_on() {
    let failed = |block_type: &str| BlockError {
        block_type: block_type.to_string(),
        url: "u".to_string(),
        cause: 1u8,
    };
    let r = ProductInfo::summarize(Ok(None), Err(failed("brand")));
    assert_eq!(r.unwrap_err().block_type, "brand");
    let r = ProductInfo::summarize(Err(failed("base")), Ok(None));
    assert_eq!(r.unwrap_err().block_type, "base");
    let r = ProductInfo::summarize(Err(failed("base")), Err(failed("brand")));
    assert_eq!(r.unwrap_err().block_type, "base");
    let r = ProductInfo::summarize::<u8>(Ok(None), Ok(None)).unwrap();
    assert_eq!(r.item_number, None);
    assert_eq!(r.brand_name, None);
}

const ANSWER: &[u8] = br#"{"blocks":[
    {"blockType":"urn:sib:product-base-1","data":{"itemNumber":"4711","model":"X"}},
    {"blockType":"urn:sib:product-brand-1","data":{"brandName":"Acme"}}
]}"#;

#[test]
fn fetches_the_summary_of_a_product() {
    let mut sent: Vec<String> = Vec::new();
    let info = fetch_product_info(
        "https://api.example.com/p/123",
        Some("store-42"),
        |request: Request| {
            sent.push(request.url);
            Ok::<Reply, String>(Reply { status: 200, body: ANSWER.to_vec() })
        },
        base,
        brand,
    )
    .unwrap();
    assert_eq!(
        sent,
        vec![
            "https://api.example.com/p/123?source=store-42&blocks=urn%3Asib%3Aproduct-base-1%2Curn%3Asib%3Aproduct-brand-1"
                .to_string()
        ]
    );
    assert_eq!(info.item_number.as_deref(), Some("4711"));
    assert_eq!(info.model.as_deref(), Some("X"));
    assert_eq!(info.short_description, None);
    assert_eq!(info.main_image_url, None);
    assert_eq!(info.brand_logo_url, None);
    assert_eq!(info.brand_name.as_deref(), Some("Acme"));
}

#[test]
fn fetch_of_a_summary_passes_a_failed_fetch_on() {
    let mut decoded = 0;
    let r = fetch_product_info(
        "https://api.example.com/p/123",
        None,
        |_request: Request| Ok::<Reply, String>(Reply { status: 404, body: ANSWER.to_vec() }),
        |data: &Value| {
            decoded += 1;
            base(data)
        },
        brand,
    );
    assert!(matches!(r, Err(ProductInfoError::Fetch(FetchError::Status(404)))));
    assert_eq!(decoded, 0);
    let r = fetch_product_info(
        "https://api.example.com/p/123",
        None,
        |_request: Request| Err::<Reply, String>("down".to_string()),
        base,
        brand,
    );
    match r {
        Err(ProductInfoError::Fetch(FetchError::Transport(e))) => assert_eq!(e, "down"),
        _ => panic!("unexpected outcome"),
    }
}

#[test]
fn fetch_of_a_summary_passes_a_failed_decode_on() {
    let body = br#"{"blocks":[{"blockType":"urn:sib:product-brand-1","data":null}]}"#;
    let r = fetch_product_info(
        "https://api.example.com/p/123",
        None,
        |_request: Request| Ok::<Reply, String>(Reply { status: 200, body: body.to_vec() }),
        base,
        brand,
    );
    match r {
        Err(ProductInfoError::Block(e)) => {
            assert_eq!(e.block_type, "urn:sib:product-brand-1");
            assert_eq!(e.url, "https://api.example.com/p/123");
            assert_eq!(e.cause, "brand block is no object");
        }
        _ => panic!("unexpected outcome"),
    }
}
