//! A flat summary of a product, drawn from its base block and its brand
//! block.

use crate::fetch::{can_send, fetch_view, may_fetch, query_sib, FetchError, Reply, Request};
use crate::request::{opt_text, texts};
use crate::schema::{Asset, ProductBaseBlock, ProductBrandBlock, PRODUCT_BASE_BLOCK_URN, PRODUCT_BRAND_BLOCK_URN};
use crate::store::{can_ask, may_answer, outcome_view, BlockError, SibResponse, SibResponseView};
use serde_json::Value;
use vstd::prelude::*;

verus! {

/// What a product listing shows of a product.
#[derive(Debug, Clone)]
pub struct ProductInfo {
    pub item_number: Option<String>,
    pub model: Option<String>,
    pub short_description: Option<String>,
    pub main_image_url: Option<String>,
    pub brand_logo_url: Option<String>,
    pub brand_name: Option<String>,
}

/// Why there is no summary of a product. `E` is the transport's error, `D`
/// the decoders'.
#[derive(Debug)]
pub enum ProductInfoError<E, D> {
    /// The fetch yielded no store.
    Fetch(FetchError<E>),
    /// A block of the store did not decode.
    Block(BlockError<D>),
}

/// The link to the small thumbnail of an image, where there is an image and
/// it has one.
pub open spec fn small_thumbnail(image: Option<Asset>) -> Option<String> {
    match image {
        Some(asset) => asset.small_thumbnail,
        None => None,
    }
}

/// The summary of a product, given its base block and its brand block as far
/// as the response held them. What a missing block would have given is
/// `None`.
pub open spec fn product_info(base: Option<ProductBaseBlock>, brand: Option<ProductBrandBlock>) -> ProductInfo {
    ProductInfo {
        item_number: match base {
            Some(block) => block.item_number,
            None => None,
        },
        model: match base {
            Some(block) => block.model,
            None => None,
        },
        short_description: match base {
            Some(block) => block.short_description,
            None => None,
        },
        main_image_url: match base {
            Some(block) => small_thumbnail(block.main_image),
            None => None,
        },
        brand_logo_url: match brand {
            Some(block) => small_thumbnail(block.brand_logo),
            None => None,
        },
        brand_name: match brand {
            Some(block) => block.brand_name,
            None => None,
        },
    }
}

/// What the answers of a store for the two blocks come to: the summary of
/// the blocks, unless one did not decode. Of two failures the base block's
/// is the one reported.
pub open spec fn summary_of<D>(
    base: Result<Option<ProductBaseBlock>, BlockError<D>>,
    brand: Result<Option<ProductBrandBlock>, BlockError<D>>,
) -> Result<ProductInfo, BlockError<D>> {
    match base {
        Err(e) => Err(e),
        Ok(base) => match brand {
            Err(e) => Err(e),
            Ok(brand) => Ok(product_info(base, brand)),
        },
    }
}

/// Whether `summary` is what a store gives with two decoders: what
/// [`summary_of`] makes of something that the store answers for the base
/// block and something that it answers for the brand block.
pub open spec fn may_summarize<
    's,
    D,
    G: FnOnce(&'s Value) -> Result<ProductBaseBlock, D>,
    H: FnOnce(&'s Value) -> Result<ProductBrandBlock, D>,
>(store: SibResponseView, decode_base: G, decode_brand: H, summary: Result<ProductInfo, BlockError<D>>) -> bool {
    exists|
        base: Result<Option<ProductBaseBlock>, BlockError<D>>,
        brand: Result<Option<ProductBrandBlock>, BlockError<D>>,
    |
        {
            &&& #[trigger] may_answer(store, PRODUCT_BASE_BLOCK_URN@, decode_base, outcome_view(base))
            &&& #[trigger] may_answer(store, PRODUCT_BRAND_BLOCK_URN@, decode_brand, outcome_view(brand))
            &&& summary == summary_of(base, brand)
        }
}

/// What a fetch and the summary drawn from its store come to together: the
/// error of the fetch, the failure of a block, or the summary.
pub open spec fn fetched_summary<E, D>(
    fetched: Result<SibResponse, FetchError<E>>,
    summary: Result<ProductInfo, BlockError<D>>,
) -> Result<ProductInfo, ProductInfoError<E, D>> {
    match fetched {
        Err(e) => Err(ProductInfoError::Fetch(e)),
        Ok(_) => match summary {
            Ok(info) => Ok(info),
            Err(e) => Err(ProductInfoError::Block(e)),
        },
    }
}

/// Whether `r` is what fetching the summary of a product comes to with a
/// transport and two decoders: [`fetched_summary`] of something that the
/// fetch of the two block types yields and, where that is a store, of
/// something that the store gives with the decoders.
pub open spec fn may_fetch_summary<
    E,
    D,
    F: FnOnce(Request) -> Result<Reply, E>,
    G: FnOnce(&Value) -> Result<ProductBaseBlock, D>,
    H: FnOnce(&Value) -> Result<ProductBrandBlock, D>,
>(
    url: Seq<char>,
    source: Option<Seq<char>>,
    transport: F,
    decode_base: G,
    decode_brand: H,
    r: Result<ProductInfo, ProductInfoError<E, D>>,
) -> bool {
    exists|fetched: Result<SibResponse, FetchError<E>>, summary: Result<ProductInfo, BlockError<D>>|
        {
            &&& may_fetch(url, summary_types(), source, transport, fetch_view(fetched))
            &&& fetched is Ok ==> may_summarize(fetched->Ok_0@, decode_base, decode_brand, summary)
            &&& r == #[trigger] fetched_summary(fetched, summary)
        }
}

/// The block types that a summary is drawn from, in the order in which they
/// are requested.
pub open spec fn summary_types() -> Seq<Seq<char>> {
    seq![PRODUCT_BASE_BLOCK_URN@, PRODUCT_BRAND_BLOCK_URN@]
}

/// The block types that a summary is drawn from, in the order in which they
/// are requested.
pub fn summary_block_types() -> (r: [&'static str; 2])
    ensures
        r@ == seq![PRODUCT_BASE_BLOCK_URN, PRODUCT_BRAND_BLOCK_URN],
{
    [PRODUCT_BASE_BLOCK_URN, PRODUCT_BRAND_BLOCK_URN]
}

fn thumbnail_of(image: &Option<Asset>) -> (r: Option<String>)
    ensures
        r == small_thumbnail(*image),
{
    match image {
        Some(asset) => asset.small_thumbnail.clone(),
        None => None,
    }
}

impl ProductInfo {
    /// Draws the summary from the two blocks; see [`product_info`].
    pub fn from_blocks(base: &Option<ProductBaseBlock>, brand: &Option<ProductBrandBlock>) -> (r:
        ProductInfo)
        ensures
            r == product_info(*base, *brand),
    {
        let (item_number, model, short_description, main_image_url) = match base {
            Some(block) => (
                block.item_number.clone(),
                block.model.clone(),
                block.short_description.clone(),
                thumbnail_of(&block.main_image),
            ),
            None => (None, None, None, None),
        };
        let (brand_logo_url, brand_name) = match brand {
            Some(block) => (thumbnail_of(&block.brand_logo), block.brand_name.clone()),
            None => (None, None),
        };
        ProductInfo { item_number, model, short_description, main_image_url, brand_logo_url, brand_name }
    }

    /// Draws the summary from what a store answered for the two blocks; see
    /// [`summary_of`].
    pub fn summarize<D>(
        base: Result<Option<ProductBaseBlock>, BlockError<D>>,
        brand: Result<Option<ProductBrandBlock>, BlockError<D>>,
    ) -> (r: Result<ProductInfo, BlockError<D>>)
        ensures
            r == summary_of(base, brand),
    {
        match base {
            Err(e) => Err(e),
            Ok(base) => match brand {
                Err(e) => Err(e),
                Ok(brand) => Ok(ProductInfo::from_blocks(&base, &brand)),
            },
        }
    }

    /// Draws the summary of a product from a store: asks it for the base
    /// block and for the brand block, each with its decoder, and summarizes
    /// the two answers.
    pub fn from_store<'s, D, G, H>(store: &'s SibResponse, decode_base: G, decode_brand: H) -> (r:
        Result<ProductInfo, BlockError<D>>) where
        G: FnOnce(&'s Value) -> Result<ProductBaseBlock, D>,
        H: FnOnce(&'s Value) -> Result<ProductBrandBlock, D>,

        requires
            can_ask(store@, PRODUCT_BASE_BLOCK_URN@, decode_base),
            can_ask(store@, PRODUCT_BRAND_BLOCK_URN@, decode_brand),
        ensures
            may_summarize(store@, decode_base, decode_brand, r),
    {
        let base = store.get_block(PRODUCT_BASE_BLOCK_URN, decode_base);
        let brand = store.get_block(PRODUCT_BRAND_BLOCK_URN, decode_brand);
        ProductInfo::summarize(base, brand)
    }
}

/// Fetches the base block and the brand block of a product from `url`, for
/// the data source `source` if one is given, and draws the summary from
/// them.
///
/// A fetch that yields no store ends in its error, and no decoder is
/// called. Else the store is asked for both blocks, as
/// [`ProductInfo::from_store`] does.
pub fn fetch_product_info<E, D, F, G, H>(
    url: &str,
    source: Option<&str>,
    transport: F,
    decode_base: G,
    decode_brand: H,
) -> (r: Result<ProductInfo, ProductInfoError<E, D>>) where
    F: FnOnce(Request) -> Result<Reply, E>,
    G: FnOnce(&Value) -> Result<ProductBaseBlock, D>,
    H: FnOnce(&Value) -> Result<ProductBrandBlock, D>,

    requires
        can_send(url@, summary_types(), opt_text(source), transport),
        forall|data: Value| #[trigger] decode_base.requires((&data,)),
        forall|data: Value| #[trigger] decode_brand.requires((&data,)),
    ensures
        may_fetch_summary(url@, opt_text(source), transport, decode_base, decode_brand, r),
{
    let types = summary_block_types();
    proof {
        assert(texts(types@) =~= summary_types());
    }
    let fetched = query_sib(url, types.as_slice(), source, transport);
    let ghost seen = fetched;
    match fetched {
        Err(e) => {
            proof {
                let any: Result<ProductInfo, BlockError<D>> = arbitrary();
                assert(Err::<ProductInfo, ProductInfoError<E, D>>(ProductInfoError::Fetch(e))
                    == fetched_summary(seen, any));
            }
            Err(ProductInfoError::Fetch(e))
        },
        Ok(store) => {
            let summary = ProductInfo::from_store(&store, decode_base, decode_brand);
            let ghost drawn = summary;
            let r = match summary {
                Ok(info) => Ok(info),
                Err(e) => Err(ProductInfoError::Block(e)),
            };
            proof {
                assert(r == fetched_summary(seen, drawn));
            }
            r
        },
    }
}

} // verus!
