//! The catalogue of known block types: for each its identifier and the shape
//! of its payload. The shapes are plain data. Nearly every field is optional,
//! since the service sends sparse payloads.

use crate::text::same_text;
use chrono::NaiveDate;
use rust_decimal::Decimal;
use serde_json::Value;
use vstd::prelude::*;

verus! {

/// `chrono::NaiveDate`: a calendar date. Opaque to the verifier; the library
/// only carries it.
#[verifier::external_type_specification]
#[verifier::external_body]
pub struct ExNaiveDate(chrono::NaiveDate);

/// `rust_decimal::Decimal`: a decimal number. Opaque to the verifier; the
/// library only carries it.
#[verifier::external_type_specification]
#[verifier::external_body]
pub struct ExDecimal(rust_decimal::Decimal);

/// A file kept by the service, with links to it in several sizes.
#[derive(Debug, Clone)]
pub struct Asset {
    pub content_size: u64,
    pub content_size_string: Option<String>,
    pub extension: Option<String>,
    pub filename: Option<String>,
    pub large_thumbnail: Option<String>,
    pub medium_thumbnail: Option<String>,
    pub small_thumbnail: Option<String>,
    pub url: Option<String>,
}

pub const PRODUCT_BASE_BLOCK_URN: &'static str = "urn:sib:product-base-1";

#[derive(Debug)]
pub struct ProductBaseBlock {
    pub item_number: Option<String>,
    pub model: Option<String>,
    pub short_description: Option<String>,
    pub main_image: Option<Asset>,
    pub discontinued: bool,
    pub expected_availability_end: Option<NaiveDate>,
}

pub const PRODUCT_BRAND_BLOCK_URN: &'static str = "urn:sib:product-brand-1";

#[derive(Debug)]
pub struct ProductBrandBlock {
    pub brand_name: Option<String>,
    pub brand_logo: Option<Asset>,
}

pub const PRODUCT_RELATIONS_BLOCK_URN: &'static str = "urn:sib:product-relations-1";

#[derive(Debug)]
pub struct ProductRelationsBlock {
    pub successors: Vec<Successor>,
    pub spareparts: Vec<Value>,
}

#[derive(Debug)]
pub struct Successor {
    pub item_number: String,
    pub successor_type: String,
}

pub const PRODUCT_TEXTS_BLOCK_URN: &'static str = "urn:sib:product-texts-1";

#[derive(Debug)]
pub struct ProductTextsBlock {
    pub description: Option<String>,
    pub usage_note: Option<String>,
}

pub const PRODUCT_DOCUMENTS_BLOCK_URN: &'static str = "urn:sib:product-documents-1";

#[derive(Debug)]
pub struct ProductDocumentsBlock {
    pub documents: Vec<Document>,
}

#[derive(Debug, Clone)]
pub struct Document {
    pub label: Option<String>,
    pub document_type: String,
    pub document: Asset,
}

pub const DOCUMENT_TYPE_INSTALLATION_MANUAL: &'static str = "INSTALLATION_MANUAL";

pub const DOCUMENT_TYPE_MAINTENANCE_MANUAL: &'static str = "MAINTENANCE_MANUAL";

pub const DOCUMENT_TYPE_MAINTENANCE_INSTRUCTION: &'static str = "MAINTENANCE_INSTRUCTION";

pub const DOCUMENT_TYPE_PLANNING: &'static str = "PLANNING";

pub const DOCUMENT_TYPE_ENERGY_LABEL: &'static str = "ENERGY_LABEL";

pub const DOCUMENT_TYPE_MSDS: &'static str = "MSDS";

/// The position of the first document of a type, if there is one.
pub open spec fn first_of_type(documents: Seq<Document>, document_type: Seq<char>) -> Option<int>
    decreases documents.len(),
{
    if documents.len() == 0 {
        None
    } else {
        match first_of_type(documents.drop_last(), document_type) {
            Some(i) => Some(i),
            None => if documents.last().document_type@ == document_type {
                Some(documents.len() - 1)
            } else {
                None
            },
        }
    }
}

/// The position that [`first_of_type`] gives holds a document of the type,
/// and none before it does. Without a position, no document is of the type.
pub proof fn lemma_first_of_type(documents: Seq<Document>, document_type: Seq<char>)
    ensures
        (match first_of_type(documents, document_type) {
            Some(i) => {
                &&& 0 <= i < documents.len()
                &&& documents[i].document_type@ == document_type
                &&& forall|j: int| 0 <= j < i ==> (#[trigger] documents[j]).document_type@ != document_type
            },
            None => forall|j: int|
                0 <= j < documents.len() ==> (#[trigger] documents[j]).document_type@ != document_type,
        }),
    decreases documents.len(),
{
    if documents.len() > 0 {
        let front = documents.drop_last();
        lemma_first_of_type(front, document_type);
        assert forall|j: int| 0 <= j < front.len() implies front[j] == documents[j] by {}
    }
}

/// A position that holds a document of the type, with none before it, is the
/// one that [`first_of_type`] gives.
pub proof fn lemma_first_of_type_found(documents: Seq<Document>, document_type: Seq<char>, i: int)
    requires
        0 <= i < documents.len(),
        documents[i].document_type@ == document_type,
        forall|j: int| 0 <= j < i ==> (#[trigger] documents[j]).document_type@ != document_type,
    ensures
        first_of_type(documents, document_type) == Some(i),
{
    lemma_first_of_type(documents, document_type);
}

impl ProductDocumentsBlock {
    /// The first document of a type, in the order of the block.
    pub fn find_document_by_type(&self, document_type: &str) -> (r: Option<&Document>)
        ensures
            match first_of_type(self.documents@, document_type@) {
                Some(i) => r == Some(&self.documents@[i]),
                None => r is None,
            },
    {
        let mut i: usize = 0;
        while i < self.documents.len()
            invariant
                i <= self.documents.len(),
                forall|j: int|
                    0 <= j < i ==> (#[trigger] self.documents@[j]).document_type@ != document_type@,
            decreases self.documents.len() - i,
        {
            if same_text(self.documents[i].document_type.as_str(), document_type) {
                proof {
                    lemma_first_of_type_found(self.documents@, document_type@, i as int);
                }
                return Some(&self.documents[i]);
            }
            i = i + 1;
        }
        proof {
            lemma_first_of_type(self.documents@, document_type@);
        }
        None
    }
}

pub const PRODUCT_LOGISTICS_BLOCK_URN: &'static str = "urn:sib:product-logistics-1";

#[derive(Debug)]
pub struct ProductLogisticsBlock {
    pub shelf_life: Option<Decimal>,
    pub number_of_packages: Option<Decimal>,
    pub base_package: Option<BasePackage>,
    pub dangerous_goods: Option<DangerousGoods>,
}

#[derive(Debug)]
pub struct BasePackage {
    pub length: Option<Decimal>,
    pub width: Option<Decimal>,
    pub height: Option<Decimal>,
    pub weight: Option<Decimal>,
}

#[derive(Debug)]
pub struct DangerousGoods {
    pub contains_dangerous_goods: bool,
    pub tunnel_restriction_code: Option<String>,
    pub water_hazard_class: Option<String>,
    pub limited_quantity: bool,
    pub battery_weight: Option<Decimal>,
    pub hazard_labels: Vec<String>,
}

pub const PRODUCT_REGULATIONS_BLOCK_URN: &'static str = "urn:sib:product-regulations-1";

#[derive(Debug)]
pub struct ProductRegulationsBlock {
    pub germany: Option<GermanRegulations>,
    pub weee: Option<WeeeRegulations>,
    pub reach: Option<ReachRegulations>,
    pub clp: Option<ClpRegulations>,
    pub battery: Option<BatteryRegulations>,
    pub erp: Option<ErpRegulations>,
}

#[derive(Debug)]
pub struct GermanRegulations {
    pub uba_relevant: Option<bool>,
    pub uba_compliant: Option<bool>,
}

#[derive(Debug)]
pub struct WeeeRegulations {
    pub weee_number: Option<String>,
}

#[derive(Debug)]
pub struct ReachRegulations {
    pub is_subject_to_reach: bool,
    pub scip_number: Option<String>,
    pub svhc_contents: Vec<SVHCContent>,
}

#[derive(Debug)]
pub struct SVHCContent {
    pub substance_name: String,
    pub cas_number: Option<String>,
    pub concentration: Option<String>,
}

#[derive(Debug)]
pub struct ClpRegulations {
    pub is_hazardous: bool,
    pub signal_word_warning: bool,
    pub signal_word_danger: bool,
    pub b2b_only: bool,
    pub hazard_statements: Vec<String>,
    pub precautionary_statements: Vec<String>,
    pub pictograms: Vec<String>,
}

#[derive(Debug)]
pub struct BatteryRegulations {
    pub contains_battery: bool,
    pub batteries: Vec<Battery>,
}

#[derive(Debug)]
pub struct Battery {
    pub battery_pictogram: Option<String>,
}

#[derive(Debug)]
pub struct ErpRegulations {
    pub seasonal_space_heating: Option<String>,
    pub seasonal_space_heating_medium_temp_55_c: Option<String>,
    pub seasonal_space_heating_low_temp_35_c: Option<String>,
    pub water_heating: Option<String>,
    pub seasonal_space_heating_package: Option<String>,
    pub seasonal_combined_heating_package: Option<String>,
    pub hot_water_storage_tank: Option<String>,
    pub cooling: Option<String>,
    pub heating_colder_climate: Option<String>,
    pub heating_average_climate: Option<String>,
    pub heating_warmer_climate: Option<String>,
    pub solid_fuel_boiler: Option<String>,
    pub solid_fuel_package: Option<String>,
    pub lamp: Option<String>,
    pub luminaire_approved_range: Option<String>,
    pub led_approved_range: Option<String>,
    pub light_source_20192015: Option<String>,
    pub local_space_heater: Option<String>,
    pub two_direction_ventilation_unit: Option<String>,
}

} // verus!
