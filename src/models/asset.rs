use vstd::prelude::*;

use crate::ids::Uuid;
use crate::models::{Category, Identifier, Relation};
use crate::request::{single_pair, Method, Request};

verus! {

/// The subtypes of assets.
#[derive(Clone, Copy, Debug, PartialEq, Eq, Structural)]
pub enum AssetType {
    Door,
    Meter,
    ElectricalMeter,
    GasMeter,
    HotWaterMeter,
    ChilledWaterMeter,
}

impl AssetType {
    /// The subtype's tag: the list filter value, the wire discriminator and
    /// the type of a relation to an entity of this subtype.
    pub open spec fn spec_str(&self) -> Seq<char> {
        match self {
            AssetType::Door => "door"@,
            AssetType::Meter => "meter"@,
            AssetType::ElectricalMeter => "electrical_meter"@,
            AssetType::GasMeter => "gas_meter"@,
            AssetType::HotWaterMeter => "hot_water_meter"@,
            AssetType::ChilledWaterMeter => "chilled_water_meter"@,
        }
    }

    pub fn to_string(&self) -> (r: String)
        ensures
            r@ == self.spec_str(),
    {
        match self {
            AssetType::Door => String::from_str("door"),
            AssetType::Meter => String::from_str("meter"),
            AssetType::ElectricalMeter => String::from_str("electrical_meter"),
            AssetType::GasMeter => String::from_str("gas_meter"),
            AssetType::HotWaterMeter => String::from_str("hot_water_meter"),
            AssetType::ChilledWaterMeter => String::from_str("chilled_water_meter"),
        }
    }
}

/// A stored asset, of one of its subtypes.
#[derive(Clone, Debug)]
pub enum Asset {
    Door(Door),
    Meter(Meter),
    ElectricalMeter(ElectricalMeter),
    GasMeter(GasMeter),
    HotWaterMeter(HotWaterMeter),
    ChilledWaterMeter(ChilledWaterMeter),
}

#[derive(Clone, Debug)]
pub struct Door {
    pub id: Uuid,
    pub name: String,
    pub identifiers: Option<Vec<Identifier>>,
    pub initial_cost: Option<String>,
    pub installation_date: Option<String>,
    pub ip_address: Option<String>,
    pub mac_address: Option<String>,
    pub maintenance_interval: Option<u32>,
    pub model_number: Option<String>,
    pub serial_number: Option<String>,
    pub turnover_date: Option<String>,
    pub weight: Option<String>,
    pub located_in: Option<Vec<Relation>>,
}

#[derive(Clone, Debug)]
pub struct Meter {
    pub id: Uuid,
    pub name: String,
    pub identifiers: Option<Vec<Identifier>>,
    pub initial_cost: Option<String>,
    pub installation_date: Option<String>,
    pub ip_address: Option<String>,
    pub mac_address: Option<String>,
    pub maintenance_interval: Option<u32>,
    pub model_number: Option<String>,
    pub serial_number: Option<String>,
    pub turnover_date: Option<String>,
    pub weight: Option<String>,
    pub located_in: Option<Vec<Relation>>,
    pub operational_stage_count: Option<String>,
    pub feeds: Option<Vec<Relation>>,
    pub is_virtual_meter: Option<bool>,
}

#[derive(Clone, Debug)]
pub struct ElectricalMeter {
    pub id: Uuid,
    pub name: String,
    pub identifiers: Option<Vec<Identifier>>,
    pub initial_cost: Option<String>,
    pub installation_date: Option<String>,
    pub ip_address: Option<String>,
    pub mac_address: Option<String>,
    pub maintenance_interval: Option<u32>,
    pub model_number: Option<String>,
    pub serial_number: Option<String>,
    pub turnover_date: Option<String>,
    pub weight: Option<String>,
    pub located_in: Option<Vec<Relation>>,
    pub operational_stage_count: Option<String>,
    pub feeds: Option<Vec<Relation>>,
    pub is_virtual_meter: Option<bool>,
}

#[derive(Clone, Debug)]
pub struct GasMeter {
    pub id: Uuid,
    pub name: String,
    pub identifiers: Option<Vec<Identifier>>,
    pub initial_cost: Option<String>,
    pub installation_date: Option<String>,
    pub ip_address: Option<String>,
    pub mac_address: Option<String>,
    pub maintenance_interval: Option<u32>,
    pub model_number: Option<String>,
    pub serial_number: Option<String>,
    pub turnover_date: Option<String>,
    pub weight: Option<String>,
    pub located_in: Option<Vec<Relation>>,
    pub operational_stage_count: Option<String>,
    pub feeds: Option<Vec<Relation>>,
    pub is_virtual_meter: Option<bool>,
}

#[derive(Clone, Debug)]
pub struct HotWaterMeter {
    pub id: Uuid,
    pub name: String,
    pub identifiers: Option<Vec<Identifier>>,
    pub initial_cost: Option<String>,
    pub installation_date: Option<String>,
    pub ip_address: Option<String>,
    pub mac_address: Option<String>,
    pub maintenance_interval: Option<u32>,
    pub model_number: Option<String>,
    pub serial_number: Option<String>,
    pub turnover_date: Option<String>,
    pub weight: Option<String>,
    pub located_in: Option<Vec<Relation>>,
    pub operational_stage_count: Option<String>,
    pub feeds: Option<Vec<Relation>>,
    pub is_virtual_meter: Option<bool>,
}

#[derive(Clone, Debug)]
pub struct ChilledWaterMeter {
    pub id: Uuid,
    pub name: String,
    pub identifiers: Option<Vec<Identifier>>,
    pub initial_cost: Option<String>,
    pub installation_date: Option<String>,
    pub ip_address: Option<String>,
    pub mac_address: Option<String>,
    pub maintenance_interval: Option<u32>,
    pub model_number: Option<String>,
    pub serial_number: Option<String>,
    pub turnover_date: Option<String>,
    pub weight: Option<String>,
    pub located_in: Option<Vec<Relation>>,
    pub operational_stage_count: Option<String>,
    pub feeds: Option<Vec<Relation>>,
    pub is_virtual_meter: Option<bool>,
}

/// An asset to create: an entity without its id, which the server assigns.
#[derive(Clone, Debug)]
pub enum NewAsset {
    Door {
        name: String,
        identifiers: Option<Vec<Identifier>>,
        initial_cost: Option<String>,
        installation_date: Option<String>,
        ip_address: Option<String>,
        mac_address: Option<String>,
        maintenance_interval: Option<u32>,
        model_number: Option<String>,
        serial_number: Option<String>,
        turnover_date: Option<String>,
        weight: Option<String>,
        located_in: Option<Vec<Relation>>,
    },
    Meter {
        name: String,
        identifiers: Option<Vec<Identifier>>,
        initial_cost: Option<String>,
        installation_date: Option<String>,
        ip_address: Option<String>,
        mac_address: Option<String>,
        maintenance_interval: Option<u32>,
        model_number: Option<String>,
        serial_number: Option<String>,
        turnover_date: Option<String>,
        weight: Option<String>,
        located_in: Option<Vec<Relation>>,
        operational_stage_count: Option<String>,
        feeds: Option<Vec<Relation>>,
        is_virtual_meter: Option<bool>,
    },
    ElectricalMeter {
        name: String,
        identifiers: Option<Vec<Identifier>>,
        initial_cost: Option<String>,
        installation_date: Option<String>,
        ip_address: Option<String>,
        mac_address: Option<String>,
        maintenance_interval: Option<u32>,
        model_number: Option<String>,
        serial_number: Option<String>,
        turnover_date: Option<String>,
        weight: Option<String>,
        located_in: Option<Vec<Relation>>,
        operational_stage_count: Option<String>,
        feeds: Option<Vec<Relation>>,
        is_virtual_meter: Option<bool>,
    },
    GasMeter {
        name: String,
        identifiers: Option<Vec<Identifier>>,
        initial_cost: Option<String>,
        installation_date: Option<String>,
        ip_address: Option<String>,
        mac_address: Option<String>,
        maintenance_interval: Option<u32>,
        model_number: Option<String>,
        serial_number: Option<String>,
        turnover_date: Option<String>,
        weight: Option<String>,
        located_in: Option<Vec<Relation>>,
        operational_stage_count: Option<String>,
        feeds: Option<Vec<Relation>>,
        is_virtual_meter: Option<bool>,
    },
    HotWaterMeter {
        name: String,
        identifiers: Option<Vec<Identifier>>,
        initial_cost: Option<String>,
        installation_date: Option<String>,
        ip_address: Option<String>,
        mac_address: Option<String>,
        maintenance_interval: Option<u32>,
        model_number: Option<String>,
        serial_number: Option<String>,
        turnover_date: Option<String>,
        weight: Option<String>,
        located_in: Option<Vec<Relation>>,
        operational_stage_count: Option<String>,
        feeds: Option<Vec<Relation>>,
        is_virtual_meter: Option<bool>,
    },
    ChilledWaterMeter {
        name: String,
        identifiers: Option<Vec<Identifier>>,
        initial_cost: Option<String>,
        installation_date: Option<String>,
        ip_address: Option<String>,
        mac_address: Option<String>,
        maintenance_interval: Option<u32>,
        model_number: Option<String>,
        serial_number: Option<String>,
        turnover_date: Option<String>,
        weight: Option<String>,
        located_in: Option<Vec<Relation>>,
        operational_stage_count: Option<String>,
        feeds: Option<Vec<Relation>>,
        is_virtual_meter: Option<bool>,
    },
}

impl Asset {
    pub open spec fn spec_id(&self) -> Uuid {
        match self {
            Asset::Door(e) => e.id,
            Asset::Meter(e) => e.id,
            Asset::ElectricalMeter(e) => e.id,
            Asset::GasMeter(e) => e.id,
            Asset::HotWaterMeter(e) => e.id,
            Asset::ChilledWaterMeter(e) => e.id,
        }
    }

    pub open spec fn spec_name(&self) -> Seq<char> {
        match self {
            Asset::Door(e) => e.name@,
            Asset::Meter(e) => e.name@,
            Asset::ElectricalMeter(e) => e.name@,
            Asset::GasMeter(e) => e.name@,
            Asset::HotWaterMeter(e) => e.name@,
            Asset::ChilledWaterMeter(e) => e.name@,
        }
    }

    pub open spec fn spec_type(&self) -> AssetType {
        match self {
            Asset::Door(_) => AssetType::Door,
            Asset::Meter(_) => AssetType::Meter,
            Asset::ElectricalMeter(_) => AssetType::ElectricalMeter,
            Asset::GasMeter(_) => AssetType::GasMeter,
            Asset::HotWaterMeter(_) => AssetType::HotWaterMeter,
            Asset::ChilledWaterMeter(_) => AssetType::ChilledWaterMeter,
        }
    }

    pub fn id(&self) -> (r: Uuid)
        ensures
            r == self.spec_id(),
    {
        match self {
            Asset::Door(e) => e.id,
            Asset::Meter(e) => e.id,
            Asset::ElectricalMeter(e) => e.id,
            Asset::GasMeter(e) => e.id,
            Asset::HotWaterMeter(e) => e.id,
            Asset::ChilledWaterMeter(e) => e.id,
        }
    }

    pub fn asset_type(&self) -> (r: AssetType)
        ensures
            r == self.spec_type(),
    {
        match self {
            Asset::Door(_) => AssetType::Door,
            Asset::Meter(_) => AssetType::Meter,
            Asset::ElectricalMeter(_) => AssetType::ElectricalMeter,
            Asset::GasMeter(_) => AssetType::GasMeter,
            Asset::HotWaterMeter(_) => AssetType::HotWaterMeter,
            Asset::ChilledWaterMeter(_) => AssetType::ChilledWaterMeter,
        }
    }
}

impl NewAsset {
    pub open spec fn spec_type(&self) -> AssetType {
        match self {
            NewAsset::Door { .. } => AssetType::Door,
            NewAsset::Meter { .. } => AssetType::Meter,
            NewAsset::ElectricalMeter { .. } => AssetType::ElectricalMeter,
            NewAsset::GasMeter { .. } => AssetType::GasMeter,
            NewAsset::HotWaterMeter { .. } => AssetType::HotWaterMeter,
            NewAsset::ChilledWaterMeter { .. } => AssetType::ChilledWaterMeter,
        }
    }

    pub fn asset_type(&self) -> (r: AssetType)
        ensures
            r == self.spec_type(),
    {
        match self {
            NewAsset::Door { .. } => AssetType::Door,
            NewAsset::Meter { .. } => AssetType::Meter,
            NewAsset::ElectricalMeter { .. } => AssetType::ElectricalMeter,
            NewAsset::GasMeter { .. } => AssetType::GasMeter,
            NewAsset::HotWaterMeter { .. } => AssetType::HotWaterMeter,
            NewAsset::ChilledWaterMeter { .. } => AssetType::ChilledWaterMeter,
        }
    }
}

/// Lists the assets of one subtype: `GET asset?type=<subtype>`.
impl Request for AssetType {
    open spec fn spec_endpoint(&self) -> Seq<char> {
        Category::Asset.spec_path()
    }

    open spec fn spec_method(&self) -> Method {
        Method::Get
    }

    open spec fn spec_query(&self) -> Option<Seq<(Seq<char>, Seq<char>)>> {
        Some(seq![("type"@, self.spec_str())])
    }

    open spec fn spec_form(&self) -> Option<Seq<(Seq<char>, Seq<char>)>> {
        None
    }

    open spec fn spec_basic_auth(&self) -> Option<(Seq<char>, Option<Seq<char>>)> {
        None
    }

    open spec fn spec_has_body(&self) -> bool {
        false
    }

    fn endpoint(&self) -> String {
        Category::Asset.path()
    }

    fn method(&self) -> Method {
        Method::Get
    }

    fn query(&self) -> Option<Vec<(String, String)>> {
        Some(single_pair("type", self.to_string()))
    }

    fn form(&self) -> Option<Vec<(String, String)>> {
        None
    }

    fn basic_auth(&self) -> Option<(String, Option<String>)> {
        None
    }

    fn has_body(&self) -> bool {
        false
    }
}

/// Creates an entry: `POST asset` with the entry as the body.
impl Request for NewAsset {
    open spec fn spec_endpoint(&self) -> Seq<char> {
        Category::Asset.spec_path()
    }

    open spec fn spec_method(&self) -> Method {
        Method::Post
    }

    open spec fn spec_query(&self) -> Option<Seq<(Seq<char>, Seq<char>)>> {
        None
    }

    open spec fn spec_form(&self) -> Option<Seq<(Seq<char>, Seq<char>)>> {
        None
    }

    open spec fn spec_basic_auth(&self) -> Option<(Seq<char>, Option<Seq<char>>)> {
        None
    }

    open spec fn spec_has_body(&self) -> bool {
        true
    }

    fn endpoint(&self) -> String {
        Category::Asset.path()
    }

    fn method(&self) -> Method {
        Method::Post
    }

    fn query(&self) -> Option<Vec<(String, String)>> {
        None
    }

    fn form(&self) -> Option<Vec<(String, String)>> {
        None
    }

    fn basic_auth(&self) -> Option<(String, Option<String>)> {
        None
    }

    fn has_body(&self) -> bool {
        true
    }
}

/// Replaces an entry: `PUT asset/<id>` with the whole entry as the body.
impl Request for Asset {
    open spec fn spec_endpoint(&self) -> Seq<char> {
        Category::Asset.spec_item_path(self.spec_id())
    }

    open spec fn spec_method(&self) -> Method {
        Method::Put
    }

    open spec fn spec_query(&self) -> Option<Seq<(Seq<char>, Seq<char>)>> {
        None
    }

    open spec fn spec_form(&self) -> Option<Seq<(Seq<char>, Seq<char>)>> {
        None
    }

    open spec fn spec_basic_auth(&self) -> Option<(Seq<char>, Option<Seq<char>>)> {
        None
    }

    open spec fn spec_has_body(&self) -> bool {
        true
    }

    fn endpoint(&self) -> String {
        Category::Asset.item_path(self.id())
    }

    fn method(&self) -> Method {
        Method::Put
    }

    fn query(&self) -> Option<Vec<(String, String)>> {
        None
    }

    fn form(&self) -> Option<Vec<(String, String)>> {
        None
    }

    fn basic_auth(&self) -> Option<(String, Option<String>)> {
        None
    }

    fn has_body(&self) -> bool {
        true
    }
}

} // verus!
