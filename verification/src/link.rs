pub mod bridge;
pub mod bridge_vlan;
pub mod delete;
pub mod delete_response;
pub mod flags;
pub mod get;
pub mod get_response;
pub mod set;
pub mod set_response;

pub use bridge::{
    BridgeCreateRequest, BridgeCreateResponse, BridgeOptions, BridgeSetRequest, BridgeSetResponse,
};
pub use bridge_vlan::{BridgeVlanAddRequest, BridgeVlanDelRequest, BridgeVlanResponse};
pub use delete::LinkDeleteRequest;
pub use delete_response::LinkDeleteResponse;
pub use flags::LinkFlags;
pub use get::LinkGetRequest;
pub use get_response::{HwAddr, Link, LinkGetResponse, LinkType};
pub use set::LinkSetRequest;
pub use set_response::LinkSetResponse;
