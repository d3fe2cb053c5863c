pub mod flags;
pub mod flush;
pub mod get;
pub mod get_response;

pub use flags::AddressFlags;
pub use flush::{AddrFlushAction, AddrFlushDeletion, AddrFlushRequest, AddrFlushResponse};
pub use get::AddrGetRequest;
pub use get_response::{AddrGetInterface, AddrGetInterfaceAddressV4, AddrGetResponse};
