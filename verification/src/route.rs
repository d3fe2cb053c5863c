pub mod get;
pub mod get_response;

pub use get::RouteGetRequest;
pub use get_response::{Route, RouteFlags, RouteGetResponse, RouteProtocol, RouteScope, RouteType};
