//! Native side of a slide presenter: monitor labels, the projector window's
//! open / close / update sequences, and the request profile of the content proxy.

pub mod decimal;
pub mod monitor;
pub mod projector;
pub mod model;
pub mod fetch;
