//! An HTTP transport bridge: it turns an abstract request into a native one,
//! classifies what the network answers, and hands the response back either
//! buffered or as a stream of chunks.
pub mod client;
pub mod errors;
pub mod extensions;
pub mod native;
pub mod ordered_map;
pub mod response;
pub mod streaming;
pub mod transport;
pub mod utils;
