//! Protocol core for driving a media worker process: building the request,
//! decoding the worker's JSON envelopes, telling progress updates from final
//! answers, and resolving one outcome once the worker has exited.

pub mod failure;
pub mod json;
pub mod lines;
pub mod message;
pub mod replay;
pub mod request;
pub mod stream;
pub mod tracks;
