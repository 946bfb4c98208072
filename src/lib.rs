pub mod callback;
pub mod escape;
pub mod examples;
pub mod handle;
pub mod headers;
pub mod http_client;
pub mod opt;
pub mod request;
pub mod response;
pub mod text;
