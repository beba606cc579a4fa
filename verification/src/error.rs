//! What a failed request answers with.

pub mod api_error;
