//! What the dashboard's endpoints decide.

pub mod api_router;
pub mod ws_router;
