//! A small customer-relationship store: contacts, deals organised in a
//! pipeline of stages, and the activities that link them, with the
//! statistics and the ranked search that a dashboard shows.

pub mod models;
pub mod order;
pub mod outside;
pub mod sample;
pub mod search;
pub mod state;
pub mod store;
pub mod text;
pub mod ui;

pub use models::{Activity, ActivityType, Contact, Deal, DealStage, Timestamp};
pub use search::{rank_results, search, SearchResult};
pub use state::{
    add_activity, add_contact, add_deal, delete_activity, delete_contact, delete_deal,
    toggle_activity_completed, update_activity, update_contact, update_deal, update_deal_stage,
};
pub use ui::{Modal, View};
pub use store::AppData;
