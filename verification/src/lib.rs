//! What is running on a computer, and what it means: the rule engine that
//! scores raw facts about processes and startup entries, the explanation
//! engine that turns a score into plain-English sentences, and the layers
//! applied on top of them (the user's allowlist and the "new since last
//! time" check).

pub mod allowlist;
pub mod collector;
pub mod explain;
pub mod history;
pub mod rules;
pub mod scan;
pub mod text;
pub mod types;
