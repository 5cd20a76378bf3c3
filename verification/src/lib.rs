//! A typed binding layer through which a profiling tool registers itself
//! with an OMPT-style host runtime: a tool descriptor handed to the host at
//! startup, and a registration protocol that resolves the host's callback
//! installation primitive by name and installs a table of typed callbacks.
//!
//! The host speaks only raw function pointers; here each pointer is carried
//! as an opaque machine word, and the raw C surface lives outside this
//! library. Everything a callback does once installed is the tool author's
//! own, and out of scope.

mod binding;
mod protocol;
mod tool;

pub use binding::bound_count;
pub use binding::install_plan;
pub use binding::lemma_no_deduplication;
pub use binding::lemma_plan_of_fully_bound_table;
pub use binding::lemma_unbound_entry_ignored;
pub use binding::planned_count;
pub use binding::CallbackBinding;
pub use binding::CallbackKind;
pub use binding::InstallStatus;
pub use protocol::install_primitive_name;
pub use protocol::install_primitive_name_spec;
pub use protocol::lemma_complete_session_log_covers_plan;
pub use protocol::lemma_unresolved_session_installs_nothing;
pub use protocol::Registration;
pub use tool::OMPTTool;
pub use tool::StartToolResult;
