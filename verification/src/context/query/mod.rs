//! Read-only query handles over the system context: a process with its ancestry, children,
//! modules, handles, files and interactions; a file with the processes that touched it; a
//! thread with its owner; and filters over connections and interactions.
pub mod process_query;
pub mod file_query;
pub mod thread_query;
pub mod network_query;
pub mod interaction_query;
