//! The state that compiling and running a program keep: the bindings of a
//! scope, the program-wide environment, and the variables of one run.

pub mod local;
pub mod external;
pub mod runtime;

pub use external::{ExternalEnv, PathRoot, ReadOnlyPath, RuleSet};
pub use local::LocalEnv;
pub use runtime::Runtime;
