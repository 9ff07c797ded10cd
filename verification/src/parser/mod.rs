pub(crate) mod collector;
pub(crate) mod file;
pub(crate) mod path;
pub(crate) mod scope;

pub use collector::{ModInfo, ModuleContext, PathCollector, PathInfo, VisitEvent};
pub use file::{ParsedFile, attr_is_ident, collect_file_scope, has_cfg, has_no_implicit_prelude};
pub use path::{LineColumn, QualifiedPath};
pub use scope::{FileScope, ItemInfo, ItemKind, UseTree, collect_items_scope, walk_use_tree};
