//! Table-driven dispatch of reconnaissance tools against one network target:
//! a fixed catalog maps each scanner to its executable and argument template,
//! and a template is rendered against a target into the exact argument vector
//! the tool is launched with.

mod catalog;
mod invocation;
mod target;
mod template;

pub use catalog::{catalog_args, catalog_command, lemma_catalog_entry, Scanner, ScannerType};
pub use invocation::{launch_failure, prepare, Invocation, LaunchError, ScanError};
pub use target::{url_accepts, Target, TargetError};
pub use template::{
    all_literal, lemma_render_literal_only, lemma_render_needs_host, lemma_render_repeatable,
    literal_texts, render, rendered, strings_view, token_text, tokens_view, uses_host, Token,
    TokenView,
};
