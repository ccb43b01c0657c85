//! The state-gated action engine of a single-user identity manager.
//!
//! A session holds the durable record of one identity (an encrypted master
//! key and three artifacts bound to it) together with the decrypted key
//! while the identity is unlocked. Which actions a user may take is a pure
//! function of what the session holds; each action is a transition of the
//! session that this crate defines and proves.
//!
//! The crate performs no input or output and no cryptography. A driver
//! prints the menu that [`render_menu`] gives, reads keys and resolves them
//! with [`select_option`], prompts for passwords, calls the key library and
//! writes the document; it hands what it obtained to [`execute`] as a
//! [`Reply`] and acts on the [`Outcome`] that comes back.

pub mod actions;
pub mod data;
pub mod laws;
pub mod layout;
pub mod menu;
pub mod render;
pub mod session;

pub use actions::{execute, Outcome, Reply, Request, MASTER_KEY_WORK_FACTOR};
pub use data::{load, ConfigError, Data, Document, KeyCertificate, UserProfile};
pub use layout::StoredFile;
pub use menu::{main_options, main_options_from_params, select_option, KeyInput, MenuOption, MenuState};
pub use render::render_menu;
pub use session::Params;
