//! The decisions of a multi-window markdown editor's backend.
//!
//! At the centre stands the "hot exit" feature, which carries the state of
//! every window over a restart: the session schema and its versioning
//! ([`session`]), the migration chain ([`migration`]), the capture round
//! that collects window states under a deadline ([`capture`]), the order
//! of the steps by which a session reaches the disk ([`storage`]), the
//! restore that validates a session and decides what goes where
//! ([`restore`]), and the pull-based hand-off that gives each recreated
//! window its state back ([`pending`]).
//!
//! Around it stand smaller rules of the same editor: how files opened from
//! the system are grouped and queued and what a new window is called
//! ([`window_manager`]), how prompt files are parsed and listed
//! ([`frontmatter`], [`genies`], [`prompts`], [`listing`]), which file
//! system events are worth passing on ([`watcher`], [`file_tree`]), which
//! symbol a menu item carries ([`macos_menu`]), and what is decided before
//! an assistant or a terminal is called ([`ai_provider`], [`mcp_config`],
//! [`pty`]).
//!
//! Nothing here touches a window, a file or the network. The host does
//! that, and hands plain values in and out. What the library asks of the
//! world it asks through a few functions whose bodies are not verified:
//! the clock ([`clock`]), the path syntax of `std` ([`paths`]), and three
//! text routines of outside crates and `std`.

pub mod ai_provider;
pub mod capture;
pub mod clock;
pub mod error;
pub mod file_tree;
pub mod frontmatter;
pub mod genies;
pub mod listing;
pub mod macos_menu;
pub mod mcp_config;
pub mod migration;
pub mod paths;
pub mod pending;
pub mod prompts;
pub mod pty;
pub mod restore;
pub mod session;
pub mod storage;
pub mod text;
pub mod watcher;
pub mod window_manager;
pub mod window_order;
