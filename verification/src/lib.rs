//! Decision logic of the DeepSeek Harness desktop shell: the navigation
//! policy, port and Node.js resolution, the start/stop protocols of the
//! `dsh` server process, theme persistence, menu dispatch and the
//! close-to-tray lifecycle. The desktop runtime performs the actions these
//! functions decide on.

pub mod text;
pub mod theme;
pub mod port;
pub mod launch;
pub mod lifecycle;
pub mod navigation;
pub mod state;
pub mod bridge;
pub mod menu;
pub mod node;
pub mod search;
