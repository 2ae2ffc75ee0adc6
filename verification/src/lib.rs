//! The decisions behind the Agency OS desktop client.
//!
//! The client shows a server's cockpit in a native window and keeps the
//! cockpit where it is: links, print previews, PDF exports and video calls are
//! routed to the system browser, to windows of their own or to a file. This
//! library decides; the shell around it owns the windows, dialogs, files and
//! the network.
pub mod downloads;
pub mod menu;
pub mod navigation;
pub mod notices;
pub mod page_url;
pub mod pages;
pub mod scripts;
pub mod server;
pub mod text;
pub mod updates;
pub mod windows;
