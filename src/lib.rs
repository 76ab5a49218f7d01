//! Parsing of tag-annotated chat protocol lines and their classification
//! into chat events.
//!
//! A line such as
//! `@display-name=Foo;mod=0 :foo!foo@foo.tmi.twitch.tv PRIVMSG #bar :hello`
//! is parsed by [`parse`] into an [`IrcMessage`], which
//! [`Event::from_message`] classifies into an [`Event`]. [`route`] does both
//! and decides what a connection does with the line.

pub mod config;
pub mod event;
pub mod parser;
pub mod session;
pub mod tags;
pub mod text;

pub use crate::config::Config;
pub use crate::event::{ChatError, Event, EventType};
pub use crate::parser::{Command, IrcMessage, get_command, parse};
pub use crate::session::{Action, pong_line, route};
