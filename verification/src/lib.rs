//! Chores reminder planning for a Slack bot: which workers to mention for a week,
//! the texts of the reminders and their threads, the Slack blocks of a reminder,
//! how to pick a Reddit image for it, and when it is due.

pub mod config;
pub mod plan;
pub mod reddit;
pub mod reminder;
pub mod schedule;
pub mod text;
pub mod time;
