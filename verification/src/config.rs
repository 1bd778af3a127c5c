//! The bot's configuration: who works, what the tasks are, who does what in which
//! week, and when and how to remind them.

use vstd::prelude::*;

verus! {

/// The whole configuration of the bot.
#[derive(Clone, Debug)]
pub struct Config {
    pub workers: Vec<Worker>,
    /// The Slack channel that the reminders go to.
    pub channel: String,
    /// The Slack bot token.
    pub bot: String,
    /// The Reddit account used to look up reminder images.
    pub reddit: RedditCredentials,
    pub reminders: Vec<Reminder>,
    pub tasks: Vec<Task>,
    pub schedule: Vec<Week>,
}

/// A person who does chores, with the Slack user id used to mention them.
#[derive(Clone, Debug)]
pub struct Worker {
    pub name: String,
    pub slack_id: String,
}

/// A day of the week.
#[derive(Clone, Copy, Debug, PartialEq, Eq, Structural)]
pub enum Weekday {
    Monday,
    Tuesday,
    Wednesday,
    Thursday,
    Friday,
    Saturday,
    Sunday,
}

/// The number of days from Monday to `day` (Monday is 0, Sunday is 6).
pub open spec fn days_from_monday(day: Weekday) -> nat {
    match day {
        Weekday::Monday => 0,
        Weekday::Tuesday => 1,
        Weekday::Wednesday => 2,
        Weekday::Thursday => 3,
        Weekday::Friday => 4,
        Weekday::Saturday => 5,
        Weekday::Sunday => 6,
    }
}

/// An image to show with a reminder: the top image of the week on a subreddit.
#[derive(Clone, Debug)]
pub struct RedditImage {
    pub sub: String,
    /// A line of text shown above the image.
    pub pretext: Option<String>,
}

/// Where a reminder image comes from.
#[derive(Clone, Debug)]
pub enum ReminderImage {
    Reddit(RedditImage),
}

/// The text of a reminder, for one worker and for several; `%s` stands for the mentions.
#[derive(Clone, Debug)]
pub struct ReminderMessage {
    pub singular: String,
    pub plural: String,
}

pub type Hour = u8;

pub type Minute = u8;

/// A reminder sent each scheduled week at the given weekday and time.
#[derive(Clone, Debug)]
pub struct Reminder {
    pub weekday: Weekday,
    pub hour: Hour,
    pub minute: Minute,
    pub message: ReminderMessage,
    /// Image sources, tried in order until one gives an image.
    pub image: Vec<ReminderImage>,
}

/// A chore, found by its name.
#[derive(Clone, Debug)]
pub struct Task {
    pub name: String,
    pub text: String,
}

pub type WeekNumber = u8;

/// The chores of one ISO week: pairs of task name and worker name.
#[derive(Clone, Debug)]
pub struct Week {
    pub number: WeekNumber,
    pub assignments: Vec<(String, String)>,
}

/// The credentials of the Reddit script application used to fetch images.
#[derive(Clone, Debug)]
pub struct RedditCredentials {
    pub client_id: String,
    pub client_secret: String,
    pub username: String,
    pub password: String,
}

} // verus!
