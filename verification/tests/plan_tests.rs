use vasko::config::{
    Config, RedditCredentials, RedditImage, Reminder, ReminderImage, ReminderMessage, Task, Week,
    Weekday, Worker,
};
use vasko::plan::{find_task_text, find_worker_mention, plan_week, slack_mention, PlanError};

fn worker(name: &str, id: &str) -> Worker {
    Worker { name: name.to_string(), slack_id: id.to_string() }
}

fn task(name: &str, text: &str) -> Task {
    Task { name: name.to_string(), text: text.to_string() }
}

fn reminder(singular: &str, plural: &str) -> Reminder {
    Reminder {
        weekday: Weekday::Sunday,
        hour: 18,
        minute: 0,
        message: ReminderMessage { singular: singular.to_string(), plural: plural.to_string() },
        image: vec![ReminderImage::Reddit(RedditImage { sub: "aww".to_string(), pretext: None })],
    }
}

fn config() -> Config {
    Config {
        workers: vec![worker("kari", "U1"), worker("ola", "U2"), worker("per", "U3")],
        channel: "C1".to_string(),
        bot: "xoxb".to_string(),
        reddit: RedditCredentials {
            client_id: "id".to_string(),
            client_secret: "secret".to_string(),
            username: "bot".to_string(),
            password: "pw".to_string(),
        },
        reminders: vec![
            reminder("Husk vasken, %s!", "Husk vasken, %s!!"),
            reminder("%s har oppgaver", "%s har oppgaver sammen"),
        ],
        tasks: vec![task("bad", "Vask badet"), task("kjokken", "Vask kjøkkenet")],
        schedule: Vec::new(),
    }
}

fn week(number: u8, assignments: &[(&str, &str)]) -> Week {
    Week {
        number,
        assignments: assignments.iter().map(|(t, w)| (t.to_string(), w.to_string())).collect(),
    }
}

#[test]
fn slack_mention_wraps_id() {
    assert_eq!(slack_mention("U123"), "<@U123>");
}

#[test]
fn worker_lookup_takes_last_definition() {
    let workers = vec![worker("kari", "U1"), worker("kari", "U9")];
    assert_eq!(find_worker_mention(&workers, &"kari".to_string()), Some("<@U9>".to_string()));
    assert_eq!(find_worker_mention(&workers, &"ola".to_string()), None);
}

#[test]
fn task_lookup_takes_first_definition() {
    let tasks = vec![task("bad", "first"), task("bad", "second")];
    assert_eq!(find_task_text(&tasks, &"bad".to_string()), Some("first".to_string()));
    assert_eq!(find_task_text(&tasks, &"gang".to_string()), None);
}

#[test]
fn plan_week_without_assignments_is_skipped() {
    assert!(matches!(plan_week(&config(), &week(3, &[])), Ok(None)));
}

#[test]
fn plan_week_with_unknown_worker_fails() {
    match plan_week(&config(), &week(3, &[("bad", "kari"), ("bad", "nils"), ("bad", "eva")])) {
        Err(PlanError::UnknownWorker(name)) => assert_eq!(name, "nils"),
        _ => panic!("expected an unknown worker"),
    }
}

#[test]
fn plan_week_single_worker_uses_singular() {
    let plan = plan_week(&config(), &week(7, &[("bad", "ola")])).unwrap().unwrap();
    assert_eq!(plan.number, 7);
    assert_eq!(plan.mentions, vec!["<@U2>".to_string()]);
    assert_eq!(plan.human_mentions, "<@U2>");
    assert_eq!(plan.thread_messages, vec!["<@U2>\nVask badet".to_string()]);
    assert_eq!(
        plan.reminder_texts,
        vec!["Husk vasken, <@U2>!".to_string(), "<@U2> har oppgaver".to_string()]
    );
}

#[test]
fn plan_week_several_workers_uses_plural_and_skips_unknown_tasks() {
    let plan = plan_week(
        &config(),
        &week(8, &[("bad", "kari"), ("gang", "ola"), ("kjokken", "per")]),
    )
    .unwrap()
    .unwrap();
    assert_eq!(plan.mentions, vec!["<@U1>", "<@U2>", "<@U3>"]);
    assert_eq!(plan.human_mentions, "<@U1>, <@U2> og <@U3>");
    assert_eq!(
        plan.thread_messages,
        vec!["<@U1>\nVask badet".to_string(), "<@U3>\nVask kjøkkenet".to_string()]
    );
    assert_eq!(
        plan.reminder_texts,
        vec![
            "Husk vasken, <@U1>, <@U2> og <@U3>!!".to_string(),
            "<@U1>, <@U2> og <@U3> har oppgaver sammen".to_string()
        ]
    );
}
