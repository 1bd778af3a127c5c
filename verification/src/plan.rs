//! What the bot says in a week: whom it mentions, the reminder texts, and the
//! thread message that tells each worker their task.

use vstd::prelude::*;

use crate::config::{Config, Reminder, Task, Week, WeekNumber, Worker};
use crate::text::{fill_placeholder, filled_template, human_readable, join_human_readable, string_views};

verus! {

/// How a worker is mentioned in Slack: `<@slack_id>`.
pub open spec fn mention(slack_id: Seq<char>) -> Seq<char> {
    seq!['<', '@'] + slack_id + seq!['>']
}

/// The mention of the worker called `name`; where several share the name, the last one counts.
pub open spec fn worker_mention(workers: Seq<Worker>, name: Seq<char>) -> Option<Seq<char>>
    decreases workers.len(),
{
    if workers.len() == 0 {
        None
    } else if workers.last().name@ == name {
        Some(mention(workers.last().slack_id@))
    } else {
        worker_mention(workers.drop_last(), name)
    }
}

/// Where a worker's name is defined again, the later definition decides the mention.
pub proof fn law_later_worker_definition_wins(workers: Seq<Worker>, worker: Worker)
    ensures
        worker_mention(workers.push(worker), worker.name@) == Some(mention(worker.slack_id@)),
{
    assert(workers.push(worker).last() == worker);
}

/// The text of the first task called `name`.
pub open spec fn task_text(tasks: Seq<Task>, name: Seq<char>) -> Option<Seq<char>>
    decreases tasks.len(),
{
    if tasks.len() == 0 {
        None
    } else if tasks[0].name@ == name {
        Some(tasks[0].text@)
    } else {
        task_text(tasks.skip(1), name)
    }
}

/// Where a task's name is defined again, the first definition decides the text.
pub proof fn law_first_task_definition_wins(task: Task, tasks: Seq<Task>)
    ensures
        task_text(seq![task] + tasks, task.name@) == Some(task.text@),
{
    assert((seq![task] + tasks)[0] == task);
}

/// Every assigned worker has a mention.
pub open spec fn all_workers_known(workers: Seq<Worker>, assignments: Seq<(String, String)>) -> bool {
    forall|i: int| 0 <= i < assignments.len() ==> (#[trigger] worker_mention(workers, assignments[i].1@)) is Some
}

/// The mention of each assignment's worker, in order.
pub open spec fn assignment_mentions(workers: Seq<Worker>, assignments: Seq<(String, String)>) -> Seq<Seq<char>> {
    Seq::new(assignments.len(), |i: int| worker_mention(workers, assignments[i].1@).unwrap())
}

/// A thread message: the worker's mention, a line break, the task's text.
pub open spec fn thread_message(worker: Seq<char>, text: Seq<char>) -> Seq<char> {
    worker + seq!['\n'] + text
}

/// One thread message per assignment whose task is known, in order.
pub open spec fn thread_messages(
    workers: Seq<Worker>,
    tasks: Seq<Task>,
    assignments: Seq<(String, String)>,
) -> Seq<Seq<char>>
    decreases assignments.len(),
{
    if assignments.len() == 0 {
        Seq::empty()
    } else {
        let earlier = thread_messages(workers, tasks, assignments.drop_last());
        match task_text(tasks, assignments.last().0@) {
            Some(text) => earlier.push(
                thread_message(worker_mention(workers, assignments.last().1@).unwrap(), text),
            ),
            None => earlier,
        }
    }
}

/// A week's thread holds at most one message per assignment.
pub proof fn law_thread_messages_at_most_one_per_assignment(
    workers: Seq<Worker>,
    tasks: Seq<Task>,
    assignments: Seq<(String, String)>,
)
    ensures
        thread_messages(workers, tasks, assignments).len() <= assignments.len(),
    decreases assignments.len(),
{
    if assignments.len() > 0 {
        law_thread_messages_at_most_one_per_assignment(workers, tasks, assignments.drop_last());
    }
}

/// A reminder's text: the singular form for one mention, else the plural, with the mentions filled in.
pub open spec fn reminder_text(reminder: Reminder, count: nat, mentions: Seq<char>) -> Seq<char> {
    filled_template(
        if count == 1 { reminder.message.singular@ } else { reminder.message.plural@ },
        mentions,
    )
}

/// A reminder speaks of exactly one assignment in its singular form and of any other
/// number of assignments in its plural form, the joined mentions filling its placeholder.
pub proof fn law_reminder_form_follows_count(reminder: Reminder, count: nat, mentions: Seq<char>)
    ensures
        count == 1 ==> reminder_text(reminder, count, mentions)
            == filled_template(reminder.message.singular@, mentions),
        count != 1 ==> reminder_text(reminder, count, mentions)
            == filled_template(reminder.message.plural@, mentions),
{
}

/// Everything the bot posts for one week.
#[derive(Clone, Debug)]
pub struct WeekPlan {
    pub number: WeekNumber,
    /// The mention of each assignment's worker, in the order of the assignments.
    pub mentions: Vec<String>,
    /// The mentions joined for humans.
    pub human_mentions: String,
    /// The messages posted in each reminder's thread.
    pub thread_messages: Vec<String>,
    /// The text of each configured reminder, in the order of the reminders.
    pub reminder_texts: Vec<String>,
}

/// Why a week cannot be planned.
#[derive(Clone, Debug)]
pub enum PlanError {
    /// An assignment names a worker that the configuration does not define.
    UnknownWorker(String),
}

/// Slack's mention markup for a user id: `<@slack_id>`.
pub fn slack_mention(slack_id: &str) -> (m: String)
    ensures
        m@ == mention(slack_id@),
{
    proof {
        reveal_strlit("<@");
        reveal_strlit(">");
    }
    let mut m = String::from_str("<@");
    m.append(slack_id);
    m.append(">");
    proof {
        assert(m@ =~= mention(slack_id@));
    }
    m
}

/// The mention of the worker called `name`, the last definition winning.
pub fn find_worker_mention(workers: &Vec<Worker>, name: &String) -> (m: Option<String>)
    ensures
        m.deep_view() == worker_mention(workers@, name@),
{
    let mut found: Option<String> = None;
    let mut i: usize = 0;
    proof {
        assert(workers@.take(0) =~= Seq::<Worker>::empty());
    }
    while i < workers.len()
        invariant
            i <= workers.len(),
            found.deep_view() == worker_mention(workers@.take(i as int), name@),
        decreases workers.len() - i,
    {
        proof {
            assert(workers@.take(i + 1).drop_last() =~= workers@.take(i as int));
            assert(workers@.take(i + 1).last() == workers@[i as int]);
        }
        if workers[i].name == *name {
            found = Some(slack_mention(workers[i].slack_id.as_str()));
        }
        i = i + 1;
    }
    proof {
        assert(workers@.take(workers.len() as int) =~= workers@);
    }
    found
}

/// The text of the first task called `name`.
pub fn find_task_text(tasks: &Vec<Task>, name: &String) -> (text: Option<String>)
    ensures
        text.deep_view() == task_text(tasks@, name@),
{
    let mut i: usize = 0;
    proof {
        assert(tasks@.skip(0) =~= tasks@);
    }
    while i < tasks.len()
        invariant
            i <= tasks.len(),
            task_text(tasks@, name@) == task_text(tasks@.skip(i as int), name@),
        decreases tasks.len() - i,
    {
        proof {
            assert(tasks@.skip(i as int)[0] == tasks@[i as int]);
            assert(tasks@.skip(i as int).skip(1) =~= tasks@.skip(i + 1));
        }
        if tasks[i].name == *name {
            return Some(tasks[i].text.clone());
        }
        i = i + 1;
    }
    None
}

/// Plans one week: the workers to mention, the reminder texts, and one thread message
/// per assignment whose task is known. `Ok(None)` when the week has no assignments.
pub fn plan_week(config: &Config, week: &Week) -> (result: Result<Option<WeekPlan>, PlanError>)
    ensures
        result is Ok <==> all_workers_known(config.workers@, week.assignments@),
        result matches Err(PlanError::UnknownWorker(name)) ==> exists|k: int|
            0 <= k < week.assignments@.len()
            && worker_mention(config.workers@, #[trigger] week.assignments@[k].1@) is None
            && (forall|j: int| 0 <= j < k ==> (#[trigger] worker_mention(config.workers@, week.assignments@[j].1@)) is Some)
            && name@ == week.assignments@[k].1@,
        result matches Ok(None) ==> week.assignments@.len() == 0,
        result matches Ok(Some(plan)) ==> {
            let mentions = assignment_mentions(config.workers@, week.assignments@);
            &&& week.assignments@.len() > 0
            &&& plan.number == week.number
            &&& string_views(plan.mentions@) == mentions
            &&& plan.human_mentions@ == human_readable(mentions)
            &&& string_views(plan.thread_messages@) == thread_messages(config.workers@, config.tasks@, week.assignments@)
            &&& string_views(plan.reminder_texts@) == config.reminders@.map_values(
                |r: Reminder| reminder_text(r, week.assignments@.len(), plan.human_mentions@))
            &&& plan.reminder_texts@.len() == config.reminders@.len()
            &&& forall|i: int| 0 <= i < config.reminders@.len() ==> #[trigger] plan.reminder_texts@[i]@
                == filled_template(
                    if week.assignments@.len() == 1 {
                        config.reminders@[i].message.singular@
                    } else {
                        config.reminders@[i].message.plural@
                    },
                    plan.human_mentions@,
                )
        },
{
    let workers = &config.workers;
    let assignments = &week.assignments;
    let n = assignments.len();
    let mut mentions: Vec<String> = Vec::new();
    let mut i: usize = 0;
    while i < n
        invariant
            i <= n,
            n == assignments@.len(),
            workers@ == config.workers@,
            assignments@ == week.assignments@,
            mentions@.len() == i,
            forall|j: int| 0 <= j < i ==> (#[trigger] worker_mention(workers@, assignments@[j].1@)) is Some,
            forall|j: int| 0 <= j < i ==> #[trigger] mentions@[j]@ == worker_mention(workers@, assignments@[j].1@).unwrap(),
        decreases n - i,
    {
        match find_worker_mention(workers, &assignments[i].1) {
            Some(m) => {
                mentions.push(m);
            },
            None => {
                let name = assignments[i].1.clone();
                proof {
                    assert(worker_mention(workers@, assignments@[i as int].1@) is None);
                    assert(!all_workers_known(workers@, assignments@));
                    assert(name@ == assignments@[i as int].1@);
                }
                return Err(PlanError::UnknownWorker(name));
            },
        }
        i = i + 1;
    }
    let ghost expected = assignment_mentions(workers@, assignments@);
    proof {
        assert(string_views(mentions@) =~= expected);
    }
    if n == 0 {
        return Ok(None);
    }
    let human_mentions = join_human_readable(&mentions);

    let mut threads: Vec<String> = Vec::new();
    let mut k: usize = 0;
    proof {
        reveal_strlit("\n");
        assert(assignments@.take(0) =~= Seq::<(String, String)>::empty());
        assert(string_views(threads@) =~= Seq::<Seq<char>>::empty());
    }
    while k < n
        invariant
            k <= n,
            n == assignments@.len(),
            n == mentions@.len(),
            forall|j: int| 0 <= j < n ==> #[trigger] mentions@[j]@ == worker_mention(workers@, assignments@[j].1@).unwrap(),
            string_views(threads@) == thread_messages(workers@, config.tasks@, assignments@.take(k as int)),
        decreases n - k,
    {
        proof {
            assert(assignments@.take(k + 1).drop_last() =~= assignments@.take(k as int));
            assert(assignments@.take(k + 1).last() == assignments@[k as int]);
        }
        let ghost before = threads@;
        match find_task_text(&config.tasks, &assignments[k].0) {
            Some(text) => {
                let mut line = mentions[k].clone();
                line.append("\n");
                line.append(text.as_str());
                threads.push(line);
                proof {
                    reveal_strlit("\n");
                    assert(line@ =~= thread_message(mentions@[k as int]@, text@));
                    assert(string_views(threads@) =~= string_views(before).push(line@));
                }
            },
            None => {},
        }
        k = k + 1;
    }
    proof {
        assert(assignments@.take(n as int) =~= assignments@);
    }

    let reminders = &config.reminders;
    let mut texts: Vec<String> = Vec::new();
    let mut r: usize = 0;
    while r < reminders.len()
        invariant
            r <= reminders.len(),
            n == assignments@.len(),
            n == mentions@.len(),
            texts@.len() == r,
            forall|j: int| 0 <= j < r ==> #[trigger] texts@[j]@ == reminder_text(reminders@[j], n as nat, human_mentions@),
        decreases reminders.len() - r,
    {
        let template = if mentions.len() == 1 {
            reminders[r].message.singular.as_str()
        } else {
            reminders[r].message.plural.as_str()
        };
        let text = fill_placeholder(template, human_mentions.as_str());
        texts.push(text);
        r = r + 1;
    }
    proof {
        assert(string_views(texts@) =~= reminders@.map_values(
            |rem: Reminder| reminder_text(rem, n as nat, human_mentions@)));
        assert forall|i: int| 0 <= i < reminders@.len() implies #[trigger] texts@[i]@ == filled_template(
            if n == 1 { reminders@[i].message.singular@ } else { reminders@[i].message.plural@ },
            human_mentions@,
        ) by {
            law_reminder_form_follows_count(reminders@[i], n as nat, human_mentions@);
        }
    }
    Ok(Some(WeekPlan {
        number: week.number,
        mentions,
        human_mentions,
        thread_messages: threads,
        reminder_texts: texts,
    }))
}

} // verus!
