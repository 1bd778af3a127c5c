# vasko

A chores notification bot for Slack. Each scheduled ISO week it posts reminders that
mention the workers assigned to chores, with a thread telling each worker their task and,
optionally, the week's top image from a subreddit.

- `src/` is the library, verified with Verus: configuration types (`config`), the week's
  plan of mentions, reminder texts and thread messages (`plan`), text helpers (`text`),
  the Reddit login reply and image choice (`reddit`), the reminder's Slack blocks and the
  image search steps (`reminder`), the run-or-drop decision for a delayed task
  (`schedule`), and the due time of a reminder (`time`).
- `app/` is the program: it reads `config.kdl`, talks to Reddit and Slack, and waits for
  the reminders' moments.
- `tests/` runs the library on concrete values.
