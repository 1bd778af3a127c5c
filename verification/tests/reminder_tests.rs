use vasko::config::{RedditImage, ReminderImage};
use vasko::reminder::{
    first_image_step, first_post_step, next_image_step, next_post_step, reminder_blocks, ImageStep,
    PostStep, ReminderBlock,
};
use vasko::schedule::schedule_task_runs;

fn image(sub: &str, pretext: Option<&str>) -> ReminderImage {
    ReminderImage::Reddit(RedditImage { sub: sub.to_string(), pretext: pretext.map(|s| s.to_string()) })
}

fn texts(blocks: &[ReminderBlock]) -> Vec<String> {
    blocks
        .iter()
        .map(|b| match b {
            ReminderBlock::Markdown(t) => format!("md:{}", t),
            ReminderBlock::Plain(t) => format!("plain:{}", t),
            ReminderBlock::Image(u) => format!("img:{}", u),
        })
        .collect()
}

#[test]
fn blocks_without_image() {
    let blocks = reminder_blocks("hei".to_string(), None, Some("pre".to_string()));
    assert_eq!(texts(&blocks), vec!["md:hei"]);
}

#[test]
fn blocks_with_image_and_pretext() {
    let blocks = reminder_blocks("hei".to_string(), Some("https://x/".to_string()), Some("pre".to_string()));
    assert_eq!(texts(&blocks), vec!["md:hei", "plain:pre", "img:https://x/"]);
}

#[test]
fn blocks_with_image_without_pretext() {
    let blocks = reminder_blocks("hei".to_string(), Some("https://x/".to_string()), None);
    assert_eq!(texts(&blocks), vec!["md:hei", "img:https://x/"]);
}

#[test]
fn image_search_without_sources_finishes_empty() {
    assert!(matches!(first_image_step(&Vec::new()), ImageStep::Finished(None, None)));
}

#[test]
fn image_search_tries_sources_in_order() {
    let images = vec![image("a", Some("A")), image("b", Some("B")), image("c", None)];
    assert!(matches!(first_image_step(&images), ImageStep::Fetch(0)));
    assert!(matches!(next_image_step(&images, 0, None), ImageStep::Fetch(1)));
    match next_image_step(&images, 1, Some("https://b/".to_string())) {
        ImageStep::Finished(Some(url), Some(pretext)) => {
            assert_eq!(url, "https://b/");
            assert_eq!(pretext, "B");
        }
        other => panic!("unexpected {:?}", other),
    }
    assert!(matches!(next_image_step(&images, 2, None), ImageStep::Finished(None, None)));
}

#[test]
fn image_search_runs_to_first_success() {
    let images = vec![image("a", Some("A")), image("b", None), image("c", Some("C"))];
    let fetched = [None, Some("https://b/".to_string()), Some("https://c/".to_string())];
    let mut step = first_image_step(&images);
    let mut fetches = 0;
    let result = loop {
        match step {
            ImageStep::Fetch(i) => {
                fetches += 1;
                step = next_image_step(&images, i, fetched[i].clone());
            }
            ImageStep::Finished(url, pretext) => break (url, pretext),
        }
    };
    assert_eq!(fetches, 2);
    assert_eq!(result, (Some("https://b/".to_string()), None));
}

#[test]
fn zero_delay_task_does_not_run() {
    assert!(!schedule_task_runs(0, 0));
    assert!(schedule_task_runs(0, 1));
    assert!(schedule_task_runs(5, 0));
}

#[test]
fn post_steps_send_threads_in_order_to_the_reminder() {
    let step = first_post_step();
    assert!(matches!(step, PostStep::Reminder));
    let step = next_post_step(step, 2, "111.1".to_string());
    match &step {
        PostStep::Thread { index, thread_ts } => {
            assert_eq!(*index, 0);
            assert_eq!(thread_ts, "111.1");
        }
        other => panic!("unexpected {:?}", other),
    }
    let step = next_post_step(step, 2, "222.2".to_string());
    match &step {
        PostStep::Thread { index, thread_ts } => {
            assert_eq!(*index, 1);
            assert_eq!(thread_ts, "111.1");
        }
        other => panic!("unexpected {:?}", other),
    }
    let step = next_post_step(step, 2, "333.3".to_string());
    assert!(matches!(step, PostStep::Done));
    assert!(matches!(next_post_step(PostStep::Reminder, 0, "1".to_string()), PostStep::Done));
}
