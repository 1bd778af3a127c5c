//! A reminder post: its Slack blocks, and the search for its image, which tries the
//! configured image sources in order until one gives an image.

use vstd::prelude::*;

use crate::config::ReminderImage;

verus! {

/// One block of a reminder's Slack message.
#[derive(Clone, Debug)]
pub enum ReminderBlock {
    /// A section of Markdown text.
    Markdown(String),
    /// A section of plain text, emoji shortcodes allowed.
    Plain(String),
    /// An image, by its URL.
    Image(String),
}

/// A block, its texts taken as character sequences.
pub enum ReminderBlockView {
    Markdown(Seq<char>),
    Plain(Seq<char>),
    Image(Seq<char>),
}

impl View for ReminderBlock {
    type V = ReminderBlockView;

    open spec fn view(&self) -> ReminderBlockView {
        match self {
            ReminderBlock::Markdown(text) => ReminderBlockView::Markdown(text@),
            ReminderBlock::Plain(text) => ReminderBlockView::Plain(text@),
            ReminderBlock::Image(url) => ReminderBlockView::Image(url@),
        }
    }
}

/// The blocks of a reminder: the message; then, where there is an image, its pretext (if
/// any) and the image.
pub open spec fn reminder_block_views(
    message: Seq<char>,
    image_url: Option<Seq<char>>,
    image_pretext: Option<Seq<char>>,
) -> Seq<ReminderBlockView> {
    match image_url {
        None => seq![ReminderBlockView::Markdown(message)],
        Some(url) => match image_pretext {
            Some(pretext) => seq![
                ReminderBlockView::Markdown(message),
                ReminderBlockView::Plain(pretext),
                ReminderBlockView::Image(url),
            ],
            None => seq![ReminderBlockView::Markdown(message), ReminderBlockView::Image(url)],
        },
    }
}

/// The Slack blocks of a reminder. A pretext is shown only with an image.
pub fn reminder_blocks(message: String, image_url: Option<String>, image_pretext: Option<String>) -> (blocks: Vec<ReminderBlock>)
    ensures
        blocks@.map_values(|b: ReminderBlock| b@)
            == reminder_block_views(message@, image_url.deep_view(), image_pretext.deep_view()),
{
    let mut blocks: Vec<ReminderBlock> = Vec::new();
    blocks.push(ReminderBlock::Markdown(message));
    match image_url {
        Some(url) => {
            match image_pretext {
                Some(pretext) => {
                    blocks.push(ReminderBlock::Plain(pretext));
                },
                None => {},
            }
            blocks.push(ReminderBlock::Image(url));
        },
        None => {},
    }
    proof {
        assert(blocks@.map_values(|b: ReminderBlock| b@)
            =~= reminder_block_views(message@, image_url.deep_view(), image_pretext.deep_view()));
    }
    blocks
}

/// The next message of a reminder post. A post that fails ends the whole post with its error.
#[derive(Clone, Debug)]
pub enum PostStep {
    /// Post the reminder itself in the channel.
    Reminder,
    /// Post thread message `index` as a reply to the reminder, whose stamp is `thread_ts`.
    Thread { index: usize, thread_ts: String },
    /// Everything is posted.
    Done,
}

/// A post step, the stamp taken as a character sequence.
pub enum PostStepView {
    Reminder,
    Thread(int, Seq<char>),
    Done,
}

impl View for PostStep {
    type V = PostStepView;

    open spec fn view(&self) -> PostStepView {
        match self {
            PostStep::Reminder => PostStepView::Reminder,
            PostStep::Thread { index, thread_ts } => PostStepView::Thread(*index as int, thread_ts@),
            PostStep::Done => PostStepView::Done,
        }
    }
}

/// The step after a successful post whose reply carried the stamp `reply_ts`: the reminder
/// is followed by the first thread message, replying to the reminder's stamp; each thread
/// message by the next one, replying to the same stamp; the last by nothing.
pub open spec fn post_step_after(step: PostStepView, thread_count: nat, reply_ts: Seq<char>) -> PostStepView {
    match step {
        PostStepView::Reminder => if thread_count > 0 {
            PostStepView::Thread(0, reply_ts)
        } else {
            PostStepView::Done
        },
        PostStepView::Thread(index, thread_ts) => if index + 1 < thread_count {
            PostStepView::Thread(index + 1, thread_ts)
        } else {
            PostStepView::Done
        },
        PostStepView::Done => PostStepView::Done,
    }
}

/// Where a reminder post starts: with the reminder itself.
pub fn first_post_step() -> (step: PostStep)
    ensures
        step@ == PostStepView::Reminder,
{
    PostStep::Reminder
}

/// Where a reminder post goes after `step` was posted and answered with the stamp
/// `reply_ts`, the reminder having `thread_count` thread messages.
pub fn next_post_step(step: PostStep, thread_count: usize, reply_ts: String) -> (next: PostStep)
    ensures
        next@ == post_step_after(step@, thread_count as nat, reply_ts@),
{
    match step {
        PostStep::Reminder => {
            if thread_count > 0 {
                PostStep::Thread { index: 0, thread_ts: reply_ts }
            } else {
                PostStep::Done
            }
        },
        PostStep::Thread { index, thread_ts } => {
            if thread_count > 0 && index < thread_count - 1 {
                PostStep::Thread { index: index + 1, thread_ts }
            } else {
                PostStep::Done
            }
        },
        PostStep::Done => PostStep::Done,
    }
}

/// The step after the reminder was answered with `first_reply` and the thread messages
/// posted so far were answered with `replies`.
pub open spec fn post_run(thread_count: nat, first_reply: Seq<char>, replies: Seq<Seq<char>>) -> PostStepView
    decreases replies.len(),
{
    if replies.len() == 0 {
        post_step_after(PostStepView::Reminder, thread_count, first_reply)
    } else {
        post_step_after(post_run(thread_count, first_reply, replies.drop_last()), thread_count, replies.last())
    }
}

/// A reminder post sends the thread messages in order, each once, every one as a reply to
/// the reminder's own stamp, and ends after the last.
pub proof fn law_thread_messages_follow_reminder_in_order(
    thread_count: nat,
    first_reply: Seq<char>,
    replies: Seq<Seq<char>>,
)
    ensures
        post_run(thread_count, first_reply, replies) == (if replies.len() < thread_count {
            PostStepView::Thread(replies.len() as int, first_reply)
        } else {
            PostStepView::Done
        }),
    decreases replies.len(),
{
    if replies.len() > 0 {
        law_thread_messages_follow_reminder_in_order(thread_count, first_reply, replies.drop_last());
    }
}

/// The next thing the image search does.
#[derive(Clone, Debug)]
pub enum ImageStep {
    /// Fetch an image from the image source at this index.
    Fetch(usize),
    /// Stop, with the image URL and its pretext, if any image was found.
    Finished(Option<String>, Option<String>),
}

/// An image search step, its texts taken as character sequences.
pub enum ImageStepView {
    Fetch(int),
    Finished(Option<Seq<char>>, Option<Seq<char>>),
}

impl View for ImageStep {
    type V = ImageStepView;

    open spec fn view(&self) -> ImageStepView {
        match self {
            ImageStep::Fetch(index) => ImageStepView::Fetch(*index as int),
            ImageStep::Finished(url, pretext) => ImageStepView::Finished(url.deep_view(), pretext.deep_view()),
        }
    }
}

/// The pretext configured with an image source.
pub open spec fn image_pretext(image: ReminderImage) -> Option<Seq<char>> {
    match image {
        ReminderImage::Reddit(reddit) => reddit.pretext.deep_view(),
    }
}

/// The search's first step: fetch from the first source, or stop with nothing if there is none.
pub open spec fn first_image_step_view(images: Seq<ReminderImage>) -> ImageStepView {
    if images.len() == 0 {
        ImageStepView::Finished(None, None)
    } else {
        ImageStepView::Fetch(0)
    }
}

/// The step after fetching from source `tried`: stop with the image and that source's
/// pretext, or try the next source, or stop with nothing after the last.
pub open spec fn image_step_after(images: Seq<ReminderImage>, tried: int, fetched: Option<Seq<char>>) -> ImageStepView {
    match fetched {
        Some(url) => ImageStepView::Finished(Some(url), image_pretext(images[tried])),
        None => if tried + 1 < images.len() {
            ImageStepView::Fetch(tried + 1)
        } else {
            ImageStepView::Finished(None, None)
        },
    }
}

/// Where the search starts.
pub fn first_image_step(images: &Vec<ReminderImage>) -> (step: ImageStep)
    ensures
        step@ == first_image_step_view(images@),
{
    if images.len() == 0 {
        ImageStep::Finished(None, None)
    } else {
        ImageStep::Fetch(0)
    }
}

/// Where the search goes after fetching from source `tried`, which gave `fetched`.
pub fn next_image_step(images: &Vec<ReminderImage>, tried: usize, fetched: Option<String>) -> (step: ImageStep)
    requires
        tried < images.len(),
    ensures
        step@ == image_step_after(images@, tried as int, fetched.deep_view()),
{
    match fetched {
        Some(url) => {
            let pretext = match &images[tried] {
                ReminderImage::Reddit(reddit) => reddit.pretext.clone(),
            };
            proof {
                assert(pretext.deep_view() == image_pretext(images@[tried as int]));
            }
            ImageStep::Finished(Some(url), pretext)
        },
        None => {
            if tried + 1 < images.len() {
                ImageStep::Fetch(tried + 1)
            } else {
                ImageStep::Finished(None, None)
            }
        },
    }
}

/// Drives the search for at most `fuel` fetches, source `i` giving `fetched[i]`.
pub open spec fn run_image_search(
    images: Seq<ReminderImage>,
    fetched: Seq<Option<Seq<char>>>,
    step: ImageStepView,
    fuel: nat,
) -> ImageStepView
    decreases fuel,
{
    match step {
        ImageStepView::Fetch(i) => if fuel == 0 {
            step
        } else {
            run_image_search(images, fetched, image_step_after(images, i, fetched[i]), (fuel - 1) as nat)
        },
        ImageStepView::Finished(..) => step,
    }
}

/// The image of the first source from index `i` on that gave one, with its pretext.
pub open spec fn first_fetched_image(
    images: Seq<ReminderImage>,
    fetched: Seq<Option<Seq<char>>>,
    i: int,
) -> ImageStepView
    decreases images.len() - i,
{
    if i < 0 || i >= images.len() {
        ImageStepView::Finished(None, None)
    } else if fetched[i] is Some {
        ImageStepView::Finished(fetched[i], image_pretext(images[i]))
    } else {
        first_fetched_image(images, fetched, i + 1)
    }
}

proof fn lemma_search_from(images: Seq<ReminderImage>, fetched: Seq<Option<Seq<char>>>, i: int)
    requires
        0 <= i < images.len(),
    ensures
        run_image_search(images, fetched, ImageStepView::Fetch(i), (images.len() - i) as nat)
            == first_fetched_image(images, fetched, i),
    decreases images.len() - i,
{
    let fuel = (images.len() - i) as nat;
    let next = image_step_after(images, i, fetched[i]);
    assert(run_image_search(images, fetched, ImageStepView::Fetch(i), fuel)
        == run_image_search(images, fetched, next, (fuel - 1) as nat));
    if fetched[i] is Some {
        assert(run_image_search(images, fetched, next, (fuel - 1) as nat) == next);
    } else if i + 1 < images.len() {
        lemma_search_from(images, fetched, i + 1);
    } else {
        assert(first_fetched_image(images, fetched, i + 1) == ImageStepView::Finished(None, None));
        assert(run_image_search(images, fetched, next, (fuel - 1) as nat) == next);
    }
}

/// The search tries the image sources in order and ends, after at most one fetch per
/// source, with the first image found and the pretext of the source that gave it; with
/// nothing if no source gave one.
pub proof fn law_image_search_takes_first_image(images: Seq<ReminderImage>, fetched: Seq<Option<Seq<char>>>)
    ensures
        run_image_search(images, fetched, first_image_step_view(images), images.len())
            == first_fetched_image(images, fetched, 0),
{
    if images.len() > 0 {
        lemma_search_from(images, fetched, 0);
    }
}

} // verus!
