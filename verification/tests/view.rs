use diwa::commands::queue::{
    assemble_embed, complete_burst, create_buttons, create_queue_embed, extract_track_data,
    format_track, queue, search_burst, update_queue_embed,
};
use diwa::commands::song::song;
use diwa::handler::{act, pending_search, ANNOUNCEMENT_LIFETIME};
use diwa::metadata::{MiniMetadata, MiniUser};
use diwa::pager::{Controls, PagerEvent};
use diwa::queue::Queue;
use diwa::session::Session;
use diwa::track::{AddedBy, LazyMetadataTrait, SearchResult, Track};

fn eager(title: &str, duration: u64) -> Track {
    Track::eager(MiniMetadata {
        title: title.to_owned(),
        duration,
        source_url: format!("u/{}", title),
    })
}

fn hit(title: &str) -> Option<SearchResult> {
    Some(SearchResult {
        title: Some(title.to_owned()),
        video_id: Some(title.to_lowercase()),
        duration: Some(100),
    })
}

/// Current track, then lazy tracks at the odd places among 14 tracks.
fn mixed() -> Queue {
    let mut q = Queue::new();
    for i in 0..14 {
        if i % 2 == 1 {
            q.enqueue(Track::lazy(format!("query {}", i)));
        } else {
            q.enqueue(eager(&format!("t{}", i), 60 + i));
        }
    }
    q
}

#[test]
fn burst_targets_the_unresolved_tracks_of_the_page() {
    let q = mixed();
    assert_eq!(search_burst(&q, 0), vec![1, 3, 5]);
    assert_eq!(search_burst(&q, 1), vec![7, 9, 11]);
    assert_eq!(search_burst(&q, 2), vec![13]);
    assert_eq!(search_burst(&q, 3), Vec::<usize>::new());
    assert_eq!(search_burst(&q, u32::MAX), Vec::<usize>::new());
    assert_eq!(search_burst(&Queue::new(), 0), Vec::<usize>::new());
    let mut current_only = Queue::new();
    current_only.enqueue(Track::lazy("q".to_owned()));
    assert_eq!(search_burst(&current_only, 0), Vec::<usize>::new());
}

#[test]
fn burst_gives_each_target_its_own_attempt() {
    let mut q = mixed();
    complete_burst(&mut q, 0, vec![hit("A"), None, hit("C")]);
    assert_eq!(q.get(1).unwrap().read_lazy_metadata().unwrap().title, "A");
    assert!(q.get(3).unwrap().read_lazy_metadata().is_none());
    assert_eq!(q.get(5).unwrap().read_lazy_metadata().unwrap().title, "C");
    assert!(q.get(7).unwrap().read_lazy_metadata().is_none());
    assert_eq!(q.len(), 14);
    assert_eq!(search_burst(&q, 0), vec![3]);
    complete_burst(&mut q, 0, vec![hit("B")]);
    assert_eq!(q.get(3).unwrap().read_lazy_metadata().unwrap().title, "B");
    assert_eq!(q.get(1).unwrap().read_lazy_metadata().unwrap().title, "A");
    assert_eq!(search_burst(&q, 0), Vec::<usize>::new());
}

#[test]
fn burst_tolerates_too_few_and_too_many_outcomes() {
    let mut q = mixed();
    complete_burst(&mut q, 1, vec![hit("Seven")]);
    assert_eq!(q.get(7).unwrap().read_lazy_metadata().unwrap().title, "Seven");
    assert!(q.get(9).unwrap().read_lazy_metadata().is_none());
    complete_burst(&mut q, 2, vec![hit("Last"), hit("Spare"), hit("Spare")]);
    assert_eq!(q.get(13).unwrap().read_lazy_metadata().unwrap().title, "Last");
    assert!(q.get(11).unwrap().read_lazy_metadata().is_none());
    complete_burst(&mut q, 9, vec![hit("Nowhere")]);
    assert_eq!(search_burst(&q, 1), vec![9, 11]);
    let nothing = || Some(SearchResult { title: None, video_id: None, duration: None });
    complete_burst(&mut q, 1, vec![nothing(), hit("Eleven")]);
    assert!(q.get(9).unwrap().read_lazy_metadata().is_none());
    assert_eq!(q.get(11).unwrap().read_lazy_metadata().unwrap().title, "Eleven");
    assert_eq!(search_burst(&q, 1), vec![9]);
}

#[test]
fn track_lines() {
    assert_eq!(format_track("T", "u", 200, None), "**[T](u)** | 03:20");
    assert_eq!(format_track("T", "u", 200, Some(65)), "**[T](u)** | 01:05/03:20");
    assert_eq!(format_track("T", "u", 200, Some(465)), "**[T](u)** | 01:05/03:20");
    assert_eq!(format_track("T", "u", 3600, Some(65)), "**[T](u)** | 00:01:05/01:00:00");
    assert_eq!(format_track("", "", 0, Some(7)), "**[]()** | 00:07/00:00");
    assert_eq!(format_track("", "", 0, None), "**[]()** | 00:00");
    assert_eq!(
        format_track("T", "u", 8_640_000, Some(5)),
        "**[T](u)** | 00:00:00:05/100:00:00:00"
    );
}

#[test]
fn track_data_for_the_view() {
    let (m, t) = extract_track_data(&eager("a", 9), true, Some(4));
    assert_eq!((m.title.as_str(), m.duration, t), ("a", 9, Some(4)));
    let (_, t) = extract_track_data(&eager("a", 9), false, Some(4));
    assert_eq!(t, None);
    let (m, t) = extract_track_data(&Track::lazy("q".to_owned()), true, None);
    assert_eq!((m.title.as_str(), m.duration, m.source_url.as_str(), t), ("", 0, "", None));
}

#[test]
fn view_of_given_lines() {
    let lines: Vec<String> = vec!["cur".into(), "one".into(), "two".into()];
    let embed = create_queue_embed(lines, 0, 2, 13, false);
    assert_eq!(embed.title, "Queue");
    assert_eq!(embed.currently_playing, "cur");
    assert_eq!(embed.next_up, "1. one\n2. two\n");
    assert_eq!(embed.footer, "Page: 1/2  tracks: 13  loop: false");
    let embed = create_queue_embed(vec!["cur".into(), "x".into()], 2, 2, 14, true);
    assert_eq!(embed.next_up, "13. x\n");
    assert_eq!(embed.footer, "Page: 3/2  tracks: 14  loop: true");
    let embed = create_queue_embed(vec!["cur".into()], 0, 0, 1, false);
    assert_eq!(embed.next_up, "*Nothing*");
    assert_eq!(embed.footer, "Page: 1/1  tracks: 1  loop: false");
    let embed = create_queue_embed(vec![], 0, 0, 0, false);
    assert_eq!(embed.currently_playing, "*Nothing*");
    assert_eq!(embed.next_up, "*Nothing*");
    assert_eq!(embed.footer, "Page: 1/1  tracks: 0  loop: false");
    let embed = create_queue_embed(vec![], u32::MAX, u32::MAX, 0, false);
    assert_eq!(embed.footer, "Page: 4294967296/4294967295  tracks: 0  loop: false");
}

#[test]
fn buttons_at_the_ends() {
    assert_eq!(create_buttons(0, 2), Controls { prev_disabled: true, next_disabled: false });
    assert_eq!(create_buttons(1, 2), Controls { prev_disabled: false, next_disabled: false });
    assert_eq!(create_buttons(2, 2), Controls { prev_disabled: false, next_disabled: true });
    assert_eq!(create_buttons(0, 0), Controls { prev_disabled: true, next_disabled: true });
    assert_eq!(create_buttons(5, 2), Controls { prev_disabled: false, next_disabled: true });
}

#[test]
fn page_is_assembled_after_its_burst() {
    let mut q = mixed();
    q.toggle_loop();
    let (embed, last) = assemble_embed(&mut q, 0, vec![hit("A"), hit("B"), None], Some(61));
    assert_eq!(last, 2);
    assert_eq!(embed.currently_playing, "**[t0](u/t0)** | 00:01/01:00");
    assert_eq!(
        embed.next_up,
        "1. **[A](https://youtu.be/a)** | 01:40\n\
         2. **[t2](u/t2)** | 01:02\n\
         3. **[B](https://youtu.be/b)** | 01:40\n\
         4. **[t4](u/t4)** | 01:04\n\
         5. **[]()** | 00:00\n\
         6. **[t6](u/t6)** | 01:06\n"
    );
    assert_eq!(embed.footer, "Page: 1/2  tracks: 14  loop: true");
    let (embed, last) = assemble_embed(&mut q, 2, vec![hit("Z")], None);
    assert_eq!(last, 2);
    assert_eq!(embed.currently_playing, "**[t0](u/t0)** | 01:00");
    assert_eq!(embed.next_up, "13. **[Z](https://youtu.be/z)** | 01:40\n");
    assert_eq!(embed.footer, "Page: 3/2  tracks: 14  loop: true");
    let (embed, _) = assemble_embed(&mut q, 7, vec![], None);
    assert_eq!(embed.next_up, "*Nothing*");
    let mut empty = Queue::new();
    let (embed, last) = assemble_embed(&mut empty, 0, vec![hit("x")], Some(3));
    assert_eq!(last, 0);
    assert_eq!(embed.currently_playing, "*Nothing*");
    assert_eq!(embed.next_up, "*Nothing*");
}

#[test]
fn pager_and_view_go_together() {
    let mut q = mixed();
    let mut pager = queue(&q, None, 50);
    assert_eq!((pager.page(), pager.last_page(), pager.created_at()), (0, 2, 50));
    let (_, controls) = update_queue_embed(&pager, &mut q, vec![], None);
    assert_eq!(controls, Controls { prev_disabled: true, next_disabled: false });
    pager.handle(PagerEvent::Next, q.len(), 51);
    pager.handle(PagerEvent::Next, q.len(), 52);
    let (embed, controls) = update_queue_embed(&pager, &mut q, vec![hit("Z")], None);
    assert_eq!(embed.next_up, "13. **[Z](https://youtu.be/z)** | 01:40\n");
    assert_eq!(controls, Controls { prev_disabled: false, next_disabled: true });
    let far = queue(&q, Some(40), 0);
    assert_eq!(far.page(), 2);
}

#[test]
fn song_line_of_the_current_track() {
    let mut session = Session::new(Some(1));
    assert!(song(&session, 5).is_none());
    session.queue.enqueue(eager("T", 200));
    assert_eq!(song(&session, 65).unwrap(), "[T](u/T) | 01:05/03:20");
    assert_eq!(song(&session, 3700).unwrap(), "[T](u/T) | 01:40/03:20");
    let mut lazy = Session::new(None);
    lazy.queue.enqueue(Track::lazy("q".to_owned()));
    assert!(song(&lazy, 0).is_none());
    lazy.queue.resolve_at(0, hit("Found"));
    assert_eq!(song(&lazy, 0).unwrap(), "[Found](https://youtu.be/found) | 00:00/01:40");
}

#[test]
fn a_starting_track_is_resolved_and_announced() {
    assert_eq!(ANNOUNCEMENT_LIFETIME, 10);
    let mut q = Queue::new();
    assert_eq!(pending_search(&q, 0), None);
    assert!(act(&mut q, 0, hit("x")).is_none());
    let mut track = Track::lazy("find".to_owned());
    track.write_added_by(&MiniUser { id: 9, name: "n".to_owned(), avatar_url: None });
    q.enqueue(track);
    q.enqueue(Track::lazy("other".to_owned()));
    assert_eq!(pending_search(&q, 3), None);
    assert!(act(&mut q, 3, hit("Late")).is_none());
    assert!(q.get(0).unwrap().read_lazy_metadata().is_none());
    assert_eq!(pending_search(&q, 0).as_deref(), Some("find"));
    assert!(act(&mut q, 0, None).is_none());
    assert!(act(&mut q, 0, Some(SearchResult { title: None, video_id: None, duration: None }))
        .is_none());
    assert_eq!(pending_search(&q, 0).as_deref(), Some("find"));
    let card = act(&mut q, 0, hit("Found")).unwrap();
    assert_eq!(card.description, "[Found](https://youtu.be/found) | 01:40");
    assert_eq!(card.author.unwrap().url, "https://discordapp.com/users/9");
    assert!(q.get(1).unwrap().read_lazy_metadata().is_none());
    assert_eq!(pending_search(&q, 0), None);
    let again = act(&mut q, 0, hit("Changed")).unwrap();
    assert_eq!(again.description, "[Found](https://youtu.be/found) | 01:40");
    let mut eager_queue = Queue::new();
    eager_queue.enqueue(eager("E", 1));
    assert!(act(&mut eager_queue, 0, None).is_none());
}
