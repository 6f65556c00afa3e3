use muzak::events::Metadata;
use muzak::queue::{last_segment, Queue, QueueItem};

fn item(path: &str) -> QueueItem {
    QueueItem { file_path: String::from(path), metadata: Metadata::empty(), album_art: None }
}

#[test]
fn appended_item_is_current_when_its_path_plays() {
    let mut queue = Queue::new();
    let x = item("/music/x.flac");
    assert_eq!(queue.append(x.clone()), 1);
    let current = Some(String::from("/music/x.flac"));
    assert!(queue.snapshot()[0].is_current(&current));
    assert!(!x.is_current(&Some(String::from("/music/y.flac"))));
    assert!(!x.is_current(&None));
    assert_eq!(queue.remove(0), Some(x.clone()));
    assert!(!queue.snapshot().contains(&x));
    assert!(!queue.contains_path(&x.file_path));
    assert_eq!(queue.len(), 0);
}

#[test]
fn queue_keeps_order() {
    let mut queue = Queue::new();
    assert_eq!(queue.append(item("a")), 1);
    assert_eq!(queue.append(item("b")), 2);
    assert_eq!(queue.append(item("c")), 3);
    assert_eq!(queue.snapshot(), vec![item("a"), item("b"), item("c")]);
    assert_eq!(queue.remove(1), Some(item("b")));
    assert_eq!(queue.snapshot(), vec![item("a"), item("c")]);
    assert!(queue.contains_path(&String::from("c")));
    assert!(!queue.contains_path(&String::from("b")));
}

#[test]
fn remove_past_the_end_changes_nothing() {
    let mut queue = Queue::new();
    queue.append(item("a"));
    assert_eq!(queue.remove(1), None);
    assert_eq!(queue.remove(usize::MAX), None);
    assert_eq!(queue.snapshot(), vec![item("a")]);
}

#[test]
fn clear_empties_the_queue() {
    let mut queue = Queue::new();
    queue.append(item("a"));
    queue.append(item("b"));
    queue.clear();
    assert_eq!(queue.len(), 0);
    assert!(queue.snapshot().is_empty());
}

#[test]
fn copy_keeps_every_field() {
    let full = QueueItem {
        file_path: String::from("/m/a.mp3"),
        metadata: Metadata {
            name: Some(String::from("A")),
            artist: Some(String::from("B")),
            album: None,
        },
        album_art: Some(vec![1, 2, 3]),
    };
    assert_eq!(full.copy(), full);
    assert_eq!(Metadata::empty().copy(), Metadata { name: None, artist: None, album: None });
}

#[test]
fn last_segment_follows_the_last_separator() {
    assert_eq!(last_segment("/music/album/song.flac", '/'), "song.flac");
    assert_eq!(last_segment("song.flac", '/'), "song.flac");
    assert_eq!(last_segment("/music/album/", '/'), "");
    assert_eq!(last_segment("", '/'), "");
    assert_eq!(last_segment("C:\\music\\s\u{f6}ng.mp3", '\\'), "s\u{f6}ng.mp3");
    assert_eq!(last_segment("a/b", '\\'), "a/b");
}

#[test]
fn title_and_artist_fall_back() {
    let bare = item("/music/track01.ogg");
    assert_eq!(bare.title('/'), "track01.ogg");
    assert_eq!(bare.artist_or("Nobody"), "Nobody");
    assert_eq!(bare.artist(), "Unknown Artist");
    let named = QueueItem {
        file_path: String::from("/music/track01.ogg"),
        metadata: Metadata {
            name: Some(String::from("First")),
            artist: Some(String::from("Someone")),
            album: None,
        },
        album_art: None,
    };
    assert_eq!(named.title('/'), "First");
    assert_eq!(named.artist_or("Nobody"), "Someone");
    assert_eq!(named.artist(), "Someone");
}

#[test]
fn list_starts_empty_and_is_rebuilt_on_change() {
    let mut queue = Queue::new();
    queue.append(item("a"));
    let mut cell = muzak::reactive::ReactiveContainer::new(queue);
    let mut list = muzak::queue_view::Queue::new(&mut cell);
    assert_eq!(list.rows, 0);
    assert_eq!(cell.notify(), vec![list.subscription]);
    cell.value.append(item("b"));
    let rows = list.queue_changed(&cell);
    assert_eq!(rows, vec![item("a"), item("b")]);
    assert_eq!(list.rows, 2);
}

#[test]
fn a_new_row_follows_the_current_track() {
    let mut current = muzak::reactive::ReactiveContainer::new(Some(String::from("/m/c.mp3")));
    let earlier = current.subscribe();
    let metadata = Metadata { name: Some(String::from("X")), artist: None, album: None };
    let (row, handle) =
        QueueItem::new(&mut current, String::from("/m/x.mp3"), metadata.clone(), Some(vec![7]));
    assert_eq!(
        row,
        QueueItem { file_path: String::from("/m/x.mp3"), metadata, album_art: Some(vec![7]) }
    );
    assert_eq!(handle, 1);
    assert_eq!(*current.read(), Some(String::from("/m/c.mp3")));
    assert_eq!(current.notify(), vec![earlier, handle]);
    assert!(!row.is_current(current.read()));
    let mut told = 0;
    for path in ["/m/a.mp3", "/m/x.mp3", "/m/b.mp3"] {
        let round = current.update(Some(String::from(path)));
        told += round.iter().filter(|h| **h == handle).count();
        assert_eq!(row.is_current(current.read()), path == "/m/x.mp3");
    }
    assert_eq!(told, 3);
    let (_, second) = QueueItem::new(&mut current, String::from("/m/y.mp3"), Metadata::empty(), None);
    assert_eq!(second, 2);
    assert_eq!(current.notify(), vec![earlier, handle, second]);
}
