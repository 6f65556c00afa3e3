//! The queue of playable items, and what the list shows of each.

use crate::events::{copy_bytes, copy_text, Metadata};
use crate::reactive::ReactiveContainer;
use vstd::prelude::*;

verus! {

/// One playable item: where its file is, and what was known of it when it
/// was queued.
#[derive(Debug, PartialEq, Clone)]
pub struct QueueItem {
    pub file_path: String,
    pub metadata: Metadata,
    pub album_art: Option<Vec<u8>>,
}

/// Whether an item at `path` is the current track, when the current-track
/// indicator holds `current`.
pub open spec fn is_current_track(path: Seq<char>, current: Option<String>) -> bool {
    match current {
        Some(playing) => playing@ == path,
        None => false,
    }
}

/// `start` is where the last segment of `path` begins: no separator stands
/// from there on, and `start` is the beginning of the path or follows a
/// separator.
pub open spec fn starts_last_segment(path: Seq<char>, separator: char, start: int) -> bool {
    &&& 0 <= start <= path.len()
    &&& forall|i: int| start <= i < path.len() ==> path[i] != separator
    &&& start == 0 || path[start - 1] == separator
}

/// `segment` is what follows the last separator in `path`, or the whole of
/// `path` where it holds no separator.
pub open spec fn is_last_segment(path: Seq<char>, separator: char, segment: Seq<char>) -> bool {
    exists|start: int| #[trigger]
        starts_last_segment(path, separator, start) && segment == path.subrange(
            start,
            path.len() as int,
        )
}

/// The last segment of a path: the file's name.
pub fn last_segment(path: &str, separator: char) -> (segment: String)
    ensures
        is_last_segment(path@, separator, segment@),
{
    let length = path.unicode_len();
    let mut start: usize = length;
    while start > 0 && path.get_char(start - 1) != separator
        invariant
            start <= length,
            length == path@.len(),
            forall|i: int| start <= i < path@.len() ==> path@[i] != separator,
        decreases start,
    {
        start -= 1;
    }
    proof {
        assert(starts_last_segment(path@, separator, start as int));
    }
    path.substring_char(start, length).to_owned()
}

impl QueueItem {
    /// The title to show: the track's name, or the name of its file.
    pub fn title(&self, separator: char) -> (title: String)
        ensures
            match self.metadata.name {
                Some(name) => title@ == name@,
                None => is_last_segment(self.file_path@, separator, title@),
            },
    {
        match &self.metadata.name {
            Some(name) => name.clone(),
            None => last_segment(self.file_path.as_str(), separator),
        }
    }

    /// Makes the row of an item and subscribes it to the current-track
    /// cell, behind the subscriptions that the cell has: the row is told of
    /// every change of the current track. The cell's value is not touched.
    pub fn new(
        current_track: &mut ReactiveContainer<Option<String>>,
        file_path: String,
        metadata: Metadata,
        album_art: Option<Vec<u8>>,
    ) -> (row: (QueueItem, u64))
        requires
            old(current_track).issued() < u64::MAX,
        ensures
            row.0 == (QueueItem { file_path, metadata, album_art }),
            row.1 == old(current_track).issued(),
            final(current_track).wf(),
            final(current_track).value == old(current_track).value,
            final(current_track).issued() == old(current_track).issued() + 1,
            final(current_track).subscribers() == old(current_track).subscribers().push(row.1),
    {
        let subscription = current_track.subscribe();
        (QueueItem { file_path, metadata, album_art }, subscription)
    }

    /// Two items that show the same: path, metadata and the bytes of the
    /// album art agree.
    pub open spec fn same_as(&self, other: QueueItem) -> bool {
        &&& self.file_path == other.file_path
        &&& self.metadata == other.metadata
        &&& match (self.album_art, other.album_art) {
            (Some(mine), Some(theirs)) => mine@ == theirs@,
            (None, None) => true,
            _ => false,
        }
    }

    pub fn copy(&self) -> (copy: QueueItem)
        ensures
            self.same_as(copy),
    {
        let album_art = match &self.album_art {
            Some(bytes) => Some(copy_bytes(bytes.as_slice())),
            None => None,
        };
        QueueItem { file_path: self.file_path.clone(), metadata: self.metadata.copy(), album_art }
    }

    /// Whether this item is the current track: its path is the one that the
    /// current-track indicator holds.
    pub fn is_current(&self, current: &Option<String>) -> (shown: bool)
        ensures
            shown == is_current_track(self.file_path@, *current),
    {
        match current {
            Some(playing) => *playing == self.file_path,
            None => false,
        }
    }

    /// The artist to show: the one in the metadata, or the words that
    /// stand for an artist nobody knows.
    pub fn artist(&self) -> (artist: String)
        ensures
            artist@ == (match self.metadata.artist {
                Some(a) => a@,
                None => "Unknown Artist"@,
            }),
    {
        self.artist_or("Unknown Artist")
    }

    /// The artist to show: the one in the metadata, or `fallback`.
    pub fn artist_or(&self, fallback: &str) -> (artist: String)
        ensures
            artist@ == (match self.metadata.artist {
                Some(a) => a@,
                None => fallback@,
            }),
    {
        match &self.metadata.artist {
            Some(a) => a.clone(),
            None => fallback.to_owned(),
        }
    }
}

/// The queue: playable items in the order in which they will play.
#[derive(Debug, PartialEq, Clone)]
pub struct Queue(pub Vec<QueueItem>);

impl View for Queue {
    type V = Seq<QueueItem>;

    open spec fn view(&self) -> Seq<QueueItem> {
        self.0@
    }
}

impl Queue {
    pub fn new() -> (queue: Queue)
        ensures
            queue@ == Seq::<QueueItem>::empty(),
    {
        Queue(Vec::new())
    }

    pub fn len(&self) -> (n: usize)
        ensures
            n == self@.len(),
    {
        self.0.len()
    }

    /// Puts `item` behind all others, and gives the new length.
    pub fn append(&mut self, item: QueueItem) -> (length: usize)
        ensures
            final(self)@ == old(self)@.push(item),
            length == old(self)@.len() + 1,
    {
        self.0.push(item);
        self.0.len()
    }

    /// Takes the item at `index` out and returns it; the others keep their
    /// order. Without an item at `index` nothing changes.
    pub fn remove(&mut self, index: usize) -> (removed: Option<QueueItem>)
        ensures
            index < old(self)@.len() ==> removed == Some(old(self)@[index as int]) && final(self)@
                == old(self)@.remove(index as int),
            index >= old(self)@.len() ==> removed.is_none() && final(self)@ == old(self)@,
    {
        if index < self.0.len() {
            Some(self.0.remove(index))
        } else {
            None
        }
    }

    /// Empties the queue.
    pub fn clear(&mut self)
        ensures
            final(self)@ == Seq::<QueueItem>::empty(),
    {
        self.0 = Vec::new();
    }

    /// A copy of the queue for reading, item by item in order.
    pub fn snapshot(&self) -> (items: Vec<QueueItem>)
        ensures
            items@.len() == self@.len(),
            forall|i: int| 0 <= i < self@.len() ==> (#[trigger] self@[i]).same_as(items@[i]),
    {
        let mut items: Vec<QueueItem> = Vec::new();
        let mut i: usize = 0;
        while i < self.0.len()
            invariant
                i <= self.0.len(),
                items@.len() == i,
                forall|j: int| 0 <= j < i ==> (#[trigger] self.0@[j]).same_as(items@[j]),
            decreases self.0.len() - i,
        {
            items.push(self.0[i].copy());
            i += 1;
        }
        items
    }

    /// Whether some item of the queue has the path `path`.
    pub fn contains_path(&self, path: &String) -> (found: bool)
        ensures
            found == exists|i: int| 0 <= i < self@.len() && (#[trigger] self@[i]).file_path@ == path@,
    {
        let mut i: usize = 0;
        while i < self.0.len()
            invariant
                i <= self.0.len(),
                forall|j: int| 0 <= j < i ==> (#[trigger] self.0@[j]).file_path@ != path@,
            decreases self.0.len() - i,
        {
            if self.0[i].file_path == *path {
                return true;
            }
            i += 1;
        }
        false
    }
}

/// An item that was taken out is no longer in the queue, as far as the
/// other items do not share its path: after `remove(index)` no item has the
/// path of the removed one, if that path stood in the queue once.
pub proof fn law_removed_item_is_gone(items: Seq<QueueItem>, index: int)
    requires
        0 <= index < items.len(),
        forall|i: int| 0 <= i < items.len() && i != index ==> (#[trigger] items[i]).file_path@
            != items[index].file_path@,
    ensures
        items.remove(index).len() == items.len() - 1,
        forall|i: int|
            0 <= i < items.remove(index).len() ==> (#[trigger] items.remove(index)[i]).file_path@
                != items[index].file_path@,
{
    assert forall|i: int| 0 <= i < items.remove(index).len() implies (#[trigger] items.remove(
        index,
    )[i]).file_path@ != items[index].file_path@ by {
        if i < index {
            assert(items.remove(index)[i] == items[i]);
        } else {
            assert(items.remove(index)[i] == items[i + 1]);
        }
    }
}

} // verus!
