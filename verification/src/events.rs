//! The values that travel through the reactive cells.

use vstd::prelude::*;

verus! {

/// Raw bytes of an image, as they arrive with a track.
#[derive(Debug, PartialEq)]
pub struct ImageEvent(pub Box<[u8]>);

/// The value of the cell through which decoded images are handed over. It
/// carries nothing: the cell is there for its subscriptions.
#[derive(Debug, PartialEq, Clone)]
pub struct TransferDummy;

#[derive(Debug, PartialEq, Eq, Clone, Copy)]
pub enum PlaybackState {
    Stopped,
    Playing,
    Paused,
}

/// What is known of a track.
#[derive(Debug, PartialEq, Clone)]
pub struct Metadata {
    pub name: Option<String>,
    pub artist: Option<String>,
    pub album: Option<String>,
}

/// Where the library scan stands.
#[derive(Debug, PartialEq, Eq, Clone, Copy)]
pub enum ScanEvent {
    ScanCompleteIdle,
    DiscoverProgress(u64),
    ScanProgress { current: u64, total: u64 },
    Cleaning,
    ScanCompleteWatching,
}

/// `Vec::into_boxed_slice`: the same bytes in the same order, as a boxed
/// slice.
#[verifier::external_body]
fn into_boxed(bytes: Vec<u8>) -> (boxed: Box<[u8]>)
    ensures
        boxed@ == bytes@,
{
    bytes.into_boxed_slice()
}

impl Clone for ImageEvent {
    fn clone(&self) -> (copy: Self)
        ensures
            copy.0@ == self.0@,
    {
        ImageEvent(into_boxed(copy_bytes(&*self.0)))
    }
}

/// A copy of an optional text.
pub fn copy_text(text: &Option<String>) -> (copy: Option<String>)
    ensures
        copy == *text,
{
    match text {
        Some(t) => Some(t.clone()),
        None => None,
    }
}

/// A copy of a run of bytes.
pub fn copy_bytes(bytes: &[u8]) -> (copy: Vec<u8>)
    ensures
        copy@ == bytes@,
{
    let mut copy: Vec<u8> = Vec::new();
    let mut i: usize = 0;
    while i < bytes.len()
        invariant
            i <= bytes.len(),
            copy@ == bytes@.subrange(0, i as int),
        decreases bytes.len() - i,
    {
        copy.push(bytes[i]);
        proof {
            assert(bytes@.subrange(0, i + 1) =~= bytes@.subrange(0, i as int).push(
                bytes@[i as int],
            ));
        }
        i += 1;
    }
    proof {
        assert(bytes@.subrange(0, bytes@.len() as int) =~= bytes@);
    }
    copy
}

impl Metadata {
    /// Metadata of which nothing is known.
    pub fn empty() -> (m: Metadata)
        ensures
            m == (Metadata { name: None, artist: None, album: None }),
    {
        Metadata { name: None, artist: None, album: None }
    }

    pub fn copy(&self) -> (copy: Metadata)
        ensures
            copy == *self,
    {
        Metadata {
            name: copy_text(&self.name),
            artist: copy_text(&self.artist),
            album: copy_text(&self.album),
        }
    }
}

} // verus!
